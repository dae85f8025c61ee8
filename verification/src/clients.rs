//! The listeners of a room: who an emitted event goes to, and who is left
//! when a listener has gone.

use vstd::prelude::*;

verus! {

/// The events a listener's sink holds at most; a listener whose sink is
/// full when an event comes is dropped.
pub const SINK_CAPACITY: usize = 50;

/// A signed-in user, as the session store describes them.
pub struct User {
    pub id: usize,
    pub name: String,
    pub avatar_url: String,
}

impl Clone for User {
    fn clone(&self) -> (res: Self)
        ensures
            res == *self,
    {
        User { id: self.id, name: self.name.clone(), avatar_url: self.avatar_url.clone() }
    }
}

/// The connected clients of a room, by their connection ids.
pub struct Clients {
    ids: Vec<usize>,
}

impl Clone for Clients {
    fn clone(&self) -> (res: Self)
        ensures
            res.subscribers() == self.subscribers(),
            res.wf() == self.wf(),
    {
        let ids = self.ids.clone();
        assert(ids@ =~= self.ids@);
        Clients { ids }
    }
}

impl Clients {
    /// The ids of the connected clients.
    pub closed spec fn subscribers(&self) -> Set<usize> {
        self.ids@.to_set()
    }

    /// No client is listed twice.
    pub closed spec fn wf(&self) -> bool {
        self.ids@.no_duplicates()
    }

    pub fn new() -> (clients: Self)
        ensures
            clients.wf(),
            clients.subscribers() == Set::<usize>::empty(),
    {
        let clients = Clients { ids: Vec::new() };
        assert(clients.ids@.to_set() =~= Set::<usize>::empty());
        clients
    }

    fn position(&self, id: usize) -> (at: Option<usize>)
        ensures
            match at {
                Some(i) => i < self.ids@.len() && self.ids@[i as int] == id,
                None => !self.ids@.contains(id),
            },
    {
        let mut i: usize = 0;
        while i < self.ids.len()
            invariant
                i <= self.ids@.len(),
                forall|j: int| 0 <= j < i ==> self.ids@[j] != id,
            decreases self.ids@.len() - i,
        {
            if self.ids[i] == id {
                return Some(i);
            }
            i += 1;
        }
        None
    }

    /// Whether the client `id` is connected.
    pub fn has_client(&self, id: usize) -> (found: bool)
        ensures
            found == self.subscribers().contains(id),
    {
        self.position(id).is_some()
    }

    /// Lists the client `id` as connected.
    pub fn add_client(&mut self, id: usize)
        requires
            old(self).wf(),
        ensures
            final(self).wf(),
            final(self).subscribers() == old(self).subscribers().insert(id),
    {
        if self.position(id).is_none() {
            self.ids.push(id);
            proof {
                let before = old(self).ids@;
                let after = self.ids@;
                assert forall|x: usize| after.contains(x) <==> (before.contains(x) || x == id) by {
                    if before.contains(x) {
                        let i = choose|i: int| 0 <= i < before.len() && before[i] == x;
                        assert(after[i] == x);
                    }
                    if x == id {
                        assert(after[before.len() as int] == x);
                    }
                    if after.contains(x) {
                        let i = choose|i: int| 0 <= i < after.len() && after[i] == x;
                        if i < before.len() {
                            assert(before[i] == x);
                        }
                    }
                }
                assert(after.to_set() =~= before.to_set().insert(id));
            }
        } else {
            assert(self.ids@.to_set() =~= self.ids@.to_set().insert(id));
        }
    }

    /// Strikes the client `id` from the list.
    pub fn remove_client(&mut self, id: usize)
        requires
            old(self).wf(),
        ensures
            final(self).wf(),
            final(self).subscribers() == old(self).subscribers().remove(id),
    {
        match self.position(id) {
            Some(i) => {
                self.ids.remove(i);
                proof {
                    let before = old(self).ids@;
                    let after = self.ids@;
                    before.remove_ensures(i as int);
                    assert forall|x: usize| after.contains(x) <==> (before.contains(x) && x != id) by {
                        if before.contains(x) && x != id {
                            let j = choose|j: int| 0 <= j < before.len() && before[j] == x;
                            if j < i {
                                assert(after[j] == x);
                            } else {
                                assert(after[j - 1] == x);
                            }
                        }
                        if after.contains(x) {
                            let j = choose|j: int| 0 <= j < after.len() && after[j] == x;
                            if j < i {
                                assert(before[j] == x);
                            } else {
                                assert(before[j + 1] == x);
                            }
                        }
                    }
                    assert(after.to_set() =~= before.to_set().remove(id));
                    assert forall|a: int, b: int|
                        0 <= a < after.len() && 0 <= b < after.len() && a != b implies after[a]
                        != after[b] by {
                        let a0 = if a < i { a } else { a + 1 };
                        let b0 = if b < i { b } else { b + 1 };
                        assert(before[a0] != before[b0]);
                    }
                }
            },
            None => {
                assert(self.ids@.to_set() =~= self.ids@.to_set().remove(id));
            },
        }
    }

    /// The clients an event that is emitted now goes to, each once.
    pub fn recipients(&self) -> (to: Vec<usize>)
        requires
            self.wf(),
        ensures
            to@.to_set() == self.subscribers(),
            to@.no_duplicates(),
    {
        self.ids.clone()
    }

    /// Settles an emission: the clients whose sink refused the event are
    /// struck from the list, and all others stay.
    pub fn emit(&mut self, refused: &Vec<usize>)
        requires
            old(self).wf(),
        ensures
            final(self).wf(),
            final(self).subscribers() == old(self).subscribers().difference(refused@.to_set()),
    {
        let mut i: usize = 0;
        assert(self.subscribers() =~= old(self).subscribers().difference(
            refused@.take(0).to_set(),
        ));
        while i < refused.len()
            invariant
                i <= refused@.len(),
                self.wf(),
                self.subscribers() == old(self).subscribers().difference(
                    refused@.take(i as int).to_set(),
                ),
            decreases refused@.len() - i,
        {
            self.remove_client(refused[i]);
            proof {
                let done = refused@.take(i as int);
                let more = refused@.take(i + 1);
                assert(more =~= done.push(refused@[i as int]));
                assert forall|x: usize| more.contains(x) <==> (done.contains(x) || x
                    == refused@[i as int]) by {
                    if done.contains(x) {
                        let j = choose|j: int| 0 <= j < done.len() && done[j] == x;
                        assert(more[j] == x);
                    }
                    if x == refused@[i as int] {
                        assert(more[i as int] == x);
                    }
                }
                assert(self.subscribers() =~= old(self).subscribers().difference(more.to_set()));
            }
            i += 1;
        }
        assert(refused@.take(refused@.len() as int) =~= refused@);
    }
}

/// Once a client has gone, an event goes to exactly the clients that are
/// left: to none that was not connected before, and not to the one that went.
pub proof fn lemma_disconnect_cleanup(before: Clients, after: Clients, id: usize)
    requires
        after.subscribers() == before.subscribers().remove(id),
    ensures
        !after.subscribers().contains(id),
        forall|other: usize|
            other != id ==> (after.subscribers().contains(other) <==> before.subscribers().contains(
                other,
            )),
{
}

} // verus!
