//! The sessions that may join a room in whitelist mode.

use vstd::prelude::*;

verus! {

/// What a list of session ids stands for: the set of their texts.
pub open spec fn session_set(ids: Seq<String>) -> Set<Seq<char>> {
    Set::new(|text: Seq<char>| exists|i: int| 0 <= i < ids.len() && #[trigger] ids[i]@ == text)
}

/// No session id is listed twice.
pub open spec fn distinct_sessions(ids: Seq<String>) -> bool {
    forall|i: int, j: int| 0 <= i < ids.len() && 0 <= j < ids.len() && i != j ==> ids[i]@ != ids[j]@
}

/// A set of session ids.
pub struct SessionList {
    ids: Vec<String>,
}

impl Clone for SessionList {
    fn clone(&self) -> (res: Self)
        ensures
            res.allowed() == self.allowed(),
            res.wf() == self.wf(),
    {
        let ids = self.ids.clone();
        proof {
            assert forall|i: int| 0 <= i < ids@.len() implies ids@[i] == self.ids@[i] by {
                assert(cloned::<String>(self.ids@[i], ids@[i]));
            }
            assert(ids@ =~= self.ids@);
        }
        SessionList { ids }
    }
}

impl SessionList {
    /// The session ids in the list.
    pub closed spec fn allowed(&self) -> Set<Seq<char>> {
        session_set(self.ids@)
    }

    /// No session id is listed twice.
    pub closed spec fn wf(&self) -> bool {
        distinct_sessions(self.ids@)
    }

    pub fn new() -> (list: Self)
        ensures
            list.wf(),
            list.allowed() == Set::<Seq<char>>::empty(),
    {
        let list = SessionList { ids: Vec::new() };
        assert(list.allowed() =~= Set::<Seq<char>>::empty());
        list
    }

    fn position(&self, session_id: &String) -> (at: Option<usize>)
        ensures
            match at {
                Some(i) => i < self.ids@.len() && self.ids@[i as int]@ == session_id@,
                None => !self.allowed().contains(session_id@),
            },
    {
        let mut i: usize = 0;
        while i < self.ids.len()
            invariant
                i <= self.ids@.len(),
                forall|j: int| 0 <= j < i ==> self.ids@[j]@ != session_id@,
            decreases self.ids@.len() - i,
        {
            if self.ids[i] == *session_id {
                return Some(i);
            }
            i += 1;
        }
        None
    }

    /// Whether `session_id` is in the list.
    pub fn contains(&self, session_id: &String) -> (found: bool)
        ensures
            found == self.allowed().contains(session_id@),
    {
        match self.position(session_id) {
            Some(i) => {
                assert(self.ids@[i as int]@ == session_id@);
                true
            },
            None => false,
        }
    }

    /// Puts `session_id` into the list.
    pub fn insert(&mut self, session_id: String)
        requires
            old(self).wf(),
        ensures
            final(self).wf(),
            final(self).allowed() == old(self).allowed().insert(session_id@),
    {
        match self.position(&session_id) {
            Some(i) => {
                assert(self.ids@[i as int]@ == session_id@);
                assert(self.allowed() =~= self.allowed().insert(session_id@));
            },
            None => {
                self.ids.push(session_id);
                proof {
                    let before = old(self).ids@;
                    let after = self.ids@;
                    assert forall|text: Seq<char>|
                        session_set(after).contains(text) <==> (session_set(before).contains(text)
                            || text == session_id@) by {
                        if session_set(before).contains(text) {
                            let i = choose|i: int| 0 <= i < before.len() && before[i]@ == text;
                            assert(after[i]@ == text);
                        }
                        if text == session_id@ {
                            assert(after[before.len() as int]@ == text);
                        }
                        if session_set(after).contains(text) {
                            let i = choose|i: int| 0 <= i < after.len() && after[i]@ == text;
                            if i < before.len() {
                                assert(before[i]@ == text);
                            }
                        }
                    }
                    assert(session_set(after) =~= session_set(before).insert(session_id@));
                    assert forall|i: int, j: int|
                        0 <= i < after.len() && 0 <= j < after.len() && i != j implies after[i]@
                        != after[j]@ by {
                        if i < before.len() && j < before.len() {
                            assert(before[i]@ != before[j]@);
                        } else if i < before.len() {
                            assert(before[i]@ == after[i]@);
                        } else {
                            assert(before[j]@ == after[j]@);
                        }
                    }
                }
            },
        }
    }

    /// Takes `session_id` out of the list.
    pub fn remove(&mut self, session_id: &String)
        requires
            old(self).wf(),
        ensures
            final(self).wf(),
            final(self).allowed() == old(self).allowed().remove(session_id@),
    {
        match self.position(session_id) {
            Some(i) => {
                self.ids.remove(i);
                proof {
                    let before = old(self).ids@;
                    let after = self.ids@;
                    before.remove_ensures(i as int);
                    assert forall|text: Seq<char>|
                        session_set(after).contains(text) <==> (session_set(before).contains(text)
                            && text != session_id@) by {
                        if session_set(before).contains(text) && text != session_id@ {
                            let j = choose|j: int| 0 <= j < before.len() && before[j]@ == text;
                            if j < i {
                                assert(after[j]@ == text);
                            } else {
                                assert(after[j - 1]@ == text);
                            }
                        }
                        if session_set(after).contains(text) {
                            let j = choose|j: int| 0 <= j < after.len() && after[j]@ == text;
                            if j < i {
                                assert(before[j]@ == text);
                            } else {
                                assert(before[j + 1]@ == text);
                                assert(before[j + 1]@ != before[i as int]@);
                            }
                        }
                    }
                    assert(session_set(after) =~= session_set(before).remove(session_id@));
                    assert forall|a: int, b: int|
                        0 <= a < after.len() && 0 <= b < after.len() && a != b implies after[a]@
                        != after[b]@ by {
                        let a0 = if a < i { a } else { a + 1 };
                        let b0 = if b < i { b } else { b + 1 };
                        assert(before[a0]@ != before[b0]@);
                    }
                }
            },
            None => {
                assert(self.allowed() =~= self.allowed().remove(session_id@));
            },
        }
    }
}

} // verus!
