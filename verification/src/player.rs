//! The rotating playlist queue and the media player built on it.

use vstd::prelude::*;

verus! {

/// A playlist entry: a title and the address it is played from.
pub struct Track {
    pub title: String,
    pub url: String,
}

impl Clone for Track {
    fn clone(&self) -> (res: Self)
        ensures
            res == *self,
    {
        Track { title: self.title.clone(), url: self.url.clone() }
    }
}

/// Where the cursor of a queue of `len` items stands after moving `n`
/// places towards the tail, wrapping round. An empty queue keeps its cursor.
pub open spec fn cursor_forward(len: nat, cursor: nat, n: nat) -> nat {
    if len == 0 {
        cursor
    } else {
        (((cursor + n) as int) % (len as int)) as nat
    }
}

/// Where the cursor of a queue of `len` items stands after moving `n`
/// places towards the head, wrapping round. An empty queue keeps its cursor.
pub open spec fn cursor_backward(len: nat, cursor: nat, n: nat) -> nat {
    if len == 0 {
        cursor
    } else {
        (((cursor + len - n % len) as int) % (len as int)) as nat
    }
}

/// Where the cursor stands after the item at `pos` was taken out: back at
/// the head when that item stood at or before the cursor, else unmoved.
pub open spec fn cursor_after_delete(cursor: nat, pos: nat) -> nat {
    if cursor >= pos {
        0
    } else {
        cursor
    }
}

/// An append-only sequence of items with one rotating cursor.
pub struct AtomicDeQueue<T> {
    items: Vec<T>,
    index: usize,
}

impl<T> AtomicDeQueue<T> {
    /// The items, head first.
    pub closed spec fn items(&self) -> Seq<T> {
        self.items@
    }

    /// The position of the cursor.
    pub closed spec fn cursor(&self) -> nat {
        self.index as nat
    }

    /// The cursor is a valid index whenever there is an item, and 0 otherwise.
    pub open spec fn wf(&self) -> bool {
        if self.items().len() == 0 {
            self.cursor() == 0
        } else {
            self.cursor() < self.items().len()
        }
    }

    /// The item under the cursor, if there is any item.
    pub open spec fn current(&self) -> Option<T> {
        if self.cursor() < self.items().len() {
            Some(self.items()[self.cursor() as int])
        } else {
            None
        }
    }

    pub fn new() -> (q: Self)
        ensures
            q.wf(),
            q.items() == Seq::<T>::empty(),
            q.cursor() == 0,
    {
        AtomicDeQueue { items: Vec::new(), index: 0 }
    }

    #[inline]
    pub fn len(&self) -> (n: usize)
        ensures
            n == self.items().len(),
    {
        self.items.len()
    }

    /// Moves the cursor `n` places towards the head, wrapping round.
    pub fn rotate(&mut self, n: usize)
        requires
            old(self).wf(),
        ensures
            final(self).wf(),
            final(self).items() == old(self).items(),
            final(self).cursor() == cursor_backward(
                old(self).items().len(),
                old(self).cursor(),
                n as nat,
            ),
    {
        let len: usize = self.items.len();
        if len == 0 {
            return ;
        }
        let step: usize = n % len;
        let cur: usize = self.index;
        proof {
            lemma_backward_step(len as nat, cur as nat, step as nat);
        }
        if step > cur {
            self.index = len - (step - cur);
        } else {
            self.index = cur - step;
        }
    }

    /// Moves the cursor `n` places towards the tail, wrapping round.
    pub fn lrotate(&mut self, n: usize)
        requires
            old(self).wf(),
        ensures
            final(self).wf(),
            final(self).items() == old(self).items(),
            final(self).cursor() == cursor_forward(
                old(self).items().len(),
                old(self).cursor(),
                n as nat,
            ),
    {
        let len: usize = self.items.len();
        if len == 0 {
            return ;
        }
        let step: usize = n % len;
        let cur: usize = self.index;
        proof {
            lemma_forward_step(len as nat, cur as nat, n as nat);
        }
        if step >= len - cur {
            self.index = step - (len - cur);
        } else {
            self.index = cur + step;
        }
    }

    /// The item under the cursor.
    pub fn get(&self) -> (res: Option<&T>)
        requires
            self.wf(),
        ensures
            match res {
                Some(item) => self.current() == Some(*item),
                None => self.current().is_none(),
            },
            res.is_some() <==> self.items().len() > 0,
    {
        if self.index < self.items.len() {
            Some(&self.items[self.index])
        } else {
            None
        }
    }

    /// Adds an item at the tail; the cursor stays where it is.
    pub fn append(&mut self, item: T)
        requires
            old(self).wf(),
        ensures
            final(self).wf(),
            final(self).items() == old(self).items().push(item),
            final(self).cursor() == old(self).cursor(),
    {
        self.items.push(item)
    }

    /// Takes out the item at `pos`. Out of range, nothing changes.
    pub fn delete(&mut self, pos: usize) -> (res: Option<T>)
        requires
            old(self).wf(),
        ensures
            final(self).wf(),
            pos < old(self).items().len() ==> {
                &&& res == Some(old(self).items()[pos as int])
                &&& final(self).items() == old(self).items().remove(pos as int)
                &&& final(self).cursor() == cursor_after_delete(old(self).cursor(), pos as nat)
            },
            pos >= old(self).items().len() ==> {
                &&& res.is_none()
                &&& final(self).items() == old(self).items()
                &&& final(self).cursor() == old(self).cursor()
            },
    {
        if pos < self.items.len() {
            let item = self.items.remove(pos);
            if self.index >= pos {
                self.index = 0;
            }
            Some(item)
        } else {
            None
        }
    }
}

impl<T: Clone> Clone for AtomicDeQueue<T> {
    fn clone(&self) -> (res: Self)
        ensures
            res.cursor() == self.cursor(),
            res.items().len() == self.items().len(),
            forall|i: int|
                0 <= i < self.items().len() ==> cloned::<T>(
                    #[trigger] self.items()[i],
                    res.items()[i],
                ),
            self.wf() ==> res.wf(),
    {
        AtomicDeQueue { items: self.items.clone(), index: self.index }
    }
}

impl<T> Default for AtomicDeQueue<T> {
    fn default() -> (q: Self)
        ensures
            q.wf(),
            q.items() == Seq::<T>::empty(),
            q.cursor() == 0,
    {
        Self::new()
    }
}

/// With `step == n % len`, moving forward by `n` lands on `cursor + step`,
/// less `len` where that passes the tail.
proof fn lemma_forward_step(len: nat, cursor: nat, n: nat)
    requires
        cursor < len,
    ensures
        cursor_forward(len, cursor, n) as int == if cursor + n % len >= len {
            cursor + n % len - len
        } else {
            (cursor + n % len) as int
        },
        cursor_forward(len, cursor, n) < len,
{
    let m = len as int;
    let step = (n as int) % m;
    vstd::arithmetic::div_mod::lemma_add_mod_noop(cursor as int, n as int, m);
    vstd::arithmetic::div_mod::lemma_small_mod(cursor, len);
    vstd::arithmetic::div_mod::lemma_mod_bound(n as int, m);
    if cursor + step >= m {
        vstd::arithmetic::div_mod::lemma_mod_sub_multiples_vanish(cursor + step, m);
        vstd::arithmetic::div_mod::lemma_small_mod((cursor + step - m) as nat, len);
    } else {
        vstd::arithmetic::div_mod::lemma_small_mod((cursor + step) as nat, len);
    }
}

/// With `step == n % len`, moving backward by `n` lands on `cursor - step`,
/// plus `len` where that passes the head.
proof fn lemma_backward_step(len: nat, cursor: nat, step: nat)
    requires
        cursor < len,
        step < len,
    ensures
        (((cursor + len - step) as int) % (len as int)) == if step > cursor {
            len - (step - cursor)
        } else {
            cursor - step
        },
{
    let m = len as int;
    if step > cursor {
        vstd::arithmetic::div_mod::lemma_small_mod((cursor + len - step) as nat, len);
    } else {
        vstd::arithmetic::div_mod::lemma_mod_sub_multiples_vanish(cursor + len - step, m);
        vstd::arithmetic::div_mod::lemma_small_mod((cursor - step) as nat, len);
    }
}

/// Rotation is cyclic: moving forward by the queue's length comes back to
/// the same place, and moving backward by `k` undoes moving forward by `k`.
pub proof fn lemma_rotation_cyclic(len: nat, cursor: nat, k: nat)
    requires
        cursor < len,
    ensures
        cursor_forward(len, cursor, len) == cursor,
        cursor_backward(len, cursor_forward(len, cursor, k), k) == cursor,
        cursor_forward(len, cursor_backward(len, cursor, k), k) == cursor,
{
    let m = len as int;
    vstd::arithmetic::div_mod::lemma_mod_self_0(m);
    lemma_forward_step(len, cursor, len);
    lemma_forward_step(len, cursor, k);
    vstd::arithmetic::div_mod::lemma_mod_bound(k as int, m);
    let step = (k % len) as nat;
    let there = cursor_forward(len, cursor, k);
    lemma_backward_step(len, there, step);
    let back = cursor_backward(len, cursor, k);
    lemma_backward_step(len, cursor, step);
    lemma_forward_step(len, back, k);
}

/// A rotation that brings the cursor back to where it was brings back the
/// same current item: after a rotation forward by the queue's length, and
/// after a rotation forward by `k` followed by one backward by `k`.
pub proof fn lemma_rotation_keeps_current<T>(
    before: AtomicDeQueue<T>,
    round: AtomicDeQueue<T>,
    there_and_back: AtomicDeQueue<T>,
    k: nat,
)
    requires
        before.wf(),
        round.items() == before.items(),
        round.cursor() == cursor_forward(before.items().len(), before.cursor(), before.items().len()),
        there_and_back.items() == before.items(),
        there_and_back.cursor() == cursor_backward(
            before.items().len(),
            cursor_forward(before.items().len(), before.cursor(), k),
            k,
        ),
    ensures
        round.current() == before.current(),
        there_and_back.current() == before.current(),
{
    if before.items().len() > 0 {
        lemma_rotation_cyclic(before.items().len(), before.cursor(), k);
    }
}

/// Taking out an item at or before the cursor puts the cursor back on the
/// head, so the current item is then the first of those that are left.
pub proof fn lemma_delete_resets_cursor<T>(before: AtomicDeQueue<T>, after: AtomicDeQueue<T>, pos: nat)
    requires
        before.wf(),
        pos < before.items().len(),
        pos <= before.cursor(),
        after.items() == before.items().remove(pos as int),
        after.cursor() == cursor_after_delete(before.cursor(), pos),
    ensures
        after.cursor() == 0,
        after.items().len() == before.items().len() - 1,
        after.items().len() > 0 ==> after.current() == Some(after.items()[0]),
        after.items().len() > 0 && pos == 0 ==> after.current() == Some(before.items()[1]),
{
}

/// The playlist of a room and the playback time its clients last agreed on.
pub struct MediaPlayer {
    current_time: usize,
    tracks: AtomicDeQueue<Track>,
}

impl Clone for MediaPlayer {
    fn clone(&self) -> (res: Self)
        ensures
            res.clock() == self.clock(),
            res.queue().cursor() == self.queue().cursor(),
            res.queue().items() == self.queue().items(),
            self.wf() ==> res.wf(),
    {
        let tracks = self.tracks.clone();
        proof {
            assert forall|i: int| 0 <= i < tracks.items().len() implies tracks.items()[i]
                == self.tracks.items()[i] by {
                assert(cloned::<Track>(self.tracks.items()[i], tracks.items()[i]));
            }
            assert(tracks.items() =~= self.tracks.items());
        }
        MediaPlayer { current_time: self.current_time, tracks }
    }
}

impl MediaPlayer {
    /// The playback time.
    pub closed spec fn clock(&self) -> nat {
        self.current_time as nat
    }

    /// The playlist.
    pub closed spec fn queue(&self) -> AtomicDeQueue<Track> {
        self.tracks
    }

    pub open spec fn wf(&self) -> bool {
        self.queue().wf()
    }

    pub fn new() -> (p: Self)
        ensures
            p.wf(),
            p.clock() == 0,
            p.queue().items() == Seq::<Track>::empty(),
            p.queue().cursor() == 0,
    {
        MediaPlayer { current_time: 0, tracks: AtomicDeQueue::new() }
    }

    pub fn time(&self) -> (t: usize)
        ensures
            t == self.clock(),
    {
        self.current_time
    }

    pub fn set_time(&mut self, time: usize)
        ensures
            final(self).clock() == time,
            final(self).queue() == old(self).queue(),
    {
        self.current_time = time;
    }

    /// Hands out the current track and moves the cursor on by one.
    pub fn next_track(&mut self) -> (res: Option<Track>)
        requires
            old(self).wf(),
        ensures
            final(self).wf(),
            res == old(self).queue().current(),
            final(self).clock() == old(self).clock(),
            final(self).queue().items() == old(self).queue().items(),
            final(self).queue().cursor() == cursor_forward(
                old(self).queue().items().len(),
                old(self).queue().cursor(),
                1,
            ),
    {
        let res = match self.tracks.get() {
            None => None,
            Some(v) => Some(v.clone()),
        };
        self.tracks.lrotate(1);
        res
    }

    /// The current track.
    pub fn current_track(&self) -> (res: Option<Track>)
        requires
            self.wf(),
        ensures
            res == self.queue().current(),
    {
        match self.tracks.get() {
            None => None,
            Some(v) => Some(v.clone()),
        }
    }

    /// Hands out the current track and moves the cursor back by one.
    pub fn previous_track(&mut self) -> (res: Option<Track>)
        requires
            old(self).wf(),
        ensures
            final(self).wf(),
            res == old(self).queue().current(),
            final(self).clock() == old(self).clock(),
            final(self).queue().items() == old(self).queue().items(),
            final(self).queue().cursor() == cursor_backward(
                old(self).queue().items().len(),
                old(self).queue().cursor(),
                1,
            ),
    {
        let res = match self.tracks.get() {
            None => None,
            Some(v) => Some(v.clone()),
        };
        self.tracks.rotate(1);
        res
    }

    /// Adds a track at the end of the playlist.
    pub fn add_track(&mut self, track: Track)
        requires
            old(self).wf(),
        ensures
            final(self).wf(),
            final(self).clock() == old(self).clock(),
            final(self).queue().items() == old(self).queue().items().push(track),
            final(self).queue().cursor() == old(self).queue().cursor(),
    {
        self.tracks.append(track);
    }

    /// Takes the track at `index` out of the playlist.
    pub fn remove_track(&mut self, index: usize) -> (res: Option<Track>)
        requires
            old(self).wf(),
        ensures
            final(self).wf(),
            final(self).clock() == old(self).clock(),
            index < old(self).queue().items().len() ==> {
                &&& res == Some(old(self).queue().items()[index as int])
                &&& final(self).queue().items() == old(self).queue().items().remove(index as int)
                &&& final(self).queue().cursor() == cursor_after_delete(
                    old(self).queue().cursor(),
                    index as nat,
                )
            },
            index >= old(self).queue().items().len() ==> {
                &&& res.is_none()
                &&& final(self).queue().items() == old(self).queue().items()
                &&& final(self).queue().cursor() == old(self).queue().cursor()
            },
    {
        self.tracks.delete(index)
    }
}

} // verus!
