//! The two-ended cursor that both consuming iterators are built on.
//!
//! The records live in one buffer. Two indices delimit what is still
//! unread: a front cursor that only grows and a back boundary that only
//! shrinks. A record is moved out of its slot when it is yielded, and the
//! slot is left empty, so nothing is ever handed out or released twice.
use vstd::prelude::*;

verus! {

/// What skipping `n` records from the front of `s` yields.
pub open spec fn nth_item<T>(s: Seq<T>, n: nat) -> Option<T> {
    if n < s.len() {
        Some(s[n as int])
    } else {
        None
    }
}

/// What is left of `s` after skipping `n` records from the front and
/// yielding the next one; nothing, where `s` is too short for that.
pub open spec fn nth_rest<T>(s: Seq<T>, n: nat) -> Seq<T> {
    if n < s.len() {
        s.subrange(n as int + 1, s.len() as int)
    } else {
        Seq::empty()
    }
}

/// What skipping `n` records from the back of `s` yields.
pub open spec fn nth_back_item<T>(s: Seq<T>, n: nat) -> Option<T> {
    if n < s.len() {
        Some(s[s.len() - 1 - n])
    } else {
        None
    }
}

/// What is left of `s` after skipping `n` records from the back and
/// yielding the one before them; nothing, where `s` is too short for that.
pub open spec fn nth_back_rest<T>(s: Seq<T>, n: nat) -> Seq<T> {
    if n < s.len() {
        s.subrange(0, s.len() - 1 - n)
    } else {
        Seq::empty()
    }
}

/// Skipping is stepping: to skip `n + 1` records from one end and yield the
/// next is to take one record from that end, drop it, and then skip `n`.
pub proof fn lemma_skip_is_repeated_step<T>(s: Seq<T>, n: nat)
    ensures
        nth_item(s, n + 1) == nth_item(nth_rest(s, 0), n),
        nth_rest(s, n + 1) == nth_rest(nth_rest(s, 0), n),
        nth_back_item(s, n + 1) == nth_back_item(nth_back_rest(s, 0), n),
        nth_back_rest(s, n + 1) == nth_back_rest(nth_back_rest(s, 0), n),
{
    assert(nth_rest(s, n + 1) =~= nth_rest(nth_rest(s, 0), n));
    assert(nth_back_rest(s, n + 1) =~= nth_back_rest(nth_back_rest(s, 0), n));
}

/// What a run of single steps has made of a sequence: the records yielded
/// from the front, in the order of yielding; the records still unread; the
/// records yielded from the back, in the order of yielding.
pub ghost struct Drained<T> {
    pub front: Seq<T>,
    pub rest: Seq<T>,
    pub back: Seq<T>,
}

/// Runs one single step per entry of `from_back` on `s`, in order: an entry
/// `true` takes the last unread record, an entry `false` the first.
pub open spec fn drain<T>(s: Seq<T>, from_back: Seq<bool>) -> Drained<T>
    decreases from_back.len(),
{
    if from_back.len() == 0 {
        Drained { front: Seq::empty(), rest: s, back: Seq::empty() }
    } else {
        let d = drain(s, from_back.drop_last());
        if from_back.last() {
            Drained {
                front: d.front,
                rest: nth_back_rest(d.rest, 0),
                back: match nth_back_item(d.rest, 0) {
                    Some(x) => d.back.push(x),
                    None => d.back,
                },
            }
        } else {
            Drained {
                front: match nth_item(d.rest, 0) {
                    Some(x) => d.front.push(x),
                    None => d.front,
                },
                rest: nth_rest(d.rest, 0),
                back: d.back,
            }
        }
    }
}

/// Any mix of single steps from the front and from the back parts the
/// sequence: what the front yielded, then what is unread, then what the back
/// yielded in reverse, is the sequence itself. The number of unread records
/// falls by one with each step until none is left.
pub proof fn lemma_drain_partitions<T>(s: Seq<T>, from_back: Seq<bool>)
    ensures
        drain(s, from_back).front + drain(s, from_back).rest + drain(s, from_back).back.reverse()
            == s,
        drain(s, from_back).rest.len() == if from_back.len() <= s.len() {
            s.len() - from_back.len()
        } else {
            0
        },
    decreases from_back.len(),
{
    let d = drain(s, from_back);
    if from_back.len() == 0 {
        assert(d.front + d.rest + d.back.reverse() =~= s);
    } else {
        let p = drain(s, from_back.drop_last());
        lemma_drain_partitions(s, from_back.drop_last());
        assert(p.front + p.rest + p.back.reverse() == s);
        if p.rest.len() == 0 {
            assert(d.rest =~= p.rest);
        } else if from_back.last() {
            assert(d.back.reverse() =~= seq![p.rest.last()] + p.back.reverse());
            assert(p.rest =~= d.rest + seq![p.rest.last()]);
            assert(d.front + d.rest + d.back.reverse() =~= p.front + p.rest + p.back.reverse());
        } else {
            assert(p.rest =~= seq![p.rest[0]] + d.rest);
            assert(d.front + d.rest + d.back.reverse() =~= p.front + p.rest + p.back.reverse());
        }
    }
}

/// Once there are as many single steps as records, in whatever mix, nothing
/// is unread, and what the front yielded followed by the reverse of what the
/// back yielded is the sequence.
pub proof fn lemma_drain_exhausts<T>(s: Seq<T>, from_back: Seq<bool>)
    requires
        from_back.len() >= s.len(),
    ensures
        drain(s, from_back).rest.len() == 0,
        drain(s, from_back).front + drain(s, from_back).back.reverse() == s,
{
    lemma_drain_partitions(s, from_back);
    let d = drain(s, from_back);
    assert(d.front + d.rest + d.back.reverse() =~= d.front + d.back.reverse());
}

/// Stepping from the front alone until nothing is unread yields the
/// sequence, in order.
pub proof fn lemma_drain_front<T>(s: Seq<T>, from_back: Seq<bool>)
    requires
        from_back.len() >= s.len(),
        forall|i: int| 0 <= i < from_back.len() ==> !from_back[i],
    ensures
        drain(s, from_back).front == s,
        drain(s, from_back).back.len() == 0,
{
    lemma_one_end_only(s, from_back);
    lemma_drain_exhausts(s, from_back);
    let d = drain(s, from_back);
    assert(d.back.reverse() =~= Seq::<T>::empty());
    assert(d.front + d.back.reverse() =~= d.front);
}

/// Stepping from the back alone until nothing is unread yields the
/// sequence, reversed.
pub proof fn lemma_drain_back<T>(s: Seq<T>, from_back: Seq<bool>)
    requires
        from_back.len() >= s.len(),
        forall|i: int| 0 <= i < from_back.len() ==> from_back[i],
    ensures
        drain(s, from_back).back == s.reverse(),
        drain(s, from_back).front.len() == 0,
{
    lemma_one_end_only(s, from_back);
    lemma_drain_exhausts(s, from_back);
    let d = drain(s, from_back);
    assert(d.front + d.back.reverse() =~= d.back.reverse());
    assert(d.back.reverse().reverse() =~= d.back);
}

/// An end from which no step was made has yielded nothing.
proof fn lemma_one_end_only<T>(s: Seq<T>, from_back: Seq<bool>)
    ensures
        (forall|i: int| 0 <= i < from_back.len() ==> !from_back[i]) ==> drain(
            s,
            from_back,
        ).back.len() == 0,
        (forall|i: int| 0 <= i < from_back.len() ==> from_back[i]) ==> drain(
            s,
            from_back,
        ).front.len() == 0,
    decreases from_back.len(),
{
    if from_back.len() > 0 {
        let init = from_back.drop_last();
        lemma_one_end_only(s, init);
        assert(forall|i: int| 0 <= i < init.len() ==> init[i] == from_back[i]);
    }
}

/// A buffer of records that is consumed from both ends.
pub struct RowCursor<T> {
    slots: Vec<Option<T>>,
    pos: usize,
    len: usize,
}

impl<T> RowCursor<T> {
    #[verifier::type_invariant]
    spec fn inv(self) -> bool {
        &&& self.pos <= self.len <= self.slots@.len()
        &&& forall|i: int| self.pos <= i < self.len ==> (#[trigger] self.slots@[i]) is Some
    }

    /// The index of the first unread record.
    pub closed spec fn front(&self) -> nat {
        self.pos as nat
    }

    /// The index just behind the last unread record.
    pub closed spec fn back(&self) -> nat {
        self.len as nat
    }

    /// The number of records that the buffer was made with.
    pub closed spec fn total(&self) -> nat {
        self.slots@.len()
    }

    /// The unread records, front to back.
    pub closed spec fn items(&self) -> Seq<T> {
        Seq::new(
            (self.len - self.pos) as nat,
            |i: int| self.slots@[self.pos + i]->Some_0,
        )
    }

    /// Takes over `rows`; all of them are unread.
    pub fn new(rows: Vec<T>) -> (c: Self)
        ensures
            c.items() == rows@,
            c.front() == 0,
            c.back() == rows@.len(),
            c.total() == rows@.len(),
    {
        let n: usize = rows.len();
        let ghost all = rows@;
        let mut slots: Vec<Option<T>> = Vec::with_capacity(n);
        for row in it: rows
            invariant
                it.seq() == all,
                slots@.len() == it.index(),
                forall|i: int| 0 <= i < it.index() ==> slots@[i] == Some(all[i]),
        {
            slots.push(Some(row));
        }
        let c = RowCursor { slots, pos: 0, len: n };
        assert(c.items() =~= all);
        c
    }

    /// The number of unread records.
    pub fn remaining(&self) -> (r: usize)
        ensures
            r == self.items().len(),
            r == self.back() - self.front(),
            self.front() <= self.back() <= self.total(),
    {
        proof {
            use_type_invariant(self);
        }
        self.len - self.pos
    }

    /// Skips `n` records from the front and moves the next one out.
    ///
    /// Where fewer than `n + 1` records are unread, nothing is yielded and
    /// the front cursor jumps to the back boundary.
    pub fn nth(&mut self, n: usize) -> (r: Option<T>)
        ensures
            r == nth_item(old(self).items(), n as nat),
            final(self).items() == nth_rest(old(self).items(), n as nat),
            final(self).back() == old(self).back(),
            final(self).total() == old(self).total(),
            final(self).front() == if n < old(self).items().len() {
                old(self).front() + n + 1
            } else {
                old(self).back() as int
            },
    {
        proof {
            use_type_invariant(&*self);
        }
        if n < self.len - self.pos {
            let at: usize = self.pos + n;
            self.pos = at + 1;
            let slot = &mut self.slots[at];
            let r = slot.take();
            assert(final(self).items() =~= nth_rest(old(self).items(), n as nat));
            r
        } else {
            self.pos = self.len;
            assert(final(self).items() =~= nth_rest(old(self).items(), n as nat));
            None
        }
    }

    /// Skips `n` records from the back and moves the one before them out.
    ///
    /// Where fewer than `n + 1` records are unread, nothing is yielded and
    /// the front cursor jumps to the back boundary.
    pub fn nth_back(&mut self, n: usize) -> (r: Option<T>)
        ensures
            r == nth_back_item(old(self).items(), n as nat),
            final(self).items() == nth_back_rest(old(self).items(), n as nat),
            final(self).total() == old(self).total(),
            final(self).back() == if n < old(self).items().len() {
                old(self).back() - n - 1
            } else {
                old(self).back() as int
            },
            final(self).front() == if n < old(self).items().len() {
                old(self).front()
            } else {
                old(self).back()
            },
    {
        proof {
            use_type_invariant(&*self);
        }
        if n < self.len - self.pos {
            self.len = self.len - (n + 1);
            let at: usize = self.len;
            let slot = &mut self.slots[at];
            let r = slot.take();
            assert(final(self).items() =~= nth_back_rest(old(self).items(), n as nat));
            r
        } else {
            self.pos = self.len;
            assert(final(self).items() =~= nth_back_rest(old(self).items(), n as nat));
            None
        }
    }
}

} // verus!
