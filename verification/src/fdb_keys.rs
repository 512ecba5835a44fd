//! Arrays of keys that a future produced, and the rows taken out of them.
use crate::cursor::{nth_back_item, nth_back_rest, nth_item, nth_rest, RowCursor};
use crate::handle::share_rc;
use crate::mem::read_unaligned_slice;
use std::ops::Deref;
use std::rc::Rc;
use vstd::prelude::*;
use vstd::std_specs::cmp::PartialEqSpecImpl;

verus! {

/// A key, as a future produced it.
pub struct FdbKey {
    key: Vec<u8>,
}

impl View for FdbKey {
    type V = Seq<u8>;

    /// The key's bytes.
    closed spec fn view(&self) -> Seq<u8> {
        self.key@
    }
}

impl FdbKey {
    /// A key made of the bytes `key`.
    pub fn new(key: Vec<u8>) -> (k: Self)
        ensures
            k@ == key@,
    {
        FdbKey { key }
    }

    /// Retrieves the associated key.
    pub fn key(&self) -> (r: &[u8])
        ensures
            r@ == self@,
    {
        self.key.as_slice()
    }
}

impl Clone for FdbKey {
    fn clone(&self) -> (r: Self)
        ensures
            r@ == self@,
    {
        FdbKey { key: self.key.clone() }
    }
}

impl PartialEq for FdbKey {
    /// Two keys are equal where their bytes are.
    fn eq(&self, other: &Self) -> (r: bool) {
        let r = self.key == other.key;
        proof {
            assert(r == (self.key@ =~= other.key@));
        }
        r
    }
}

impl PartialEqSpecImpl for FdbKey {
    open spec fn obeys_eq_spec() -> bool {
        true
    }

    open spec fn eq_spec(&self, other: &Self) -> bool {
        self@ == other@
    }
}

impl Eq for FdbKey {

}

/// A slice of keys owned by a future: the copied records together with the
/// handle that keeps the future's memory alive.
pub struct FdbKeys<H> {
    _f: H,
    keys: Vec<FdbKey>,
}

impl<H> View for FdbKeys<H> {
    type V = Seq<FdbKey>;

    /// The keys, in the order in which the future gave them.
    closed spec fn view(&self) -> Seq<FdbKey> {
        self.keys@
    }
}

impl<H> FdbKeys<H> {
    /// The handle that the array keeps alive.
    pub closed spec fn handle(&self) -> H {
        self._f
    }

    /// Couples the handle `f` of a resolved future with a copy of the first
    /// `len` keys of its result `keys`.
    pub fn new(f: H, keys: &[FdbKey], len: i32) -> (r: Self)
        requires
            0 <= len <= keys@.len(),
        ensures
            r.handle() == f,
            r@.len() == len,
            forall|i: int| 0 <= i < len ==> (#[trigger] r@[i])@ == keys@[i]@,
    {
        FdbKeys { _f: f, keys: read_unaligned_slice(keys, len) }
    }

    /// The number of keys.
    pub fn len(&self) -> (n: usize)
        ensures
            n == self@.len(),
    {
        self.keys.len()
    }

    /// Whether the array holds no key.
    pub fn is_empty(&self) -> (b: bool)
        ensures
            b == (self@.len() == 0),
    {
        self.keys.len() == 0
    }

    /// Iterates over the keys by reference, front to back, for as long as
    /// the array is borrowed.
    pub fn iter(&self) -> (it: std::slice::Iter<'_, FdbKey>)
        ensures
            vstd::std_specs::slice::into_iter_elts(it) == self@,
    {
        let keys: &[FdbKey] = self.keys.as_slice();
        let it = keys.iter();
        proof {
            vstd::std_specs::slice::axiom_spec_slice_iter(keys);
            assert(vstd::std_specs::slice::into_iter_elts(it) =~= self@);
        }
        it
    }

    /// Turns the array into an iterator that hands the keys out one by one,
    /// each with a share of the handle.
    pub fn into_iter(self) -> (it: FdbKeysIter<H>)
        ensures
            it@ == self@,
            it.handle() == self.handle(),
            it.front() == 0,
            it.back() == self@.len(),
            it.total() == self@.len(),
    {
        FdbKeysIter { f: Rc::new(self._f), rows: RowCursor::new(self.keys) }
    }
}

impl<H> Deref for FdbKeys<H> {
    type Target = [FdbKey];

    /// The keys as a slice, for indexing and for iterating by reference.
    fn deref(&self) -> (r: &[FdbKey])
        ensures
            r@ == self@,
    {
        self.keys.as_slice()
    }
}

impl<H> AsRef<[FdbKey]> for FdbKeys<H> {
    /// The keys as a slice.
    fn as_ref(&self) -> (r: &[FdbKey])
        ensures
            r@ == self@,
    {
        self.deref()
    }
}

impl<'a, H> IntoIterator for &'a FdbKeys<H> {
    type Item = &'a FdbKey;

    type IntoIter = std::slice::Iter<'a, FdbKey>;

    /// Iterates over the keys by reference, front to back.
    fn into_iter(self) -> (it: std::slice::Iter<'a, FdbKey>)
        ensures
            vstd::std_specs::slice::into_iter_elts(it) == self@,
    {
        self.iter()
    }
}

/// An iterator of keys owned by a future. It yields from both ends.
pub struct FdbKeysIter<H> {
    f: Rc<H>,
    rows: RowCursor<FdbKey>,
}

impl<H> View for FdbKeysIter<H> {
    type V = Seq<FdbKey>;

    /// The keys that were not yielded or skipped yet, front to back.
    closed spec fn view(&self) -> Seq<FdbKey> {
        self.rows.items()
    }
}

impl<H> FdbKeysIter<H> {
    /// The handle that the iterator shares with the rows it yielded.
    pub closed spec fn handle(&self) -> H {
        *self.f
    }

    /// The index of the first unread key.
    pub closed spec fn front(&self) -> nat {
        self.rows.front()
    }

    /// The index just behind the last unread key.
    pub closed spec fn back(&self) -> nat {
        self.rows.back()
    }

    /// The number of keys that the array held.
    pub closed spec fn total(&self) -> nat {
        self.rows.total()
    }

    /// Whether `r` is what a step hands out that moved `row` out of the
    /// buffer of an iterator with the handle `handle`.
    pub open spec fn yields(r: Option<FdbRowKey<H>>, row: Option<FdbKey>, handle: H) -> bool {
        match r {
            Some(k) => row == Some(k.row()) && k.handle() == handle,
            None => row is None,
        }
    }

    /// Yields the first unread key.
    pub fn next(&mut self) -> (r: Option<FdbRowKey<H>>)
        ensures
            Self::yields(r, nth_item(old(self)@, 0), old(self).handle()),
            final(self)@ == nth_rest(old(self)@, 0),
            final(self).handle() == old(self).handle(),
            final(self).total() == old(self).total(),
            final(self).back() == old(self).back(),
            final(self).front() == if old(self)@.len() > 0 {
                old(self).front() + 1
            } else {
                old(self).back()
            },
    {
        self.nth(0)
    }

    /// Skips `n` keys from the front and yields the next one.
    ///
    /// Where fewer than `n + 1` keys are unread, nothing is yielded and the
    /// iterator is exhausted.
    pub fn nth(&mut self, n: usize) -> (r: Option<FdbRowKey<H>>)
        ensures
            Self::yields(r, nth_item(old(self)@, n as nat), old(self).handle()),
            final(self)@ == nth_rest(old(self)@, n as nat),
            final(self).handle() == old(self).handle(),
            final(self).total() == old(self).total(),
            final(self).back() == old(self).back(),
            final(self).front() == if n < old(self)@.len() {
                old(self).front() + n + 1
            } else {
                old(self).back() as int
            },
    {
        match self.rows.nth(n) {
            Some(row_key) => Some(FdbRowKey { _f: share_rc(&self.f), row_key }),
            None => None,
        }
    }

    /// The number of unread keys, as a lower and an upper bound that agree.
    pub fn size_hint(&self) -> (r: (usize, Option<usize>))
        ensures
            r.0 == self@.len(),
            r.1 == Some(r.0),
    {
        let rem: usize = self.rows.remaining();
        (rem, Some(rem))
    }

    /// The exact number of unread keys.
    pub fn len(&self) -> (n: usize)
        ensures
            n == self@.len(),
            n == self.back() - self.front(),
            self.front() <= self.back() <= self.total(),
    {
        self.rows.remaining()
    }

    /// Yields the last unread key.
    pub fn next_back(&mut self) -> (r: Option<FdbRowKey<H>>)
        ensures
            Self::yields(r, nth_back_item(old(self)@, 0), old(self).handle()),
            final(self)@ == nth_back_rest(old(self)@, 0),
            final(self).handle() == old(self).handle(),
            final(self).total() == old(self).total(),
            final(self).back() == if old(self)@.len() > 0 {
                old(self).back() - 1
            } else {
                old(self).back() as int
            },
            final(self).front() == if old(self)@.len() > 0 {
                old(self).front()
            } else {
                old(self).back()
            },
    {
        self.nth_back(0)
    }

    /// Skips `n` keys from the back and yields the one before them.
    ///
    /// Where fewer than `n + 1` keys are unread, nothing is yielded and the
    /// iterator is exhausted.
    pub fn nth_back(&mut self, n: usize) -> (r: Option<FdbRowKey<H>>)
        ensures
            Self::yields(r, nth_back_item(old(self)@, n as nat), old(self).handle()),
            final(self)@ == nth_back_rest(old(self)@, n as nat),
            final(self).handle() == old(self).handle(),
            final(self).total() == old(self).total(),
            final(self).back() == if n < old(self)@.len() {
                old(self).back() - n - 1
            } else {
                old(self).back() as int
            },
            final(self).front() == if n < old(self)@.len() {
                old(self).front()
            } else {
                old(self).back()
            },
    {
        match self.rows.nth_back(n) {
            Some(row_key) => Some(FdbRowKey { _f: share_rc(&self.f), row_key }),
            None => None,
        }
    }
}

/// A row key you can own.
///
/// Until dropped, it keeps the future's handle alive, and with it whatever
/// else the future produced.
pub struct FdbRowKey<H> {
    _f: Rc<H>,
    row_key: FdbKey,
}

impl<H> FdbRowKey<H> {
    /// The handle that the row keeps alive.
    pub closed spec fn handle(&self) -> H {
        *self._f
    }

    /// The key that the row holds.
    pub closed spec fn row(&self) -> FdbKey {
        self.row_key
    }

}

impl<H> Deref for FdbRowKey<H> {
    type Target = FdbKey;

    /// The key that the row holds.
    fn deref(&self) -> (r: &FdbKey)
        ensures
            *r == self.row(),
    {
        &self.row_key
    }
}

impl<H> AsRef<FdbKey> for FdbRowKey<H> {
    /// The key that the row holds.
    fn as_ref(&self) -> (r: &FdbKey)
        ensures
            *r == self.row(),
    {
        self.deref()
    }
}

impl<H> PartialEq for FdbRowKey<H> {
    /// Two rows are equal where their keys are, whatever their handles.
    fn eq(&self, other: &Self) -> (r: bool) {
        self.row_key == other.row_key
    }
}

impl<H> PartialEqSpecImpl for FdbRowKey<H> {
    open spec fn obeys_eq_spec() -> bool {
        true
    }

    open spec fn eq_spec(&self, other: &Self) -> bool {
        self.row()@ == other.row()@
    }
}

impl<H> Eq for FdbRowKey<H> {

}

} // verus!
