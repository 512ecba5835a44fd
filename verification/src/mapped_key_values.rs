//! Arrays of mapped key-values, as a mapped range read produces them.
//!
//! A mapped key-value is a parent pair together with the secondary range
//! that was scanned for it: the range's two boundaries and the key-value
//! pairs found in it.
use crate::cursor::{nth_back_item, nth_back_rest, nth_item, nth_rest, RowCursor};
use crate::future::FdbKeyValue;
use crate::handle::share_arc;
use crate::keyselector::KeySelector;
use crate::mem::read_unaligned_slice;
use std::ops::Deref;
use std::sync::Arc;
use vstd::prelude::*;
use vstd::std_specs::cmp::PartialEqSpecImpl;

verus! {

/// What a mapped key-value holds, as plain sequences.
pub ghost struct MappedKeyValueView {
    pub parent_key: Seq<u8>,
    pub parent_value: Seq<u8>,
    pub begin_range: Seq<u8>,
    pub end_range: Seq<u8>,
    pub key_values: Seq<(Seq<u8>, Seq<u8>)>,
}

/// A key-value produced by a mapped operation, owned by a future.
pub struct FdbMappedKeyValue {
    key: Vec<u8>,
    value: Vec<u8>,
    begin: Vec<u8>,
    end: Vec<u8>,
    data: Vec<FdbKeyValue>,
    m_size: i32,
}

impl View for FdbMappedKeyValue {
    type V = MappedKeyValueView;

    closed spec fn view(&self) -> MappedKeyValueView {
        MappedKeyValueView {
            parent_key: self.key@,
            parent_value: self.value@,
            begin_range: self.begin@,
            end_range: self.end@,
            key_values: Seq::new(self.m_size as nat, |i: int| self.data@[i]@),
        }
    }
}

impl FdbMappedKeyValue {
    #[verifier::type_invariant]
    spec fn inv(self) -> bool {
        0 <= self.m_size <= self.data@.len()
    }

    /// A mapped key-value of the parent pair `key` and `value`, the range
    /// from `begin` to `end`, and the first `m_size` pairs of `data` as
    /// what the range held.
    pub fn new(
        key: Vec<u8>,
        value: Vec<u8>,
        begin: Vec<u8>,
        end: Vec<u8>,
        data: Vec<FdbKeyValue>,
        m_size: i32,
    ) -> (r: Self)
        requires
            0 <= m_size <= data@.len(),
        ensures
            r@.parent_key == key@,
            r@.parent_value == value@,
            r@.begin_range == begin@,
            r@.end_range == end@,
            r@.key_values.len() == m_size,
            forall|i: int| 0 <= i < m_size ==> #[trigger] r@.key_values[i] == data@[i]@,
    {
        FdbMappedKeyValue { key, value, begin, end, data, m_size }
    }

    /// Retrieves the "parent" key that generated the secondary scan.
    pub fn parent_key(&self) -> (r: &[u8])
        ensures
            r@ == self@.parent_key,
    {
        self.key.as_slice()
    }

    /// Retrieves the "parent" value that generated the secondary scan.
    pub fn parent_value(&self) -> (r: &[u8])
        ensures
            r@ == self@.parent_value,
    {
        self.value.as_slice()
    }

    /// Retrieves the beginning of the range.
    pub fn begin_range(&self) -> (r: &[u8])
        ensures
            r@ == self@.begin_range,
    {
        self.begin.as_slice()
    }

    /// Retrieves the end of the range.
    pub fn end_range(&self) -> (r: &[u8])
        ensures
            r@ == self@.end_range,
    {
        self.end.as_slice()
    }

    /// Retrieves the beginning of the range as a [`KeySelector`]: the exact
    /// key, not counting an equal one, with no offset.
    pub fn begin_selector(&self) -> (s: KeySelector<'_>)
        ensures
            s.spec_key() == self@.begin_range,
            !s.spec_or_equal(),
            s.spec_offset() == 0,
    {
        KeySelector::new(self.begin_range(), false, 0)
    }

    /// Retrieves the end of the range as a [`KeySelector`]: the exact key,
    /// not counting an equal one, with no offset.
    pub fn end_selector(&self) -> (s: KeySelector<'_>)
        ensures
            s.spec_key() == self@.end_range,
            !s.spec_or_equal(),
            s.spec_offset() == 0,
    {
        KeySelector::new(self.end_range(), false, 0)
    }

    /// Retrieves the key-value pairs that the range held, copied afresh on
    /// each call.
    pub fn key_values(&self) -> (r: Vec<FdbKeyValue>)
        ensures
            r@.len() == self@.key_values.len(),
            forall|i: int| 0 <= i < r@.len() ==> (#[trigger] r@[i])@ == self@.key_values[i],
    {
        proof {
            use_type_invariant(self);
        }
        read_unaligned_slice(self.data.as_slice(), self.m_size)
    }
}

impl Clone for FdbMappedKeyValue {
    fn clone(&self) -> (r: Self)
        ensures
            r@ == self@,
    {
        proof {
            use_type_invariant(self);
        }
        let r = FdbMappedKeyValue {
            key: self.key.clone(),
            value: self.value.clone(),
            begin: self.begin.clone(),
            end: self.end.clone(),
            data: self.data.clone(),
            m_size: self.m_size,
        };
        assert(r@.key_values =~= self@.key_values);
        r
    }
}

impl PartialEq for FdbMappedKeyValue {
    /// Two mapped key-values are equal where their parent keys and their
    /// parent values are.
    fn eq(&self, other: &Self) -> (r: bool) {
        let r = self.key == other.key && self.value == other.value;
        proof {
            assert(r == (self.key@ =~= other.key@ && self.value@ =~= other.value@));
        }
        r
    }
}

impl PartialEqSpecImpl for FdbMappedKeyValue {
    open spec fn obeys_eq_spec() -> bool {
        true
    }

    open spec fn eq_spec(&self, other: &Self) -> bool {
        self@.parent_key == other@.parent_key && self@.parent_value == other@.parent_value
    }
}

impl Eq for FdbMappedKeyValue {

}

/// A slice of mapped key-values owned by a future: the copied records
/// together with the handle that keeps the future's memory alive.
pub struct MappedKeyValues<H> {
    _f: H,
    mapped_keyvalues: Vec<FdbMappedKeyValue>,
    more: bool,
}

impl<H> View for MappedKeyValues<H> {
    type V = Seq<FdbMappedKeyValue>;

    /// The mapped key-values, in the order in which the future gave them.
    closed spec fn view(&self) -> Seq<FdbMappedKeyValue> {
        self.mapped_keyvalues@
    }
}

impl<H> MappedKeyValues<H> {
    /// The handle that the array keeps alive.
    pub closed spec fn handle(&self) -> H {
        self._f
    }

    /// Whether the future said that more results follow this batch.
    pub closed spec fn has_more(&self) -> bool {
        self.more
    }

    /// Couples the handle `f` of a resolved future with a copy of the first
    /// `len` mapped key-values of its result `keyvalues`. The future's flag
    /// `more` is set where it is not zero.
    pub fn new(f: H, keyvalues: &[FdbMappedKeyValue], len: i32, more: i32) -> (r: Self)
        requires
            0 <= len <= keyvalues@.len(),
        ensures
            r.handle() == f,
            r.has_more() == (more != 0),
            r@.len() == len,
            forall|i: int| 0 <= i < len ==> (#[trigger] r@[i])@ == keyvalues@[i]@,
    {
        MappedKeyValues {
            _f: f,
            mapped_keyvalues: read_unaligned_slice(keyvalues, len),
            more: more != 0,
        }
    }

    /// `true` if there is another range after this one.
    pub fn more(&self) -> (b: bool)
        ensures
            b == self.has_more(),
    {
        self.more
    }

    /// The number of mapped key-values.
    pub fn len(&self) -> (n: usize)
        ensures
            n == self@.len(),
    {
        self.mapped_keyvalues.len()
    }

    /// Whether the array holds no mapped key-value.
    pub fn is_empty(&self) -> (b: bool)
        ensures
            b == (self@.len() == 0),
    {
        self.mapped_keyvalues.len() == 0
    }

    /// Iterates over the mapped key-values by reference, front to back, for
    /// as long as the array is borrowed.
    pub fn iter(&self) -> (it: std::slice::Iter<'_, FdbMappedKeyValue>)
        ensures
            vstd::std_specs::slice::into_iter_elts(it) == self@,
    {
        let keyvalues: &[FdbMappedKeyValue] = self.mapped_keyvalues.as_slice();
        let it = keyvalues.iter();
        proof {
            vstd::std_specs::slice::axiom_spec_slice_iter(keyvalues);
            assert(vstd::std_specs::slice::into_iter_elts(it) =~= self@);
        }
        it
    }

    /// Turns the array into an iterator that hands the mapped key-values out
    /// one by one, each with a share of the handle.
    pub fn into_iter(self) -> (it: FdbMappedValuesIter<H>)
        ensures
            it@ == self@,
            it.handle() == self.handle(),
            it.front() == 0,
            it.back() == self@.len(),
            it.total() == self@.len(),
    {
        FdbMappedValuesIter {
            f: Arc::new(self._f),
            rows: RowCursor::new(self.mapped_keyvalues),
        }
    }
}

impl<H> Deref for MappedKeyValues<H> {
    type Target = [FdbMappedKeyValue];

    /// The mapped key-values as a slice, for indexing and for iterating by
    /// reference.
    fn deref(&self) -> (r: &[FdbMappedKeyValue])
        ensures
            r@ == self@,
    {
        self.mapped_keyvalues.as_slice()
    }
}

impl<H> AsRef<[FdbMappedKeyValue]> for MappedKeyValues<H> {
    /// The mapped key-values as a slice.
    fn as_ref(&self) -> (r: &[FdbMappedKeyValue])
        ensures
            r@ == self@,
    {
        self.deref()
    }
}

impl<'a, H> IntoIterator for &'a MappedKeyValues<H> {
    type Item = &'a FdbMappedKeyValue;

    type IntoIter = std::slice::Iter<'a, FdbMappedKeyValue>;

    /// Iterates over the mapped key-values by reference, front to back.
    fn into_iter(self) -> (it: std::slice::Iter<'a, FdbMappedKeyValue>)
        ensures
            vstd::std_specs::slice::into_iter_elts(it) == self@,
    {
        self.iter()
    }
}

/// An `FdbMappedValue` that you can own.
pub struct FdbMappedValue<H> {
    _f: Arc<H>,
    mapped_keyvalue: FdbMappedKeyValue,
}

impl<H> FdbMappedValue<H> {
    /// The handle that the row keeps alive.
    pub closed spec fn handle(&self) -> H {
        *self._f
    }

    /// The mapped key-value that the row holds.
    pub closed spec fn row(&self) -> FdbMappedKeyValue {
        self.mapped_keyvalue
    }

}

impl<H> Deref for FdbMappedValue<H> {
    type Target = FdbMappedKeyValue;

    /// The mapped key-value that the row holds.
    fn deref(&self) -> (r: &FdbMappedKeyValue)
        ensures
            *r == self.row(),
    {
        &self.mapped_keyvalue
    }
}

impl<H> AsRef<FdbMappedKeyValue> for FdbMappedValue<H> {
    /// The mapped key-value that the row holds.
    fn as_ref(&self) -> (r: &FdbMappedKeyValue)
        ensures
            *r == self.row(),
    {
        self.deref()
    }
}

impl<H> PartialEq for FdbMappedValue<H> {
    /// Two rows are equal where their mapped key-values are, whatever their
    /// handles.
    fn eq(&self, other: &Self) -> (r: bool) {
        self.mapped_keyvalue == other.mapped_keyvalue
    }
}

impl<H> PartialEqSpecImpl for FdbMappedValue<H> {
    open spec fn obeys_eq_spec() -> bool {
        true
    }

    open spec fn eq_spec(&self, other: &Self) -> bool {
        self.row()@.parent_key == other.row()@.parent_key && self.row()@.parent_value
            == other.row()@.parent_value
    }
}

impl<H> Eq for FdbMappedValue<H> {

}

/// An iterator of mapped key-values owned by a future. It yields from both
/// ends.
pub struct FdbMappedValuesIter<H> {
    f: Arc<H>,
    rows: RowCursor<FdbMappedKeyValue>,
}

impl<H> View for FdbMappedValuesIter<H> {
    type V = Seq<FdbMappedKeyValue>;

    /// The mapped key-values that were not yielded or skipped yet, front to
    /// back.
    closed spec fn view(&self) -> Seq<FdbMappedKeyValue> {
        self.rows.items()
    }
}

impl<H> FdbMappedValuesIter<H> {
    /// The handle that the iterator shares with the rows it yielded.
    pub closed spec fn handle(&self) -> H {
        *self.f
    }

    /// The index of the first unread mapped key-value.
    pub closed spec fn front(&self) -> nat {
        self.rows.front()
    }

    /// The index just behind the last unread mapped key-value.
    pub closed spec fn back(&self) -> nat {
        self.rows.back()
    }

    /// The number of mapped key-values that the array held.
    pub closed spec fn total(&self) -> nat {
        self.rows.total()
    }

    /// Whether `r` is what a step hands out that moved `row` out of the
    /// buffer of an iterator with the handle `handle`.
    pub open spec fn yields(
        r: Option<FdbMappedValue<H>>,
        row: Option<FdbMappedKeyValue>,
        handle: H,
    ) -> bool {
        match r {
            Some(v) => row == Some(v.row()) && v.handle() == handle,
            None => row is None,
        }
    }

    /// Yields the first unread mapped key-value.
    pub fn next(&mut self) -> (r: Option<FdbMappedValue<H>>)
        ensures
            Self::yields(r, nth_item(old(self)@, 0), old(self).handle()),
            final(self)@ == nth_rest(old(self)@, 0),
            final(self).handle() == old(self).handle(),
            final(self).total() == old(self).total(),
            final(self).back() == old(self).back(),
            final(self).front() == if old(self)@.len() > 0 {
                old(self).front() + 1
            } else {
                old(self).back()
            },
    {
        self.nth(0)
    }

    /// Skips `n` mapped key-values from the front and yields the next one.
    ///
    /// Where fewer than `n + 1` are unread, nothing is yielded and the
    /// iterator is exhausted.
    pub fn nth(&mut self, n: usize) -> (r: Option<FdbMappedValue<H>>)
        ensures
            Self::yields(r, nth_item(old(self)@, n as nat), old(self).handle()),
            final(self)@ == nth_rest(old(self)@, n as nat),
            final(self).handle() == old(self).handle(),
            final(self).total() == old(self).total(),
            final(self).back() == old(self).back(),
            final(self).front() == if n < old(self)@.len() {
                old(self).front() + n + 1
            } else {
                old(self).back() as int
            },
    {
        match self.rows.nth(n) {
            Some(mapped_keyvalue) => Some(
                FdbMappedValue { _f: share_arc(&self.f), mapped_keyvalue },
            ),
            None => None,
        }
    }

    /// The number of unread mapped key-values, as a lower and an upper bound
    /// that agree.
    pub fn size_hint(&self) -> (r: (usize, Option<usize>))
        ensures
            r.0 == self@.len(),
            r.1 == Some(r.0),
    {
        let rem: usize = self.rows.remaining();
        (rem, Some(rem))
    }

    /// The exact number of unread mapped key-values.
    pub fn len(&self) -> (n: usize)
        ensures
            n == self@.len(),
            n == self.back() - self.front(),
            self.front() <= self.back() <= self.total(),
    {
        self.rows.remaining()
    }

    /// Yields the last unread mapped key-value.
    pub fn next_back(&mut self) -> (r: Option<FdbMappedValue<H>>)
        ensures
            Self::yields(r, nth_back_item(old(self)@, 0), old(self).handle()),
            final(self)@ == nth_back_rest(old(self)@, 0),
            final(self).handle() == old(self).handle(),
            final(self).total() == old(self).total(),
            final(self).back() == if old(self)@.len() > 0 {
                old(self).back() - 1
            } else {
                old(self).back() as int
            },
            final(self).front() == if old(self)@.len() > 0 {
                old(self).front()
            } else {
                old(self).back()
            },
    {
        self.nth_back(0)
    }

    /// Skips `n` mapped key-values from the back and yields the one before
    /// them.
    ///
    /// Where fewer than `n + 1` are unread, nothing is yielded and the
    /// iterator is exhausted.
    pub fn nth_back(&mut self, n: usize) -> (r: Option<FdbMappedValue<H>>)
        ensures
            Self::yields(r, nth_back_item(old(self)@, n as nat), old(self).handle()),
            final(self)@ == nth_back_rest(old(self)@, n as nat),
            final(self).handle() == old(self).handle(),
            final(self).total() == old(self).total(),
            final(self).back() == if n < old(self)@.len() {
                old(self).back() - n - 1
            } else {
                old(self).back() as int
            },
            final(self).front() == if n < old(self)@.len() {
                old(self).front()
            } else {
                old(self).back()
            },
    {
        match self.rows.nth_back(n) {
            Some(mapped_keyvalue) => Some(
                FdbMappedValue { _f: share_arc(&self.f), mapped_keyvalue },
            ),
            None => None,
        }
    }
}

} // verus!
