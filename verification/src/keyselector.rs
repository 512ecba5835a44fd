//! The boundary of a range scan.
use vstd::prelude::*;

verus! {

/// A key together with the direction in which to resolve it: whether a key
/// equal to it counts, and how many keys to step from there.
pub struct KeySelector<'a> {
    key: &'a [u8],
    or_equal: bool,
    offset: i32,
}

impl<'a> KeySelector<'a> {
    /// The selector's key.
    pub closed spec fn spec_key(&self) -> Seq<u8> {
        self.key@
    }

    /// Whether a key equal to the selector's counts.
    pub closed spec fn spec_or_equal(&self) -> bool {
        self.or_equal
    }

    /// The number of keys to step from the resolved one.
    pub closed spec fn spec_offset(&self) -> int {
        self.offset as int
    }

    /// A selector of `key` with the given flag and offset.
    pub fn new(key: &'a [u8], or_equal: bool, offset: i32) -> (s: Self)
        ensures
            s.spec_key() == key@,
            s.spec_or_equal() == or_equal,
            s.spec_offset() == offset,
    {
        KeySelector { key, or_equal, offset }
    }

    /// The selector's key.
    pub fn key(&self) -> (r: &'a [u8])
        ensures
            r@ == self.spec_key(),
    {
        self.key
    }

    /// Whether a key equal to the selector's counts.
    pub fn or_equal(&self) -> (b: bool)
        ensures
            b == self.spec_or_equal(),
    {
        self.or_equal
    }

    /// The number of keys to step from the resolved one.
    pub fn offset(&self) -> (n: i32)
        ensures
            n == self.spec_offset(),
    {
        self.offset
    }
}

} // verus!
