//! The key-value pair, as a future produced it.
use vstd::prelude::*;

verus! {

/// A key-value pair owned by a future.
pub struct FdbKeyValue {
    key: Vec<u8>,
    value: Vec<u8>,
}

impl View for FdbKeyValue {
    type V = (Seq<u8>, Seq<u8>);

    /// The key's bytes, then the value's.
    closed spec fn view(&self) -> (Seq<u8>, Seq<u8>) {
        (self.key@, self.value@)
    }
}

impl FdbKeyValue {
    /// A pair of the key `key` and the value `value`.
    pub fn new(key: Vec<u8>, value: Vec<u8>) -> (kv: Self)
        ensures
            kv@ == (key@, value@),
    {
        FdbKeyValue { key, value }
    }

    /// The key.
    pub fn key(&self) -> (r: &[u8])
        ensures
            r@ == self@.0,
    {
        self.key.as_slice()
    }

    /// The value.
    pub fn value(&self) -> (r: &[u8])
        ensures
            r@ == self@.1,
    {
        self.value.as_slice()
    }
}

impl Clone for FdbKeyValue {
    fn clone(&self) -> (r: Self)
        ensures
            r@ == self@,
    {
        FdbKeyValue { key: self.key.clone(), value: self.value.clone() }
    }
}

} // verus!
