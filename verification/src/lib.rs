//! Safe consumption of result arrays that a FoundationDB future hands back.
//!
//! A resolved future owns the memory behind its results. This crate copies
//! the records of such a result into an owned array, couples the array with
//! the future's handle, and lets a caller either borrow the records or
//! consume them one by one from both ends, each consumed row keeping the
//! handle alive through a shared reference.
pub mod cursor;
pub mod fdb_keys;
pub mod future;
pub mod handle;
pub mod keyselector;
pub mod mapped_key_values;
pub mod mem;
