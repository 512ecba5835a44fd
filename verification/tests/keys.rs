use fdb_rows::fdb_keys::{FdbKey, FdbKeys, FdbKeysIter, FdbRowKey};
use fdb_rows::mem::{read_unaligned_slice, read_unaligned_struct};
use std::cell::Cell;
use std::ops::Deref;
use std::rc::Rc;

/// A handle that counts how often it was released.
struct Handle {
    released: Rc<Cell<u32>>,
}

impl Drop for Handle {
    fn drop(&mut self) {
        self.released.set(self.released.get() + 1);
    }
}

fn handle() -> (Handle, Rc<Cell<u32>>) {
    let released = Rc::new(Cell::new(0));
    (Handle { released: released.clone() }, released)
}

fn keys_of(names: &[&[u8]]) -> Vec<FdbKey> {
    names.iter().map(|n| FdbKey::new(n.to_vec())).collect()
}

fn array_of(names: &[&[u8]]) -> (FdbKeys<Handle>, Rc<Cell<u32>>) {
    let (h, released) = handle();
    let src = keys_of(names);
    (FdbKeys::new(h, &src, src.len() as i32), released)
}

fn key_of(row: &Option<FdbRowKey<Handle>>) -> Option<Vec<u8>> {
    row.as_ref().map(|r| r.deref().key().to_vec())
}

fn rest_of(mut it: FdbKeysIter<Handle>) -> Vec<Vec<u8>> {
    let mut out = Vec::new();
    while let Some(row) = it.next() {
        out.push(row.key_bytes());
    }
    out
}

trait KeyBytes {
    fn key_bytes(&self) -> Vec<u8>;
}

impl KeyBytes for FdbRowKey<Handle> {
    fn key_bytes(&self) -> Vec<u8> {
        self.deref().key().to_vec()
    }
}

#[test]
fn three_keys_come_out_in_order() {
    let (keys, _) = array_of(&[b"a", b"bb", b"ccc"]);
    assert_eq!(keys.len(), 3);
    assert!(!keys.is_empty());
    let slice = keys.deref();
    assert_eq!(slice[0].key(), b"a");
    assert_eq!(slice[1].key(), b"bb");
    assert_eq!(slice[2].key(), b"ccc");
    let seen: Vec<&[u8]> = keys.as_ref().iter().map(|k| k.key()).collect();
    assert_eq!(seen, vec![&b"a"[..], &b"bb"[..], &b"ccc"[..]]);
}

#[test]
fn copy_keeps_records_and_order() {
    let src: Vec<u32> = vec![7, 1, 9, 4, 4, 0];
    assert_eq!(read_unaligned_slice(&src, 6), vec![7, 1, 9, 4, 4, 0]);
    assert_eq!(read_unaligned_slice(&src, 4), vec![7, 1, 9, 4]);
    let keys = keys_of(&[b"x", b"", b"yz"]);
    let copy = read_unaligned_slice(&keys, 3);
    assert_eq!(copy.len(), 3);
    assert_eq!(copy[0].key(), b"x");
    assert_eq!(copy[1].key(), b"");
    assert_eq!(copy[2].key(), b"yz");
}

#[test]
fn copy_of_nothing_is_empty() {
    let src: Vec<u64> = Vec::new();
    let copy = read_unaligned_slice(&src, 0);
    assert!(copy.is_empty());
    let some: Vec<u64> = vec![1, 2];
    assert!(read_unaligned_slice(&some, 0).is_empty());
}

#[test]
fn copy_of_one_record() {
    let k = FdbKey::new(b"solo".to_vec());
    let c = read_unaligned_struct(&k);
    assert_eq!(c.key(), b"solo");
    assert_eq!(read_unaligned_struct(&41u16), 41);
}

#[test]
fn array_takes_only_the_counted_keys() {
    let (h, _) = handle();
    let src = keys_of(&[b"a", b"b", b"c"]);
    let keys = FdbKeys::new(h, &src, 2);
    assert_eq!(keys.len(), 2);
    assert_eq!(keys.deref()[1].key(), b"b");
}

#[test]
fn empty_array() {
    let (h, released) = handle();
    let keys = FdbKeys::new(h, &[], 0);
    assert_eq!(keys.len(), 0);
    assert!(keys.is_empty());
    assert!(keys.deref().is_empty());
    let mut it = keys.into_iter();
    assert_eq!(it.len(), 0);
    assert!(it.next().is_none());
    assert!(it.next_back().is_none());
    drop(it);
    assert_eq!(released.get(), 1);
}

#[test]
fn front_then_back_of_four() {
    let (keys, _) = array_of(&[b"k0", b"k1", b"k2", b"k3"]);
    let mut it = keys.into_iter();
    assert_eq!(key_of(&it.next()), Some(b"k0".to_vec()));
    assert_eq!(key_of(&it.next_back()), Some(b"k3".to_vec()));
    assert_eq!(it.len(), 2);
    assert_eq!(it.size_hint(), (2, Some(2)));
    assert_eq!(rest_of(it), vec![b"k1".to_vec(), b"k2".to_vec()]);
}

#[test]
fn front_alone_yields_the_sequence() {
    let (keys, _) = array_of(&[b"a", b"bb", b"ccc", b"dddd"]);
    assert_eq!(
        rest_of(keys.into_iter()),
        vec![b"a".to_vec(), b"bb".to_vec(), b"ccc".to_vec(), b"dddd".to_vec()]
    );
}

#[test]
fn back_alone_yields_the_reverse() {
    let (keys, _) = array_of(&[b"a", b"bb", b"ccc", b"dddd"]);
    let mut it = keys.into_iter();
    let mut out = Vec::new();
    while let Some(row) = it.next_back() {
        out.push(row.key_bytes());
    }
    assert_eq!(out, vec![b"dddd".to_vec(), b"ccc".to_vec(), b"bb".to_vec(), b"a".to_vec()]);
    assert!(it.next().is_none());
}

#[test]
fn any_mix_parts_the_sequence() {
    let names: [&[u8]; 5] = [b"0", b"1", b"2", b"3", b"4"];
    for mask in 0u32..32 {
        let (keys, _) = array_of(&names);
        let mut it = keys.into_iter();
        let mut front = Vec::new();
        let mut back = Vec::new();
        for step in 0..5 {
            assert_eq!(it.len(), 5 - step);
            if mask & (1 << step) != 0 {
                back.push(it.next_back().unwrap().key_bytes());
            } else {
                front.push(it.next().unwrap().key_bytes());
            }
        }
        assert_eq!(it.len(), 0);
        assert!(it.next().is_none());
        assert!(it.next_back().is_none());
        back.reverse();
        front.extend(back);
        let all: Vec<Vec<u8>> = names.iter().map(|n| n.to_vec()).collect();
        assert_eq!(front, all);
    }
}

#[test]
fn size_is_exact_at_every_step() {
    let (keys, _) = array_of(&[b"a", b"b", b"c", b"d", b"e", b"f"]);
    let mut it = keys.into_iter();
    assert_eq!(it.len(), 6);
    it.next();
    assert_eq!(it.len(), 5);
    it.nth(1);
    assert_eq!(it.len(), 3);
    it.nth_back(1);
    assert_eq!(it.len(), 1);
    assert_eq!(it.size_hint(), (1, Some(1)));
    assert_eq!(key_of(&it.next_back()), Some(b"d".to_vec()));
    assert_eq!(it.len(), 0);
    assert_eq!(it.size_hint(), (0, Some(0)));
}

#[test]
fn nth_skips_from_the_front() {
    let (keys, _) = array_of(&[b"k0", b"k1", b"k2", b"k3", b"k4"]);
    let mut it = keys.into_iter();
    assert_eq!(key_of(&it.nth(2)), Some(b"k2".to_vec()));
    assert_eq!(it.len(), 2);
    assert_eq!(key_of(&it.nth(1)), Some(b"k4".to_vec()));
    assert_eq!(it.len(), 0);
    assert!(it.nth(0).is_none());
}

#[test]
fn nth_back_skips_from_the_back() {
    let (keys, _) = array_of(&[b"k0", b"k1", b"k2", b"k3", b"k4"]);
    let mut it = keys.into_iter();
    assert_eq!(key_of(&it.nth_back(2)), Some(b"k2".to_vec()));
    assert_eq!(it.len(), 2);
    assert_eq!(key_of(&it.nth_back(1)), Some(b"k0".to_vec()));
    assert_eq!(it.len(), 0);
    assert!(it.nth_back(0).is_none());
}

#[test]
fn skipping_too_far_exhausts() {
    let (keys, _) = array_of(&[b"k0", b"k1", b"k2"]);
    let mut it = keys.into_iter();
    assert!(it.nth(3).is_none());
    assert_eq!(it.len(), 0);
    assert!(it.next().is_none());
    assert!(it.next_back().is_none());

    let (keys, _) = array_of(&[b"k0", b"k1", b"k2"]);
    let mut it = keys.into_iter();
    assert!(it.nth_back(3).is_none());
    assert_eq!(it.len(), 0);
    assert!(it.next().is_none());

    let (keys, _) = array_of(&[b"k0", b"k1", b"k2"]);
    let mut it = keys.into_iter();
    assert_eq!(key_of(&it.nth(2)), Some(b"k2".to_vec()));
    assert!(it.nth(usize::MAX).is_none());
    assert!(it.nth_back(usize::MAX).is_none());
}

#[test]
fn abandon_after_two_of_five() {
    let (keys, released) = array_of(&[b"r0", b"r1", b"r2", b"r3", b"r4"]);
    let mut it = keys.into_iter();
    let first = it.next().unwrap();
    let last = it.next_back().unwrap();
    assert_eq!(it.len(), 3);
    drop(it);
    assert_eq!(released.get(), 0);
    assert_eq!(first.deref().key(), b"r0");
    assert_eq!(last.as_ref().key(), b"r4");
    drop(first);
    assert_eq!(released.get(), 0);
    assert_eq!(last.deref().key(), b"r4");
    drop(last);
    assert_eq!(released.get(), 1);
}

#[test]
fn handle_outlives_every_row() {
    let (keys, released) = array_of(&[b"a", b"b", b"c"]);
    let mut it = keys.into_iter();
    let rows: Vec<FdbRowKey<Handle>> = vec![it.next().unwrap(), it.next().unwrap(), it.next().unwrap()];
    assert!(it.next().is_none());
    assert_eq!(released.get(), 0);
    let mut rows = rows;
    let middle = rows.remove(1);
    drop(rows);
    assert_eq!(released.get(), 0);
    drop(it);
    assert_eq!(released.get(), 0);
    assert_eq!(middle.deref().key(), b"b");
    drop(middle);
    assert_eq!(released.get(), 1);
}

#[test]
fn array_releases_its_handle_once() {
    let (keys, released) = array_of(&[b"a", b"b"]);
    assert_eq!(released.get(), 0);
    drop(keys);
    assert_eq!(released.get(), 1);
}

#[test]
fn keys_are_equal_by_their_bytes() {
    let a = FdbKey::new(b"same".to_vec());
    let b = FdbKey::new(b"same".to_vec());
    let c = FdbKey::new(b"other".to_vec());
    let d = FdbKey::new(b"sam".to_vec());
    assert!(a == b);
    assert!(a != c);
    assert!(a != d);
    assert!(FdbKey::new(Vec::new()) == FdbKey::new(Vec::new()));
}

#[test]
fn rows_are_equal_by_their_keys() {
    let (one, _) = array_of(&[b"x", b"y"]);
    let (two, _) = array_of(&[b"x", b"z"]);
    let mut a = one.into_iter();
    let mut b = two.into_iter();
    assert!(a.next().unwrap() == b.next().unwrap());
    assert!(a.next().unwrap() != b.next().unwrap());
}

#[test]
fn borrowing_iteration_leaves_the_array() {
    let (keys, released) = array_of(&[b"a", b"bb", b"ccc"]);
    let lens: Vec<usize> = keys.iter().map(|k| k.key().len()).collect();
    assert_eq!(lens, vec![1, 2, 3]);
    let again: Vec<&[u8]> = keys.iter().map(|k| k.key()).collect();
    assert_eq!(again, vec![&b"a"[..], &b"bb"[..], &b"ccc"[..]]);
    assert_eq!(keys.len(), 3);
    assert_eq!(released.get(), 0);
}

#[test]
fn skipping_is_repeated_stepping() {
    let names: [&[u8]; 6] = [b"0", b"1", b"2", b"3", b"4", b"5"];
    for n in 0..8 {
        let (keys, _) = array_of(&names);
        let mut skipped = keys.into_iter();
        let (keys, _) = array_of(&names);
        let mut stepped = keys.into_iter();
        for _ in 0..n {
            stepped.next();
        }
        assert_eq!(key_of(&skipped.nth(n)), key_of(&stepped.next()));
        assert_eq!(skipped.len(), stepped.len());
        assert_eq!(rest_of(skipped), rest_of(stepped));

        let (keys, _) = array_of(&names);
        let mut skipped = keys.into_iter();
        let (keys, _) = array_of(&names);
        let mut stepped = keys.into_iter();
        for _ in 0..n {
            stepped.next_back();
        }
        assert_eq!(key_of(&skipped.nth_back(n)), key_of(&stepped.next_back()));
        assert_eq!(rest_of(skipped), rest_of(stepped));
    }
}

#[test]
fn array_may_change_threads() {
    fn is_send_and_sync<T: Send + Sync>(_: &T) -> bool {
        true
    }
    let src = keys_of(&[b"a"]);
    let keys = FdbKeys::new(5u8, &src, 1);
    assert!(is_send_and_sync(&keys));
}

#[test]
fn array_reads_like_a_slice() {
    let (keys, _) = array_of(&[b"a", b"bb", b"ccc"]);
    assert_eq!(keys[1].key(), b"bb");
    assert_eq!(keys.first().unwrap().key(), b"a");
    assert_eq!(keys.last().unwrap().key(), b"ccc");
    let mut seen = Vec::new();
    for k in &keys {
        seen.push(k.key().to_vec());
    }
    assert_eq!(seen, vec![b"a".to_vec(), b"bb".to_vec(), b"ccc".to_vec()]);
    let row = keys.into_iter().nth(2).unwrap();
    assert_eq!(row.key(), b"ccc");
    let key: &FdbKey = &row;
    assert!(*key == FdbKey::new(b"ccc".to_vec()));
}
