//! Account addresses and fixed-size identifiers, compared byte by byte.

use vstd::prelude::*;

verus! {

/// A 32-byte account address.
pub type Key = [u8; 32];

/// Two byte strings of one size with the same contents are the same value.
pub proof fn lemma_equal_contents<const N: usize>(a: [u8; N], b: [u8; N])
    requires
        a@ == b@,
    ensures
        a == b,
{
    assert forall|i: int| 0 <= i < N implies a[i] == b[i] by {
        assert(a@[i] == b@[i]);
    }
    assert(a =~= b);
}

/// Compares two byte strings of one size.
pub fn bytes_equal<const N: usize>(a: &[u8; N], b: &[u8; N]) -> (same: bool)
    ensures
        same == (*a == *b),
{
    let mut i: usize = 0;
    while i < N
        invariant
            i <= N,
            forall|j: int| 0 <= j < i ==> a[j] == b[j],
        decreases N - i,
    {
        if a[i] != b[i] {
            return false;
        }
        i += 1;
    }
    assert(*a =~= *b);
    true
}

/// Whether `key` occurs in `list`.
pub fn list_contains(list: &[Key], key: &Key) -> (found: bool)
    ensures
        found == list@.contains(*key),
{
    let mut i: usize = 0;
    while i < list.len()
        invariant
            i <= list.len(),
            forall|j: int| 0 <= j < i ==> list@[j] != *key,
        decreases list.len() - i,
    {
        if bytes_equal(&list[i], key) {
            return true;
        }
        i += 1;
    }
    false
}

/// The first place at which `key` occurs in `list`.
pub fn position_of(list: &[Key], key: &Key) -> (place: Option<usize>)
    ensures
        match place {
            Some(i) => i < list@.len() && list@[i as int] == *key && forall|j: int|
                0 <= j < i ==> list@[j] != *key,
            None => !list@.contains(*key),
        },
{
    let mut i: usize = 0;
    while i < list.len()
        invariant
            i <= list.len(),
            forall|j: int| 0 <= j < i ==> list@[j] != *key,
        decreases list.len() - i,
    {
        if bytes_equal(&list[i], key) {
            return Some(i);
        }
        i += 1;
    }
    None
}

/// The contents of a fixed-size byte string, as a vector.
pub fn copy_bytes<const N: usize>(bytes: &[u8; N]) -> (copy: Vec<u8>)
    ensures
        copy@ == bytes@,
{
    let mut copy: Vec<u8> = Vec::new();
    let mut i: usize = 0;
    while i < N
        invariant
            i <= N,
            copy@ == bytes@.take(i as int),
        decreases N - i,
    {
        copy.push(bytes[i]);
        i += 1;
    }
    copy
}

} // verus!
