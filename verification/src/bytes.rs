//! Small verified helpers on byte vectors.

use vstd::prelude::*;

verus! {

/// The deep view of a byte vector is its ordinary view.
pub broadcast proof fn lemma_bytes_deep_view(bytes: Vec<u8>)
    ensures
        #[trigger] bytes.deep_view() == bytes@,
{
    assert(bytes.deep_view() =~= bytes@);
}

/// Byte-for-byte equality of two byte vectors.
pub fn bytes_equal(left: &Vec<u8>, right: &Vec<u8>) -> (equal: bool)
    ensures
        equal == (left@ == right@),
{
    if left.len() != right.len() {
        assert(left@ != right@);
        return false;
    }
    let mut index: usize = 0;
    while index < left.len()
        invariant
            index <= left.len(),
            left@.len() == right@.len(),
            forall|k: int| 0 <= k < index ==> left@[k] == right@[k],
        decreases left.len() - index,
    {
        if left[index] != right[index] {
            return false;
        }
        index = index + 1;
    }
    assert(left@ =~= right@);
    true
}

/// A fresh copy of a byte vector.
pub fn clone_bytes(source: &Vec<u8>) -> (copy: Vec<u8>)
    ensures
        copy@ == source@,
{
    let mut copy: Vec<u8> = Vec::new();
    let mut index: usize = 0;
    while index < source.len()
        invariant
            index <= source.len(),
            copy@ == source@.take(index as int),
        decreases source.len() - index,
    {
        copy.push(source[index]);
        assert(source@.take(index as int + 1) =~= source@.take(index as int).push(
            source@[index as int],
        ));
        index = index + 1;
    }
    assert(source@.take(source@.len() as int) =~= source@);
    copy
}

/// The bytes of `source` from `start` (inclusive) to `end` (exclusive).
pub fn copy_byte_range(source: &Vec<u8>, start: usize, end: usize) -> (copy: Vec<u8>)
    requires
        start <= end <= source@.len(),
    ensures
        copy@ == source@.subrange(start as int, end as int),
{
    let mut copy: Vec<u8> = Vec::new();
    let mut index: usize = start;
    while index < end
        invariant
            start <= index <= end <= source@.len(),
            copy@ == source@.subrange(start as int, index as int),
        decreases end - index,
    {
        copy.push(source[index]);
        assert(source@.subrange(start as int, index as int + 1) =~= source@.subrange(
            start as int,
            index as int,
        ).push(source@[index as int]));
        index = index + 1;
    }
    copy
}

} // verus!
