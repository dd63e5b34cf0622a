//! Per-market flags of a user, kept as bits of a 128-bit bitmap indexed by market index.
use vstd::prelude::*;

verus! {

/// The bitmap helpers refuse indices outside `0..128`.
#[derive(Clone, Copy, Debug, PartialEq, Eq, Structural)]
pub enum BitError {
    IndexOutOfRange,
}

/// Whether bit `index` of `bitmap` is set.
pub open spec fn bit_is_set(bitmap: u128, index: u32) -> bool
    recommends
        index < 128,
{
    (bitmap >> index) & 1u128 == 1u128
}

/// Gets bit: true: 1, false: 0.
pub fn get_bit(bitmap: u128, index: u32) -> (r: Result<bool, BitError>)
    ensures
        r is Ok <==> index < 128,
        r matches Ok(b) ==> b == bit_is_set(bitmap, index),
        r matches Err(e) ==> e == BitError::IndexOutOfRange,
{
    if index >= 128 {
        return Err(BitError::IndexOutOfRange);
    }
    Ok(((bitmap >> index) & 1) == 1)
}

/// Sets bit `index` to 1.
pub fn set_bit(bitmap: &mut u128, index: u32) -> (r: Result<(), BitError>)
    ensures
        r is Ok <==> index < 128,
        r is Ok ==> *final(bitmap) == *old(bitmap) | (1u128 << index),
        !(r is Ok) ==> *final(bitmap) == *old(bitmap),
        r matches Err(e) ==> e == BitError::IndexOutOfRange,
{
    if index >= 128 {
        return Err(BitError::IndexOutOfRange);
    }
    *bitmap = *bitmap | (1u128 << index);
    Ok(())
}

/// Sets bit `index` to 0.
pub fn unset_bit(bitmap: &mut u128, index: u32) -> (r: Result<(), BitError>)
    ensures
        r is Ok <==> index < 128,
        r is Ok ==> *final(bitmap) == *old(bitmap) & !(1u128 << index),
        !(r is Ok) ==> *final(bitmap) == *old(bitmap),
        r matches Err(e) ==> e == BitError::IndexOutOfRange,
{
    if index >= 128 {
        return Err(BitError::IndexOutOfRange);
    }
    *bitmap = *bitmap & !(1u128 << index);
    Ok(())
}

/// Setting a bit makes it read as set and leaves every other bit as it was.
pub proof fn lemma_set_bit(bitmap: u128, index: u32, other: u32)
    requires
        index < 128,
        other < 128,
    ensures
        bit_is_set(bitmap | (1u128 << index), index),
        other != index ==> bit_is_set(bitmap | (1u128 << index), other) == bit_is_set(bitmap, other),
{
    assert(((bitmap | (1u128 << index)) >> index) & 1u128 == 1u128) by (bit_vector)
        requires
            index < 128,
    ;
    assert(other != index ==> (((bitmap | (1u128 << index)) >> other) & 1u128 == 1u128) == (((
    bitmap >> other) & 1u128) == 1u128)) by (bit_vector)
        requires
            index < 128,
            other < 128,
    ;
}

/// Clearing a bit makes it read as unset and leaves every other bit as it was.
pub proof fn lemma_unset_bit(bitmap: u128, index: u32, other: u32)
    requires
        index < 128,
        other < 128,
    ensures
        !bit_is_set(bitmap & !(1u128 << index), index),
        other != index ==> bit_is_set(bitmap & !(1u128 << index), other) == bit_is_set(bitmap, other),
{
    assert(((bitmap & !(1u128 << index)) >> index) & 1u128 == 0u128) by (bit_vector)
        requires
            index < 128,
    ;
    assert(other != index ==> (((bitmap & !(1u128 << index)) >> other) & 1u128 == 1u128) == (((
    bitmap >> other) & 1u128) == 1u128)) by (bit_vector)
        requires
            index < 128,
            other < 128,
    ;
}

} // verus!
