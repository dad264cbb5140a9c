use vstd::prelude::*;
use crate::format::ByteOrder;

verus! {

/// The four bytes at `at`, least significant first, as a number.
pub open spec fn le_u32(bytes: Seq<u8>, at: int) -> u32
    recommends
        0 <= at,
        at + 4 <= bytes.len(),
{
    (bytes[at] + 0x100 * bytes[at + 1] + 0x1_0000 * bytes[at + 2] + 0x100_0000 * bytes[at + 3]) as u32
}

/// The four bytes at `at`, most significant first, as a number.
pub open spec fn be_u32(bytes: Seq<u8>, at: int) -> u32
    recommends
        0 <= at,
        at + 4 <= bytes.len(),
{
    (0x100_0000 * bytes[at] + 0x1_0000 * bytes[at + 1] + 0x100 * bytes[at + 2] + bytes[at + 3]) as u32
}

/// The 32-bit field at `at` of a file stored in `order`.
pub open spec fn field_u32(bytes: Seq<u8>, at: int, order: ByteOrder) -> u32
    recommends
        0 <= at,
        at + 4 <= bytes.len(),
{
    match order {
        ByteOrder::Native => le_u32(bytes, at),
        ByteOrder::Swapped => be_u32(bytes, at),
    }
}

/// The 64-bit field at `at` of a file stored in `order`: two 32-bit halves,
/// the low half first in a native file, the high half first in a swapped one.
pub open spec fn field_u64(bytes: Seq<u8>, at: int, order: ByteOrder) -> u64
    recommends
        0 <= at,
        at + 8 <= bytes.len(),
{
    match order {
        ByteOrder::Native => (le_u32(bytes, at) + 0x1_0000_0000 * le_u32(bytes, at + 4)) as u64,
        ByteOrder::Swapped => (0x1_0000_0000 * be_u32(bytes, at) + be_u32(bytes, at + 4)) as u64,
    }
}

/// The 32-bit field at `at`, which lies within the input.
pub(crate) fn u32_at(input: &[u8], at: usize, order: ByteOrder) -> (value: u32)
    requires
        at + 4 <= input@.len(),
    ensures
        value == field_u32(input@, at as int, order),
{
    let b0: u32 = input[at] as u32;
    let b1: u32 = input[at + 1] as u32;
    let b2: u32 = input[at + 2] as u32;
    let b3: u32 = input[at + 3] as u32;
    match order {
        ByteOrder::Native => b0 + 0x100 * b1 + 0x1_0000 * b2 + 0x100_0000 * b3,
        ByteOrder::Swapped => 0x100_0000 * b0 + 0x1_0000 * b1 + 0x100 * b2 + b3,
    }
}

/// The 64-bit field at `at`, which lies within the input.
pub(crate) fn u64_at(input: &[u8], at: usize, order: ByteOrder) -> (value: u64)
    requires
        at + 8 <= input@.len(),
    ensures
        value == field_u64(input@, at as int, order),
{
    assert(input@.len() == input.len());
    let first: u64 = u32_at(input, at, order) as u64;
    let second: u64 = u32_at(input, at + 4, order) as u64;
    match order {
        ByteOrder::Native => first + 0x1_0000_0000 * second,
        ByteOrder::Swapped => 0x1_0000_0000 * first + second,
    }
}

/// Reads the 32-bit field at `at`, or nothing where fewer than four bytes
/// follow `at`.
pub fn read_u32(input: &[u8], at: usize, order: ByteOrder) -> (value: Option<u32>)
    ensures
        value == (if at + 4 <= input@.len() {
            Some(field_u32(input@, at as int, order))
        } else {
            None
        }),
{
    if input.len() < 4 || at > input.len() - 4 {
        None
    } else {
        Some(u32_at(input, at, order))
    }
}

/// Reads the 64-bit field at `at`, or nothing where fewer than eight bytes
/// follow `at`.
pub fn read_u64(input: &[u8], at: usize, order: ByteOrder) -> (value: Option<u64>)
    ensures
        value == (if at + 8 <= input@.len() {
            Some(field_u64(input@, at as int, order))
        } else {
            None
        }),
{
    if input.len() < 8 || at > input.len() - 8 {
        None
    } else {
        Some(u64_at(input, at, order))
    }
}

} // verus!
