//! Fixed-width little-endian integers, as every record of an object file
//! holds them.
//!
//! The integers are decoded by `bincode`, configured for fixed-width
//! encoding. Its default byte order is little-endian, and it refuses a slice
//! that is longer than the value it is asked for, so each call is handed
//! exactly the bytes of one field.

use crate::error::ElfError;
use bincode::Options;
use vstd::prelude::*;
use vstd::slice::slice_subrange;

verus! {

/// The error of `bincode`. It is passed on and never looked into.
#[verifier::external_type_specification]
#[verifier::external_body]
pub struct ExErrorKind(bincode::ErrorKind);

/// The number that two bytes stand for, least significant byte first.
pub open spec fn le_u16(b: Seq<u8>) -> int {
    b[0] + 0x100 * b[1]
}

/// The number that four bytes stand for, least significant byte first.
pub open spec fn le_u32(b: Seq<u8>) -> int {
    b[0] + 0x100 * b[1] + 0x1_0000 * b[2] + 0x100_0000 * b[3]
}

/// The number that eight bytes stand for, least significant byte first.
pub open spec fn le_u64(b: Seq<u8>) -> int {
    le_u32(b.subrange(0, 4)) + 0x1_0000_0000 * le_u32(b.subrange(4, 8))
}

/// The 16-bit field of `b` that starts at `at`.
pub open spec fn u16_at(b: Seq<u8>, at: int) -> u16 {
    le_u16(b.subrange(at, at + 2)) as u16
}

/// The 32-bit field of `b` that starts at `at`.
pub open spec fn u32_at(b: Seq<u8>, at: int) -> u32 {
    le_u32(b.subrange(at, at + 4)) as u32
}

/// The 64-bit field of `b` that starts at `at`.
pub open spec fn u64_at(b: Seq<u8>, at: int) -> u64 {
    le_u64(b.subrange(at, at + 8)) as u64
}

/// `bincode::Options::deserialize` at `u16`, on
/// `bincode::options().with_fixint_encoding()`.
///
/// Trusted: on exactly two bytes the call succeeds with their little-endian
/// value; on any other number of bytes it fails, for want of input or for
/// bytes left over.
#[verifier::external_body]
fn fixint_u16(bytes: &[u8]) -> (r: Result<u16, bincode::Error>)
    ensures
        bytes@.len() == 2 ==> r is Ok && r->Ok_0 == le_u16(bytes@),
        bytes@.len() != 2 ==> r is Err,
{
    bincode::options().with_fixint_encoding().deserialize::<u16>(bytes)
}

/// `bincode::Options::deserialize` at `u32`, on
/// `bincode::options().with_fixint_encoding()`.
///
/// Trusted: on exactly four bytes the call succeeds with their little-endian
/// value; on any other number of bytes it fails.
#[verifier::external_body]
fn fixint_u32(bytes: &[u8]) -> (r: Result<u32, bincode::Error>)
    ensures
        bytes@.len() == 4 ==> r is Ok && r->Ok_0 == le_u32(bytes@),
        bytes@.len() != 4 ==> r is Err,
{
    bincode::options().with_fixint_encoding().deserialize::<u32>(bytes)
}

/// `bincode::Options::deserialize` at `u64`, on
/// `bincode::options().with_fixint_encoding()`.
///
/// Trusted: on exactly eight bytes the call succeeds with their little-endian
/// value; on any other number of bytes it fails.
#[verifier::external_body]
fn fixint_u64(bytes: &[u8]) -> (r: Result<u64, bincode::Error>)
    ensures
        bytes@.len() == 8 ==> r is Ok && r->Ok_0 == le_u64(bytes@),
        bytes@.len() != 8 ==> r is Err,
{
    bincode::options().with_fixint_encoding().deserialize::<u64>(bytes)
}

/// Reads the 16-bit field that starts at `at`.
pub fn read_u16(bytes: &[u8], at: usize) -> (r: Result<u16, ElfError>)
    ensures
        at + 2 <= bytes@.len() ==> r == Ok::<u16, ElfError>(u16_at(bytes@, at as int)),
        at + 2 > bytes@.len() ==> r == Err::<u16, ElfError>(ElfError::ShortBuffer),
{
    if bytes.len() < 2 || at > bytes.len() - 2 {
        return Err(ElfError::ShortBuffer);
    }
    match fixint_u16(slice_subrange(bytes, at, at + 2)) {
        Ok(v) => Ok(v),
        Err(_) => Err(ElfError::ShortBuffer),
    }
}

/// Reads the 32-bit field that starts at `at`.
pub fn read_u32(bytes: &[u8], at: usize) -> (r: Result<u32, ElfError>)
    ensures
        at + 4 <= bytes@.len() ==> r == Ok::<u32, ElfError>(u32_at(bytes@, at as int)),
        at + 4 > bytes@.len() ==> r == Err::<u32, ElfError>(ElfError::ShortBuffer),
{
    if bytes.len() < 4 || at > bytes.len() - 4 {
        return Err(ElfError::ShortBuffer);
    }
    match fixint_u32(slice_subrange(bytes, at, at + 4)) {
        Ok(v) => Ok(v),
        Err(_) => Err(ElfError::ShortBuffer),
    }
}

/// Reads the 64-bit field that starts at `at`.
pub fn read_u64(bytes: &[u8], at: usize) -> (r: Result<u64, ElfError>)
    ensures
        at + 8 <= bytes@.len() ==> r == Ok::<u64, ElfError>(u64_at(bytes@, at as int)),
        at + 8 > bytes@.len() ==> r == Err::<u64, ElfError>(ElfError::ShortBuffer),
{
    if bytes.len() < 8 || at > bytes.len() - 8 {
        return Err(ElfError::ShortBuffer);
    }
    match fixint_u64(slice_subrange(bytes, at, at + 8)) {
        Ok(v) => Ok(v),
        Err(_) => Err(ElfError::ShortBuffer),
    }
}

} // verus!
