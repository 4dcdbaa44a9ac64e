//! The ways in which decoding fails.

use vstd::prelude::*;

verus! {

/// Why a file, or a part of it, could not be decoded.
#[derive(Debug, Clone, Copy, PartialEq, Eq, Structural)]
pub enum ElfError {
    /// A record was asked of fewer bytes than it occupies.
    ShortBuffer,
    /// A byte range, a table index or a name offset that the file announces
    /// lies outside of what it refers to.
    OutOfBounds,
    /// The identification block names a class that is not decoded. The payload
    /// is the class byte: 1 is the 32-bit class, which is known and not
    /// decoded; every other value but 2 is unknown.
    UnsupportedClass(u8),
    /// A symbol section declares an entry size other than the size of a
    /// symbol record. The payload is the declared size.
    EntrySizeMismatch(u64),
    /// The file holds symbols, and its type is none of relocatable,
    /// executable and shared: the value of a symbol has no reading there.
    UnsupportedFileType,
}

} // verus!
