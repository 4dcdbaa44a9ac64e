//! Decoding of 64-bit object files (ELF): the file header, the section header
//! table with its names, string tables and symbol tables.
//!
//! The functions of this crate are verified against the contracts they
//! carry. The byte layout of the records is stated in [`data`], the meaning
//! of their numeric codes in [`view`], and what a whole file decodes to in
//! [`ctrl`]. Integers are decoded by `bincode`; what is believed of it, and
//! not proved, stands in [`codec`].

pub mod codec;
pub mod ctrl;
pub mod data;
pub mod error;
pub mod view;

pub use crate::ctrl::Elf;
pub use crate::error::ElfError;
