//! The records of an object file as they lie in it, and string tables.

use crate::codec::{read_u16, read_u32, read_u64, u16_at, u32_at, u64_at};
use crate::error::ElfError;
use vstd::prelude::*;

verus! {

/// Size in bytes of the identification block.
pub const EIDENT_SIZE: usize = 16;

/// Size in bytes of the 64-bit file header, identification block included.
pub const E64HDR_SIZE: usize = 64;

/// Size in bytes of a 64-bit section header.
pub const E64SHDR_SIZE: usize = 64;

/// Size in bytes of a 64-bit symbol entry.
pub const E64SYM_SIZE: usize = 24;

/// The identification block: the first sixteen bytes of every object file,
/// laid out alike in both classes and both byte orders.
#[derive(Debug, Clone, Copy, PartialEq, Eq)]
pub struct EIdent {
    /// The signature of the format.
    pub magic_nums: [u8; 4],
    /// 0: invalid class, 1: 32-bit objects, 2: 64-bit objects.
    pub class: u8,
    /// 0: invalid encoding, 1: least significant byte first, 2: most
    /// significant byte first.
    pub data: u8,
    /// Version of the header format.
    pub version: u8,
    /// Operating system and ABI that the object is meant for.
    pub osabi: u8,
    /// Version of that ABI.
    pub abiversion: u8,
    /// Unused bytes.
    pub _pad: [u8; 6],
    /// Size of the identification block.
    pub nident: u8,
}

impl EIdent {
    /// The identification block whose fields are all zero.
    pub open spec fn zero() -> EIdent {
        EIdent {
            magic_nums: [0, 0, 0, 0],
            class: 0,
            data: 0,
            version: 0,
            osabi: 0,
            abiversion: 0,
            _pad: [0, 0, 0, 0, 0, 0],
            nident: 0,
        }
    }
}

impl Default for EIdent {
    fn default() -> (r: Self)
        ensures
            r == EIdent::zero(),
    {
        EIdent {
            magic_nums: [0, 0, 0, 0],
            class: 0,
            data: 0,
            version: 0,
            osabi: 0,
            abiversion: 0,
            _pad: [0, 0, 0, 0, 0, 0],
            nident: 0,
        }
    }
}

impl EIdent {
    /// The signature of the format.
    pub fn magic_nums(&self) -> (r: [u8; 4])
        ensures
            r == self.magic_nums,
    {
        self.magic_nums
    }

    /// 0: invalid class, 1: 32-bit objects, 2: 64-bit objects.
    pub fn class(&self) -> (r: u8)
        ensures
            r == self.class,
    {
        self.class
    }

    /// 0: invalid encoding, 1: least significant byte first, 2: most
    /// significant byte first.
    pub fn data(&self) -> (r: u8)
        ensures
            r == self.data,
    {
        self.data
    }

    /// Version of the header format.
    pub fn version(&self) -> (r: u8)
        ensures
            r == self.version,
    {
        self.version
    }

    /// Operating system and ABI that the object is meant for.
    pub fn osabi(&self) -> (r: u8)
        ensures
            r == self.osabi,
    {
        self.osabi
    }

    /// Version of that ABI.
    pub fn abiversion(&self) -> (r: u8)
        ensures
            r == self.abiversion,
    {
        self.abiversion
    }

    /// Unused bytes.
    pub fn _pad(&self) -> (r: [u8; 6])
        ensures
            r == self._pad,
    {
        self._pad
    }

    /// Size of the identification block.
    pub fn nident(&self) -> (r: u8)
        ensures
            r == self.nident,
    {
        self.nident
    }
}

impl EIdent {
    /// The identification block that the first sixteen bytes of `raw` hold.
    pub open spec fn decoded(raw: Seq<u8>) -> EIdent {
        EIdent {
            magic_nums: [raw[0], raw[1], raw[2], raw[3]],
            class: raw[4],
            data: raw[5],
            version: raw[6],
            osabi: raw[7],
            abiversion: raw[8],
            _pad: [raw[9], raw[10], raw[11], raw[12], raw[13], raw[14]],
            nident: raw[15],
        }
    }

    /// Decodes the identification block at the start of `bytes`.
    pub fn decode(bytes: &[u8]) -> (r: Result<EIdent, ElfError>)
        ensures
            bytes@.len() >= EIDENT_SIZE ==> r == Ok::<EIdent, ElfError>(EIdent::decoded(bytes@)),
            bytes@.len() < EIDENT_SIZE ==> r == Err::<EIdent, ElfError>(ElfError::ShortBuffer),
    {
        if bytes.len() < EIDENT_SIZE {
            return Err(ElfError::ShortBuffer);
        }
        Ok(
            EIdent {
                magic_nums: [bytes[0], bytes[1], bytes[2], bytes[3]],
                class: bytes[4],
                data: bytes[5],
                version: bytes[6],
                osabi: bytes[7],
                abiversion: bytes[8],
                _pad: [bytes[9], bytes[10], bytes[11], bytes[12], bytes[13], bytes[14]],
                nident: bytes[15],
            },
        )
    }
}

/// The file header of a 64-bit object.
#[derive(Debug, Clone, Copy, PartialEq, Eq)]
pub struct E64Hdr {
    /// The identification block.
    pub ident: EIdent,
    /// Code of the object file type.
    pub ty: u16,
    /// Code of the architecture.
    pub machine: u16,
    /// Version of the format.
    pub version: u32,
    /// Virtual address at which execution starts.
    pub entry: u64,
    /// File offset of the program header table.
    pub phoff: u64,
    /// File offset of the section header table; 0 where there is none.
    pub shoff: u64,
    /// Flags of the processor.
    pub flags: u32,
    /// Size of this header.
    pub ehsize: u16,
    /// Size of one entry of the program header table.
    pub ph_tab_entry_size: u16,
    /// Number of entries of the program header table.
    pub ph_tab_entry_num: u16,
    /// Size of one entry of the section header table.
    pub sh_tab_entry_size: u16,
    /// Number of entries of the section header table.
    pub sh_tab_entry_num: u16,
    /// Index of the section that holds the section names.
    pub sh_strtab_idx: u16,
}

impl E64Hdr {
    /// The file header whose fields are all zero.
    pub open spec fn zero() -> E64Hdr {
        E64Hdr {
            ident: EIdent::zero(),
            ty: 0,
            machine: 0,
            version: 0,
            entry: 0,
            phoff: 0,
            shoff: 0,
            flags: 0,
            ehsize: 0,
            ph_tab_entry_size: 0,
            ph_tab_entry_num: 0,
            sh_tab_entry_size: 0,
            sh_tab_entry_num: 0,
            sh_strtab_idx: 0,
        }
    }
}

impl Default for E64Hdr {
    fn default() -> (r: Self)
        ensures
            r == E64Hdr::zero(),
    {
        E64Hdr {
            ident: EIdent::default(),
            ty: 0,
            machine: 0,
            version: 0,
            entry: 0,
            phoff: 0,
            shoff: 0,
            flags: 0,
            ehsize: 0,
            ph_tab_entry_size: 0,
            ph_tab_entry_num: 0,
            sh_tab_entry_size: 0,
            sh_tab_entry_num: 0,
            sh_strtab_idx: 0,
        }
    }
}

impl E64Hdr {
    /// The identification block.
    pub fn ident(&self) -> (r: EIdent)
        ensures
            r == self.ident,
    {
        self.ident
    }

    /// Code of the object file type.
    pub fn ty(&self) -> (r: u16)
        ensures
            r == self.ty,
    {
        self.ty
    }

    /// Code of the architecture.
    pub fn machine(&self) -> (r: u16)
        ensures
            r == self.machine,
    {
        self.machine
    }

    /// Version of the format.
    pub fn version(&self) -> (r: u32)
        ensures
            r == self.version,
    {
        self.version
    }

    /// Virtual address at which execution starts.
    pub fn entry(&self) -> (r: u64)
        ensures
            r == self.entry,
    {
        self.entry
    }

    /// File offset of the program header table.
    pub fn phoff(&self) -> (r: u64)
        ensures
            r == self.phoff,
    {
        self.phoff
    }

    /// File offset of the section header table; 0 where there is none.
    pub fn shoff(&self) -> (r: u64)
        ensures
            r == self.shoff,
    {
        self.shoff
    }

    /// Flags of the processor.
    pub fn flags(&self) -> (r: u32)
        ensures
            r == self.flags,
    {
        self.flags
    }

    /// Size of this header.
    pub fn ehsize(&self) -> (r: u16)
        ensures
            r == self.ehsize,
    {
        self.ehsize
    }

    /// Size of one entry of the program header table.
    pub fn ph_tab_entry_size(&self) -> (r: u16)
        ensures
            r == self.ph_tab_entry_size,
    {
        self.ph_tab_entry_size
    }

    /// Number of entries of the program header table.
    pub fn ph_tab_entry_num(&self) -> (r: u16)
        ensures
            r == self.ph_tab_entry_num,
    {
        self.ph_tab_entry_num
    }

    /// Size of one entry of the section header table.
    pub fn sh_tab_entry_size(&self) -> (r: u16)
        ensures
            r == self.sh_tab_entry_size,
    {
        self.sh_tab_entry_size
    }

    /// Number of entries of the section header table.
    pub fn sh_tab_entry_num(&self) -> (r: u16)
        ensures
            r == self.sh_tab_entry_num,
    {
        self.sh_tab_entry_num
    }

    /// Index of the section that holds the section names.
    pub fn sh_strtab_idx(&self) -> (r: u16)
        ensures
            r == self.sh_strtab_idx,
    {
        self.sh_strtab_idx
    }
}

impl E64Hdr {
    /// The file header that the first sixty-four bytes of `raw` hold.
    pub open spec fn decoded(raw: Seq<u8>) -> E64Hdr {
        E64Hdr {
            ident: EIdent::decoded(raw),
            ty: u16_at(raw, 16),
            machine: u16_at(raw, 18),
            version: u32_at(raw, 20),
            entry: u64_at(raw, 24),
            phoff: u64_at(raw, 32),
            shoff: u64_at(raw, 40),
            flags: u32_at(raw, 48),
            ehsize: u16_at(raw, 52),
            ph_tab_entry_size: u16_at(raw, 54),
            ph_tab_entry_num: u16_at(raw, 56),
            sh_tab_entry_size: u16_at(raw, 58),
            sh_tab_entry_num: u16_at(raw, 60),
            sh_strtab_idx: u16_at(raw, 62),
        }
    }

    /// Decodes the file header at the start of `bytes`.
    pub fn decode(bytes: &[u8]) -> (r: Result<E64Hdr, ElfError>)
        ensures
            bytes@.len() >= E64HDR_SIZE ==> r == Ok::<E64Hdr, ElfError>(E64Hdr::decoded(bytes@)),
            bytes@.len() < E64HDR_SIZE ==> r == Err::<E64Hdr, ElfError>(ElfError::ShortBuffer),
    {
        if bytes.len() < E64HDR_SIZE {
            return Err(ElfError::ShortBuffer);
        }
        Ok(
            E64Hdr {
                ident: EIdent::decode(bytes)?,
                ty: read_u16(bytes, 16)?,
                machine: read_u16(bytes, 18)?,
                version: read_u32(bytes, 20)?,
                entry: read_u64(bytes, 24)?,
                phoff: read_u64(bytes, 32)?,
                shoff: read_u64(bytes, 40)?,
                flags: read_u32(bytes, 48)?,
                ehsize: read_u16(bytes, 52)?,
                ph_tab_entry_size: read_u16(bytes, 54)?,
                ph_tab_entry_num: read_u16(bytes, 56)?,
                sh_tab_entry_size: read_u16(bytes, 58)?,
                sh_tab_entry_num: read_u16(bytes, 60)?,
                sh_strtab_idx: read_u16(bytes, 62)?,
            },
        )
    }
}

/// The file header of a 32-bit object. Objects of that class are recognized
/// and not decoded.
#[derive(Debug, Clone, Copy, PartialEq, Eq)]
pub struct E32Hdr {
    /// The identification block.
    pub ident: EIdent,
    /// Code of the object file type.
    pub ty: u16,
    /// Code of the architecture.
    pub machine: u16,
    /// Version of the format.
    pub version: u32,
    /// Virtual address at which execution starts.
    pub entry: u32,
    /// File offset of the program header table.
    pub phoff: u64,
    /// File offset of the section header table; 0 where there is none.
    pub shoff: u64,
    /// Flags of the processor.
    pub flags: u32,
    /// Size of this header.
    pub ehsize: u16,
    /// Size of one entry of the program header table.
    pub ph_tab_entry_size: u16,
    /// Number of entries of the program header table.
    pub ph_tab_entry_num: u16,
    /// Size of one entry of the section header table.
    pub sh_tab_entry_size: u16,
    /// Number of entries of the section header table.
    pub sh_tab_entry_num: u16,
    /// Index of the section that holds the section names.
    pub sh_strtab_idx: u16,
}

impl E32Hdr {
    /// The file header whose fields are all zero.
    pub open spec fn zero() -> E32Hdr {
        E32Hdr {
            ident: EIdent::zero(),
            ty: 0,
            machine: 0,
            version: 0,
            entry: 0,
            phoff: 0,
            shoff: 0,
            flags: 0,
            ehsize: 0,
            ph_tab_entry_size: 0,
            ph_tab_entry_num: 0,
            sh_tab_entry_size: 0,
            sh_tab_entry_num: 0,
            sh_strtab_idx: 0,
        }
    }
}

impl Default for E32Hdr {
    fn default() -> (r: Self)
        ensures
            r == E32Hdr::zero(),
    {
        E32Hdr {
            ident: EIdent::default(),
            ty: 0,
            machine: 0,
            version: 0,
            entry: 0,
            phoff: 0,
            shoff: 0,
            flags: 0,
            ehsize: 0,
            ph_tab_entry_size: 0,
            ph_tab_entry_num: 0,
            sh_tab_entry_size: 0,
            sh_tab_entry_num: 0,
            sh_strtab_idx: 0,
        }
    }
}

impl E32Hdr {
    /// The identification block.
    pub fn ident(&self) -> (r: EIdent)
        ensures
            r == self.ident,
    {
        self.ident
    }

    /// Code of the object file type.
    pub fn ty(&self) -> (r: u16)
        ensures
            r == self.ty,
    {
        self.ty
    }

    /// Code of the architecture.
    pub fn machine(&self) -> (r: u16)
        ensures
            r == self.machine,
    {
        self.machine
    }

    /// Version of the format.
    pub fn version(&self) -> (r: u32)
        ensures
            r == self.version,
    {
        self.version
    }

    /// Virtual address at which execution starts.
    pub fn entry(&self) -> (r: u32)
        ensures
            r == self.entry,
    {
        self.entry
    }

    /// File offset of the program header table.
    pub fn phoff(&self) -> (r: u64)
        ensures
            r == self.phoff,
    {
        self.phoff
    }

    /// File offset of the section header table; 0 where there is none.
    pub fn shoff(&self) -> (r: u64)
        ensures
            r == self.shoff,
    {
        self.shoff
    }

    /// Flags of the processor.
    pub fn flags(&self) -> (r: u32)
        ensures
            r == self.flags,
    {
        self.flags
    }

    /// Size of this header.
    pub fn ehsize(&self) -> (r: u16)
        ensures
            r == self.ehsize,
    {
        self.ehsize
    }

    /// Size of one entry of the program header table.
    pub fn ph_tab_entry_size(&self) -> (r: u16)
        ensures
            r == self.ph_tab_entry_size,
    {
        self.ph_tab_entry_size
    }

    /// Number of entries of the program header table.
    pub fn ph_tab_entry_num(&self) -> (r: u16)
        ensures
            r == self.ph_tab_entry_num,
    {
        self.ph_tab_entry_num
    }

    /// Size of one entry of the section header table.
    pub fn sh_tab_entry_size(&self) -> (r: u16)
        ensures
            r == self.sh_tab_entry_size,
    {
        self.sh_tab_entry_size
    }

    /// Number of entries of the section header table.
    pub fn sh_tab_entry_num(&self) -> (r: u16)
        ensures
            r == self.sh_tab_entry_num,
    {
        self.sh_tab_entry_num
    }

    /// Index of the section that holds the section names.
    pub fn sh_strtab_idx(&self) -> (r: u16)
        ensures
            r == self.sh_strtab_idx,
    {
        self.sh_strtab_idx
    }
}

/// An entry of the program header table of a 64-bit object: one segment.
#[derive(Debug, Clone, Copy, PartialEq, Eq)]
pub struct E64Phdr {
    /// Code of the segment type.
    pub ty: u32,
    /// Permission bits of the segment.
    pub flags: u32,
    /// File offset of the segment.
    pub offset: u64,
    /// Virtual address of the segment in memory.
    pub vaddr: u64,
    /// Physical address, on systems that have use for one.
    pub paddr: u64,
    /// Size of the segment in the file.
    pub filesz: u64,
    /// Size of the segment in memory.
    pub memsz: u64,
    /// Alignment of the segment in the file and in memory.
    pub align: u64,
}

impl E64Phdr {
    /// The program header whose fields are all zero.
    pub open spec fn zero() -> E64Phdr {
        E64Phdr {
            ty: 0,
            flags: 0,
            offset: 0,
            vaddr: 0,
            paddr: 0,
            filesz: 0,
            memsz: 0,
            align: 0,
        }
    }
}

impl Default for E64Phdr {
    fn default() -> (r: Self)
        ensures
            r == E64Phdr::zero(),
    {
        E64Phdr {
            ty: 0,
            flags: 0,
            offset: 0,
            vaddr: 0,
            paddr: 0,
            filesz: 0,
            memsz: 0,
            align: 0,
        }
    }
}

impl E64Phdr {
    /// Code of the segment type.
    pub fn ty(&self) -> (r: u32)
        ensures
            r == self.ty,
    {
        self.ty
    }

    /// Permission bits of the segment.
    pub fn flags(&self) -> (r: u32)
        ensures
            r == self.flags,
    {
        self.flags
    }

    /// File offset of the segment.
    pub fn offset(&self) -> (r: u64)
        ensures
            r == self.offset,
    {
        self.offset
    }

    /// Virtual address of the segment in memory.
    pub fn vaddr(&self) -> (r: u64)
        ensures
            r == self.vaddr,
    {
        self.vaddr
    }

    /// Physical address, on systems that have use for one.
    pub fn paddr(&self) -> (r: u64)
        ensures
            r == self.paddr,
    {
        self.paddr
    }

    /// Size of the segment in the file.
    pub fn filesz(&self) -> (r: u64)
        ensures
            r == self.filesz,
    {
        self.filesz
    }

    /// Size of the segment in memory.
    pub fn memsz(&self) -> (r: u64)
        ensures
            r == self.memsz,
    {
        self.memsz
    }

    /// Alignment of the segment in the file and in memory.
    pub fn align(&self) -> (r: u64)
        ensures
            r == self.align,
    {
        self.align
    }
}

/// An entry of the program header table of a 32-bit object.
#[derive(Debug, Clone, Copy, PartialEq, Eq)]
pub struct E32Phdr {
    /// Code of the segment type.
    pub ty: u32,
    /// File offset of the segment.
    pub offset: u32,
    /// Virtual address of the segment in memory.
    pub vaddr: u32,
    /// Physical address, on systems that have use for one.
    pub paddr: u32,
    /// Size of the segment in the file.
    pub filesz: u32,
    /// Size of the segment in memory.
    pub memsz: u32,
    /// Permission bits of the segment.
    pub flags: u32,
    /// Alignment of the segment in the file and in memory.
    pub align: u32,
}

impl E32Phdr {
    /// The program header whose fields are all zero.
    pub open spec fn zero() -> E32Phdr {
        E32Phdr {
            ty: 0,
            offset: 0,
            vaddr: 0,
            paddr: 0,
            filesz: 0,
            memsz: 0,
            flags: 0,
            align: 0,
        }
    }
}

impl Default for E32Phdr {
    fn default() -> (r: Self)
        ensures
            r == E32Phdr::zero(),
    {
        E32Phdr {
            ty: 0,
            offset: 0,
            vaddr: 0,
            paddr: 0,
            filesz: 0,
            memsz: 0,
            flags: 0,
            align: 0,
        }
    }
}

impl E32Phdr {
    /// Code of the segment type.
    pub fn ty(&self) -> (r: u32)
        ensures
            r == self.ty,
    {
        self.ty
    }

    /// File offset of the segment.
    pub fn offset(&self) -> (r: u32)
        ensures
            r == self.offset,
    {
        self.offset
    }

    /// Virtual address of the segment in memory.
    pub fn vaddr(&self) -> (r: u32)
        ensures
            r == self.vaddr,
    {
        self.vaddr
    }

    /// Physical address, on systems that have use for one.
    pub fn paddr(&self) -> (r: u32)
        ensures
            r == self.paddr,
    {
        self.paddr
    }

    /// Size of the segment in the file.
    pub fn filesz(&self) -> (r: u32)
        ensures
            r == self.filesz,
    {
        self.filesz
    }

    /// Size of the segment in memory.
    pub fn memsz(&self) -> (r: u32)
        ensures
            r == self.memsz,
    {
        self.memsz
    }

    /// Permission bits of the segment.
    pub fn flags(&self) -> (r: u32)
        ensures
            r == self.flags,
    {
        self.flags
    }

    /// Alignment of the segment in the file and in memory.
    pub fn align(&self) -> (r: u32)
        ensures
            r == self.align,
    {
        self.align
    }
}

/// An entry of the section header table of a 64-bit object.
#[derive(Debug, Clone, Copy, PartialEq, Eq)]
pub struct E64Shdr {
    /// Offset of the section's name in the table of section names.
    pub name: u32,
    /// Code of the section type.
    pub ty: u32,
    /// Flag bits of the section.
    pub flags: u64,
    /// Virtual address of the section at execution.
    pub addr: u64,
    /// File offset of the section.
    pub offset: u64,
    /// Size of the section in bytes.
    pub size: u64,
    /// Index of another section; what it means depends on the type.
    pub link: u32,
    /// More about the section; what it means depends on the type.
    pub info: u32,
    /// Alignment of the section's address.
    pub addr_align: u64,
    /// Size of one entry, where the section is a table of entries of one
    /// size; 0 elsewhere.
    pub ent_size: u64,
}

impl E64Shdr {
    /// The section header whose fields are all zero.
    pub open spec fn zero() -> E64Shdr {
        E64Shdr {
            name: 0,
            ty: 0,
            flags: 0,
            addr: 0,
            offset: 0,
            size: 0,
            link: 0,
            info: 0,
            addr_align: 0,
            ent_size: 0,
        }
    }
}

impl Default for E64Shdr {
    fn default() -> (r: Self)
        ensures
            r == E64Shdr::zero(),
    {
        E64Shdr {
            name: 0,
            ty: 0,
            flags: 0,
            addr: 0,
            offset: 0,
            size: 0,
            link: 0,
            info: 0,
            addr_align: 0,
            ent_size: 0,
        }
    }
}

impl E64Shdr {
    /// Offset of the section's name in the table of section names.
    pub fn name(&self) -> (r: u32)
        ensures
            r == self.name,
    {
        self.name
    }

    /// Code of the section type.
    pub fn ty(&self) -> (r: u32)
        ensures
            r == self.ty,
    {
        self.ty
    }

    /// Flag bits of the section.
    pub fn flags(&self) -> (r: u64)
        ensures
            r == self.flags,
    {
        self.flags
    }

    /// Virtual address of the section at execution.
    pub fn addr(&self) -> (r: u64)
        ensures
            r == self.addr,
    {
        self.addr
    }

    /// File offset of the section.
    pub fn offset(&self) -> (r: u64)
        ensures
            r == self.offset,
    {
        self.offset
    }

    /// Size of the section in bytes.
    pub fn size(&self) -> (r: u64)
        ensures
            r == self.size,
    {
        self.size
    }

    /// Index of another section; what it means depends on the type.
    pub fn link(&self) -> (r: u32)
        ensures
            r == self.link,
    {
        self.link
    }

    /// More about the section; what it means depends on the type.
    pub fn info(&self) -> (r: u32)
        ensures
            r == self.info,
    {
        self.info
    }

    /// Alignment of the section's address.
    pub fn addr_align(&self) -> (r: u64)
        ensures
            r == self.addr_align,
    {
        self.addr_align
    }

    /// Size of one entry, where the section is a table of entries of one size;
    /// 0 elsewhere.
    pub fn ent_size(&self) -> (r: u64)
        ensures
            r == self.ent_size,
    {
        self.ent_size
    }
}

impl E64Shdr {
    /// The section header that the first sixty-four bytes of `raw` hold.
    pub open spec fn decoded(raw: Seq<u8>) -> E64Shdr {
        E64Shdr {
            name: u32_at(raw, 0),
            ty: u32_at(raw, 4),
            flags: u64_at(raw, 8),
            addr: u64_at(raw, 16),
            offset: u64_at(raw, 24),
            size: u64_at(raw, 32),
            link: u32_at(raw, 40),
            info: u32_at(raw, 44),
            addr_align: u64_at(raw, 48),
            ent_size: u64_at(raw, 56),
        }
    }

    /// Decodes the section header at the start of `bytes`.
    pub fn decode(bytes: &[u8]) -> (r: Result<E64Shdr, ElfError>)
        ensures
            bytes@.len() >= E64SHDR_SIZE ==> r == Ok::<E64Shdr, ElfError>(
                E64Shdr::decoded(bytes@),
            ),
            bytes@.len() < E64SHDR_SIZE ==> r == Err::<E64Shdr, ElfError>(ElfError::ShortBuffer),
    {
        if bytes.len() < E64SHDR_SIZE {
            return Err(ElfError::ShortBuffer);
        }
        Ok(
            E64Shdr {
                name: read_u32(bytes, 0)?,
                ty: read_u32(bytes, 4)?,
                flags: read_u64(bytes, 8)?,
                addr: read_u64(bytes, 16)?,
                offset: read_u64(bytes, 24)?,
                size: read_u64(bytes, 32)?,
                link: read_u32(bytes, 40)?,
                info: read_u32(bytes, 44)?,
                addr_align: read_u64(bytes, 48)?,
                ent_size: read_u64(bytes, 56)?,
            },
        )
    }
}

/// An entry of the section header table of a 32-bit object.
#[derive(Debug, Clone, Copy, PartialEq, Eq)]
pub struct E32Shdr {
    /// Offset of the section's name in the table of section names.
    pub name: u32,
    /// Code of the section type.
    pub ty: u32,
    /// Flag bits of the section.
    pub flags: u32,
    /// Virtual address of the section at execution.
    pub addr: u32,
    /// File offset of the section.
    pub offset: u32,
    /// Size of the section in bytes.
    pub size: u32,
    /// Index of another section; what it means depends on the type.
    pub link: u32,
    /// More about the section; what it means depends on the type.
    pub info: u32,
    /// Alignment of the section's address.
    pub addr_align: u32,
    /// Size of one entry, where the section is a table; 0 elsewhere.
    pub ent_size: u32,
}

impl E32Shdr {
    /// The section header whose fields are all zero.
    pub open spec fn zero() -> E32Shdr {
        E32Shdr {
            name: 0,
            ty: 0,
            flags: 0,
            addr: 0,
            offset: 0,
            size: 0,
            link: 0,
            info: 0,
            addr_align: 0,
            ent_size: 0,
        }
    }
}

impl Default for E32Shdr {
    fn default() -> (r: Self)
        ensures
            r == E32Shdr::zero(),
    {
        E32Shdr {
            name: 0,
            ty: 0,
            flags: 0,
            addr: 0,
            offset: 0,
            size: 0,
            link: 0,
            info: 0,
            addr_align: 0,
            ent_size: 0,
        }
    }
}

impl E32Shdr {
    /// Offset of the section's name in the table of section names.
    pub fn name(&self) -> (r: u32)
        ensures
            r == self.name,
    {
        self.name
    }

    /// Code of the section type.
    pub fn ty(&self) -> (r: u32)
        ensures
            r == self.ty,
    {
        self.ty
    }

    /// Flag bits of the section.
    pub fn flags(&self) -> (r: u32)
        ensures
            r == self.flags,
    {
        self.flags
    }

    /// Virtual address of the section at execution.
    pub fn addr(&self) -> (r: u32)
        ensures
            r == self.addr,
    {
        self.addr
    }

    /// File offset of the section.
    pub fn offset(&self) -> (r: u32)
        ensures
            r == self.offset,
    {
        self.offset
    }

    /// Size of the section in bytes.
    pub fn size(&self) -> (r: u32)
        ensures
            r == self.size,
    {
        self.size
    }

    /// Index of another section; what it means depends on the type.
    pub fn link(&self) -> (r: u32)
        ensures
            r == self.link,
    {
        self.link
    }

    /// More about the section; what it means depends on the type.
    pub fn info(&self) -> (r: u32)
        ensures
            r == self.info,
    {
        self.info
    }

    /// Alignment of the section's address.
    pub fn addr_align(&self) -> (r: u32)
        ensures
            r == self.addr_align,
    {
        self.addr_align
    }

    /// Size of one entry, where the section is a table; 0 elsewhere.
    pub fn ent_size(&self) -> (r: u32)
        ensures
            r == self.ent_size,
    {
        self.ent_size
    }
}

/// An entry of a symbol table of a 64-bit object.
#[derive(Debug, Clone, Copy, PartialEq, Eq)]
pub struct E64Sym {
    /// Offset of the symbol's name in the string table of its section.
    pub name: u32,
    /// Binding in the upper four bits, type in the lower four.
    pub info: u8,
    /// Visibility in the lower two bits.
    pub other: u8,
    /// Index of the section that the symbol is defined in.
    pub shndx: u16,
    /// Value of the symbol; what it means depends on the file.
    pub value: u64,
    /// Size of what the symbol names.
    pub size: u64,
}

impl E64Sym {
    /// The symbol entry whose fields are all zero.
    pub open spec fn zero() -> E64Sym {
        E64Sym {
            name: 0,
            info: 0,
            other: 0,
            shndx: 0,
            value: 0,
            size: 0,
        }
    }
}

impl Default for E64Sym {
    fn default() -> (r: Self)
        ensures
            r == E64Sym::zero(),
    {
        E64Sym {
            name: 0,
            info: 0,
            other: 0,
            shndx: 0,
            value: 0,
            size: 0,
        }
    }
}

impl E64Sym {
    /// Offset of the symbol's name in the string table of its section.
    pub fn name(&self) -> (r: u32)
        ensures
            r == self.name,
    {
        self.name
    }

    /// Binding in the upper four bits, type in the lower four.
    pub fn info(&self) -> (r: u8)
        ensures
            r == self.info,
    {
        self.info
    }

    /// Visibility in the lower two bits.
    pub fn other(&self) -> (r: u8)
        ensures
            r == self.other,
    {
        self.other
    }

    /// Index of the section that the symbol is defined in.
    pub fn shndx(&self) -> (r: u16)
        ensures
            r == self.shndx,
    {
        self.shndx
    }

    /// Value of the symbol; what it means depends on the file.
    pub fn value(&self) -> (r: u64)
        ensures
            r == self.value,
    {
        self.value
    }

    /// Size of what the symbol names.
    pub fn size(&self) -> (r: u64)
        ensures
            r == self.size,
    {
        self.size
    }
}

impl E64Sym {
    /// The symbol entry that the first twenty-four bytes of `raw` hold.
    pub open spec fn decoded(raw: Seq<u8>) -> E64Sym {
        E64Sym {
            name: u32_at(raw, 0),
            info: raw[4],
            other: raw[5],
            shndx: u16_at(raw, 6),
            value: u64_at(raw, 8),
            size: u64_at(raw, 16),
        }
    }

    /// Decodes the symbol entry at the start of `bytes`.
    pub fn decode(bytes: &[u8]) -> (r: Result<E64Sym, ElfError>)
        ensures
            bytes@.len() >= E64SYM_SIZE ==> r == Ok::<E64Sym, ElfError>(E64Sym::decoded(bytes@)),
            bytes@.len() < E64SYM_SIZE ==> r == Err::<E64Sym, ElfError>(ElfError::ShortBuffer),
    {
        if bytes.len() < E64SYM_SIZE {
            return Err(ElfError::ShortBuffer);
        }
        Ok(
            E64Sym {
                name: read_u32(bytes, 0)?,
                info: bytes[4],
                other: bytes[5],
                shndx: read_u16(bytes, 6)?,
                value: read_u64(bytes, 8)?,
                size: read_u64(bytes, 16)?,
            },
        )
    }
}

/// An entry of a symbol table of a 32-bit object.
#[derive(Debug, Clone, Copy, PartialEq, Eq)]
pub struct E32Sym {
    /// Offset of the symbol's name in the string table of its section.
    pub name: u32,
    /// Value of the symbol.
    pub value: u32,
    /// Size of what the symbol names.
    pub size: u32,
    /// Binding in the upper four bits, type in the lower four.
    pub info: u8,
    /// Visibility in the lower two bits.
    pub other: u8,
    /// Index of the section that the symbol is defined in.
    pub shndx: u16,
}

impl E32Sym {
    /// The symbol entry whose fields are all zero.
    pub open spec fn zero() -> E32Sym {
        E32Sym {
            name: 0,
            value: 0,
            size: 0,
            info: 0,
            other: 0,
            shndx: 0,
        }
    }
}

impl Default for E32Sym {
    fn default() -> (r: Self)
        ensures
            r == E32Sym::zero(),
    {
        E32Sym {
            name: 0,
            value: 0,
            size: 0,
            info: 0,
            other: 0,
            shndx: 0,
        }
    }
}

impl E32Sym {
    /// Offset of the symbol's name in the string table of its section.
    pub fn name(&self) -> (r: u32)
        ensures
            r == self.name,
    {
        self.name
    }

    /// Value of the symbol.
    pub fn value(&self) -> (r: u32)
        ensures
            r == self.value,
    {
        self.value
    }

    /// Size of what the symbol names.
    pub fn size(&self) -> (r: u32)
        ensures
            r == self.size,
    {
        self.size
    }

    /// Binding in the upper four bits, type in the lower four.
    pub fn info(&self) -> (r: u8)
        ensures
            r == self.info,
    {
        self.info
    }

    /// Visibility in the lower two bits.
    pub fn other(&self) -> (r: u8)
        ensures
            r == self.other,
    {
        self.other
    }

    /// Index of the section that the symbol is defined in.
    pub fn shndx(&self) -> (r: u16)
        ensures
            r == self.shndx,
    {
        self.shndx
    }
}

/// A string table: the bytes of a section, read as strings that each end
/// with a zero byte and are found by the offset of their first byte.
#[derive(Debug, Clone, PartialEq, Eq)]
pub struct StrTab(Vec<u8>);

impl View for StrTab {
    type V = Seq<u8>;

    closed spec fn view(&self) -> Seq<u8> {
        self.0@
    }
}

/// `String::push` of std, which appends one character.
pub assume_specification[ String::push ](s: &mut String, ch: char)
    ensures
        final(s)@ == old(s)@.push(ch),
;

/// The characters that bytes stand for, each byte being the code of one.
pub open spec fn latin1(b: Seq<u8>) -> Seq<char> {
    b.map_values(|x: u8| x as char)
}

/// The index of the first zero byte of `b` at or after `from`; where there
/// is none, an index that is not below the length of `b`.
pub open spec fn nul_from(b: Seq<u8>, from: int) -> int
    decreases b.len() - from,
{
    if from < 0 || from >= b.len() || b[from] == 0 {
        from
    } else {
        nul_from(b, from + 1)
    }
}

/// The bytes of the string that starts at `at`: those from `at` up to the
/// next zero byte, or up to the end where none follows. `at` need not be
/// where an entry of the table starts.
pub open spec fn bytes_at(b: Seq<u8>, at: int) -> Seq<u8> {
    b.subrange(at, nul_from(b, at))
}

/// The string that starts at `at`, where `at` lies in the table.
pub open spec fn str_at(b: Seq<u8>, at: int) -> Option<Seq<char>> {
    if 0 <= at < b.len() {
        Some(latin1(bytes_at(b, at)))
    } else {
        None
    }
}

/// The entries of `b` that start at or after `from`, in order, `from` being
/// where one starts. An entry ends at its zero byte, which is not part of
/// it; bytes that no zero byte follows make no entry.
pub open spec fn entries_from(b: Seq<u8>, from: int) -> Seq<Seq<u8>>
    decreases b.len() - from,
{
    let end = nul_from(b, from);
    if from < 0 || end >= b.len() {
        Seq::empty()
    } else {
        proof {
            lemma_nul_from(b, from);
        }
        seq![b.subrange(from, end)] + entries_from(b, end + 1)
    }
}

/// The entries of a string table. The first byte of a table ends the empty
/// string at offset 0, which is not counted among them.
pub open spec fn entries(b: Seq<u8>) -> Seq<Seq<u8>> {
    entries_from(b, 1)
}

/// The offset of entry `k` of a table whose entries are `e`, the first of
/// them starting at `base`: each entry takes its bytes and one zero byte.
pub open spec fn entry_offset(e: Seq<Seq<u8>>, base: int, k: int) -> int
    decreases k,
{
    if k <= 0 {
        base
    } else {
        entry_offset(e, base, k - 1) + e[k - 1].len() + 1
    }
}

/// What `nul_from` finds: nothing but non-zero bytes lies before it, and it
/// is a zero byte unless it is the end.
pub proof fn lemma_nul_from(b: Seq<u8>, from: int)
    requires
        0 <= from <= b.len(),
    ensures
        from <= nul_from(b, from) <= b.len(),
        forall|k: int| from <= k < nul_from(b, from) ==> b[k] != 0,
        nul_from(b, from) < b.len() ==> b[nul_from(b, from)] == 0,
    decreases b.len() - from,
{
    if from < b.len() && b[from] != 0 {
        lemma_nul_from(b, from + 1);
    }
}

/// Over a stretch without a zero byte, the search for one may start anywhere.
pub proof fn lemma_nul_from_skip(b: Seq<u8>, from: int, to: int)
    requires
        0 <= from <= to <= b.len(),
        forall|k: int| from <= k < to ==> b[k] != 0,
    ensures
        nul_from(b, from) == nul_from(b, to),
    decreases to - from,
{
    if from < to {
        lemma_nul_from_skip(b, from + 1, to);
    }
}

/// Dropping the first entry moves the others one place down and lets them
/// start behind it.
proof fn lemma_entry_offset_rest(first: Seq<u8>, rest: Seq<Seq<u8>>, base: int, k: int)
    requires
        1 <= k <= rest.len(),
    ensures
        entry_offset(seq![first] + rest, base, k) == entry_offset(
            rest,
            base + first.len() + 1,
            k - 1,
        ),
    decreases k,
{
    let e = seq![first] + rest;
    if k > 1 {
        lemma_entry_offset_rest(first, rest, base, k - 1);
    } else {
        assert(entry_offset(e, base, 1) == entry_offset(e, base, 0) + e[0].len() + 1);
    }
}

/// Entry `k` of those that start at or after `from` is the string that is
/// found at its offset.
proof fn lemma_entries_from_found(b: Seq<u8>, from: int, k: int)
    requires
        0 <= k < entries_from(b, from).len(),
    ensures
        0 <= entry_offset(entries_from(b, from), from, k) < b.len(),
        bytes_at(b, entry_offset(entries_from(b, from), from, k)) == entries_from(b, from)[k],
    decreases k,
{
    let end = nul_from(b, from);
    let first = b.subrange(from, end);
    let rest = entries_from(b, end + 1);
    if from <= b.len() {
        lemma_nul_from(b, from);
    }
    if k > 0 {
        lemma_entry_offset_rest(first, rest, from, k);
        lemma_entries_from_found(b, end + 1, k - 1);
    }
}

/// Every entry that the enumeration of a table gives is found again by the
/// offset at which it starts: the first at offset 1, each other one behind
/// the zero byte of the one before it.
pub proof fn lemma_entries_found_again(b: Seq<u8>, k: int)
    requires
        0 <= k < entries(b).len(),
    ensures
        str_at(b, entry_offset(entries(b), 1, k)) == Some(latin1(entries(b)[k])),
{
    lemma_entries_from_found(b, 1, k);
}

impl StrTab {
    /// The table without bytes.
    pub fn empty() -> (r: Self)
        ensures
            r@ == Seq::<u8>::empty(),
    {
        StrTab(Vec::new())
    }

    /// The table that `vec` holds.
    pub fn new(vec: Vec<u8>) -> (r: Self)
        ensures
            r@ == vec@,
    {
        Self(vec)
    }

    /// The string that starts at offset `idx`; `None` where `idx` is not an
    /// offset of the table.
    pub fn get(&self, idx: usize) -> (r: Option<String>)
        ensures
            match str_at(self@, idx as int) {
                Some(s) => r matches Some(t) && t@ == s,
                None => r is None,
            },
    {
        if idx >= self.0.len() {
            return None;
        }
        let mut s = String::new();
        let mut i: usize = idx;
        while i < self.0.len() && self.0[i] != 0
            invariant
                idx <= i <= self.0@.len(),
                forall|k: int| idx <= k < i ==> self.0@[k] != 0,
                s@ == latin1(self.0@.subrange(idx as int, i as int)),
            decreases self.0@.len() - i,
        {
            s.push(self.0[i] as char);
            i += 1;
        }
        proof {
            lemma_nul_from_skip(self.0@, idx as int, i as int);
        }
        Some(s)
    }

    /// The entries of the table, in order.
    pub fn str_vec(&self) -> (r: Vec<String>)
        ensures
            r@.len() == entries(self@).len(),
            forall|k: int| 0 <= k < r@.len() ==> (#[trigger] r@[k])@ == latin1(entries(self@)[k]),
    {
        let mut str_vec: Vec<String> = Vec::new();
        if self.0.len() == 0 {
            return str_vec;
        }
        let mut s = String::new();
        let ghost b = self.0@;
        let ghost mut start: int = 1;
        let ghost mut done: Seq<Seq<u8>> = Seq::empty();
        for i in 1..self.0.len()
            invariant
                b == self.0@,
                b.len() >= 1,
                1 <= start <= i,
                forall|k: int| start <= k < i ==> b[k] != 0,
                s@ == latin1(b.subrange(start, i as int)),
                entries(b) == done + entries_from(b, start),
                str_vec@.len() == done.len(),
                forall|k: int| 0 <= k < done.len() ==> (#[trigger] str_vec@[k])@ == latin1(done[k]),
        {
            if self.0[i] == 0 {
                proof {
                    lemma_nul_from_skip(b, start, i as int);
                    done = done.push(b.subrange(start, i as int));
                    start = i + 1;
                }
                str_vec.push(s);
                s = String::new();
            } else {
                s.push(self.0[i] as char);
            }
        }
        proof {
            lemma_nul_from_skip(b, start, b.len() as int);
        }
        str_vec
    }
}

} // verus!
