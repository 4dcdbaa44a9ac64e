//! What the numeric codes of the records mean, and the records with their
//! codes read.
//!
//! Every mapping from a code to its meaning is total: a code that has no
//! name is kept as it is, in a variant of its own.

use crate::data::{str_at, E64Hdr, E64Phdr, E64Shdr, E64Sym, EIdent};
use vstd::prelude::*;
use vstd::std_specs::convert::FromSpecImpl;

verus! {

/// The signature bytes of a file.
#[derive(Debug, Clone, Copy, PartialEq, Eq)]
pub struct MagicNums(pub [u8; 4]);

/// The class of an object: the width of its addresses and offsets.
#[derive(Debug, Clone, Copy, PartialEq, Eq, Structural)]
pub enum EIClass {
    /// Code 0.
    Invalid,
    /// Code 1: 32-bit objects.
    Bit32,
    /// Code 2: 64-bit objects.
    Bit64,
    /// Any other code.
    Unknown(u8),
}

impl EIClass {
    /// The class that a code stands for.
    pub open spec fn of_code(code: u8) -> EIClass {
        match code {
            0 => EIClass::Invalid,
            1 => EIClass::Bit32,
            2 => EIClass::Bit64,
            x => EIClass::Unknown(x),
        }
    }
}

impl From<u8> for EIClass {
    fn from(code: u8) -> (r: Self)
        ensures
            r == EIClass::of_code(code),
    {
        match code {
            0 => EIClass::Invalid,
            1 => EIClass::Bit32,
            2 => EIClass::Bit64,
            x => EIClass::Unknown(x),
        }
    }
}

impl FromSpecImpl<u8> for EIClass {
    open spec fn obeys_from_spec() -> bool {
        true
    }

    open spec fn from_spec(code: u8) -> Self {
        EIClass::of_code(code)
    }
}

impl Default for EIClass {
    fn default() -> (r: Self)
        ensures
            r == EIClass::Invalid,
    {
        EIClass::Invalid
    }
}

/// The byte order of an object.
#[derive(Debug, Clone, Copy, PartialEq, Eq, Structural)]
pub enum EIData {
    /// Code 0.
    Invalid,
    /// Code 1: least significant byte first.
    LSB,
    /// Code 2: most significant byte first.
    MSB,
    /// Any other code.
    Unknown(u8),
}

impl EIData {
    /// The byte order that a code stands for.
    pub open spec fn of_code(code: u8) -> EIData {
        match code {
            0 => EIData::Invalid,
            1 => EIData::LSB,
            2 => EIData::MSB,
            x => EIData::Unknown(x),
        }
    }
}

impl From<u8> for EIData {
    fn from(code: u8) -> (r: Self)
        ensures
            r == EIData::of_code(code),
    {
        match code {
            0 => EIData::Invalid,
            1 => EIData::LSB,
            2 => EIData::MSB,
            x => EIData::Unknown(x),
        }
    }
}

impl FromSpecImpl<u8> for EIData {
    open spec fn obeys_from_spec() -> bool {
        true
    }

    open spec fn from_spec(code: u8) -> Self {
        EIData::of_code(code)
    }
}

impl Default for EIData {
    fn default() -> (r: Self)
        ensures
            r == EIData::Invalid,
    {
        EIData::Invalid
    }
}

/// The identification block with its codes read.
#[derive(Debug, Clone, Copy, PartialEq, Eq)]
pub struct EIdentView {
    /// The signature of the format.
    pub magic_nums: MagicNums,
    /// The class of the object.
    pub class: EIClass,
    /// The byte order of the object.
    pub data: EIData,
    /// Version of the header format.
    pub version: u8,
    /// Operating system and ABI that the object is meant for.
    pub osabi: u8,
    /// Version of that ABI.
    pub abiversion: u8,
    /// Size of the identification block.
    pub nident: u8,
}

impl EIdentView {
    /// The signature of the format.
    pub fn magic_nums(&self) -> (r: MagicNums)
        ensures
            r == self.magic_nums,
    {
        self.magic_nums
    }

    /// The class of the object.
    pub fn class(&self) -> (r: EIClass)
        ensures
            r == self.class,
    {
        self.class
    }

    /// The byte order of the object.
    pub fn data(&self) -> (r: EIData)
        ensures
            r == self.data,
    {
        self.data
    }

    /// Version of the header format.
    pub fn version(&self) -> (r: u8)
        ensures
            r == self.version,
    {
        self.version
    }

    /// Operating system and ABI that the object is meant for.
    pub fn osabi(&self) -> (r: u8)
        ensures
            r == self.osabi,
    {
        self.osabi
    }

    /// Version of that ABI.
    pub fn abiversion(&self) -> (r: u8)
        ensures
            r == self.abiversion,
    {
        self.abiversion
    }

    /// Size of the identification block.
    pub fn nident(&self) -> (r: u8)
        ensures
            r == self.nident,
    {
        self.nident
    }
}

impl EIdentView {
    /// The view of an identification block.
    pub open spec fn of(ident: EIdent) -> EIdentView {
        EIdentView {
            magic_nums: MagicNums(ident.magic_nums),
            class: EIClass::of_code(ident.class),
            data: EIData::of_code(ident.data),
            version: ident.version,
            osabi: ident.osabi,
            abiversion: ident.abiversion,
            nident: ident.nident,
        }
    }
}

impl From<EIdent> for EIdentView {
    fn from(ident: EIdent) -> (r: Self)
        ensures
            r == EIdentView::of(ident),
    {
        EIdentView {
            magic_nums: MagicNums(ident.magic_nums),
            class: EIClass::from(ident.class),
            data: EIData::from(ident.data),
            version: ident.version,
            osabi: ident.osabi,
            abiversion: ident.abiversion,
            nident: ident.nident,
        }
    }
}

impl FromSpecImpl<EIdent> for EIdentView {
    open spec fn obeys_from_spec() -> bool {
        true
    }

    open spec fn from_spec(ident: EIdent) -> Self {
        EIdentView::of(ident)
    }
}

/// The type of an object file.
#[derive(Debug, Clone, Copy, PartialEq, Eq, Structural)]
pub enum EType {
    /// Code 0: no file type.
    NONE,
    /// Code 1: relocatable file.
    REL,
    /// Code 2: executable file.
    EXEC,
    /// Code 3: shared object file.
    DYN,
    /// Code 4: core file.
    CORE,
    /// Codes 0xfe00 to 0xfeff, kept for operating systems.
    OS(u16),
    /// Codes 0xff00 to 0xffff, kept for processors.
    Proc(u16),
    /// Any other code.
    Unknown(u16),
}

impl EType {
    /// The file type that a code stands for.
    pub open spec fn of_code(code: u16) -> EType {
        if code == 0 {
            EType::NONE
        } else if code == 1 {
            EType::REL
        } else if code == 2 {
            EType::EXEC
        } else if code == 3 {
            EType::DYN
        } else if code == 4 {
            EType::CORE
        } else if 0xfe00 <= code <= 0xfeff {
            EType::OS(code)
        } else if 0xff00 <= code {
            EType::Proc(code)
        } else {
            EType::Unknown(code)
        }
    }
}

impl EType {
    /// Whether the values of symbols have a reading in a file of this type:
    /// in a relocatable, an executable and a shared file they do.
    pub open spec fn reads_values(self) -> bool {
        self == EType::REL || self == EType::EXEC || self == EType::DYN
    }
}

impl From<u16> for EType {
    fn from(code: u16) -> (r: Self)
        ensures
            r == EType::of_code(code),
    {
        match code {
            0 => EType::NONE,
            1 => EType::REL,
            2 => EType::EXEC,
            3 => EType::DYN,
            4 => EType::CORE,
            x => {
                if x >= 0xff00 {
                    EType::Proc(x)
                } else if x >= 0xfe00 {
                    EType::OS(x)
                } else {
                    EType::Unknown(x)
                }
            },
        }
    }
}

impl FromSpecImpl<u16> for EType {
    open spec fn obeys_from_spec() -> bool {
        true
    }

    open spec fn from_spec(code: u16) -> Self {
        EType::of_code(code)
    }
}

impl Default for EType {
    fn default() -> (r: Self)
        ensures
            r == EType::NONE,
    {
        EType::NONE
    }
}

/// A 64-bit number that is an address or an offset.
#[derive(Debug, Clone, Copy, PartialEq, Eq, Structural)]
pub struct Hex64(pub u64);

/// The architecture that an object is made for.
#[derive(Debug, Clone, Copy, PartialEq, Eq, Structural)]
pub enum EMachine {
    /// Code 0: no machine.
    NONE,
    /// Code 2: SPARC.
    SPARC,
    /// Code 3: Intel 80386.
    _386,
    /// Code 7: Intel 80860.
    _860,
    /// Code 8: MIPS I.
    MIPS,
    /// Code 19: Intel 80960.
    _960,
    /// Code 20: PowerPC.
    PPC,
    /// Code 21: 64-bit PowerPC.
    PPC64,
    /// Code 50: Intel IA-64.
    IA64,
    /// Code 51: Stanford MIPS-X.
    MIPSX,
    /// Code 62: AMD x86-64.
    X86_64,
    /// Code 91: picoJava.
    PJ,
    /// Any other code.
    Other(u16),
}

impl EMachine {
    /// The architecture that a code stands for.
    pub open spec fn of_code(code: u16) -> EMachine {
        match code {
            0 => EMachine::NONE,
            2 => EMachine::SPARC,
            3 => EMachine::_386,
            7 => EMachine::_860,
            8 => EMachine::MIPS,
            19 => EMachine::_960,
            20 => EMachine::PPC,
            21 => EMachine::PPC64,
            50 => EMachine::IA64,
            51 => EMachine::MIPSX,
            62 => EMachine::X86_64,
            91 => EMachine::PJ,
            x => EMachine::Other(x),
        }
    }
}

impl From<u16> for EMachine {
    fn from(code: u16) -> (r: Self)
        ensures
            r == EMachine::of_code(code),
    {
        match code {
            0 => EMachine::NONE,
            2 => EMachine::SPARC,
            3 => EMachine::_386,
            7 => EMachine::_860,
            8 => EMachine::MIPS,
            19 => EMachine::_960,
            20 => EMachine::PPC,
            21 => EMachine::PPC64,
            50 => EMachine::IA64,
            51 => EMachine::MIPSX,
            62 => EMachine::X86_64,
            91 => EMachine::PJ,
            x => EMachine::Other(x),
        }
    }
}

impl FromSpecImpl<u16> for EMachine {
    open spec fn obeys_from_spec() -> bool {
        true
    }

    open spec fn from_spec(code: u16) -> Self {
        EMachine::of_code(code)
    }
}

impl Default for EMachine {
    fn default() -> (r: Self)
        ensures
            r == EMachine::NONE,
    {
        EMachine::NONE
    }
}

/// A section index, with the values that are no plain index told apart.
#[derive(Debug, Clone, Copy, PartialEq, Eq, PartialOrd, Structural)]
pub enum SID {
    /// 0: no section.
    Undef,
    /// 0xff00 to 0xff1f, kept for processors.
    Proc(u16),
    /// 0xff20 to 0xff3f, kept for operating systems.
    OS(u16),
    /// 0xfff1: the value that goes with it is absolute.
    Abs,
    /// 0xfff2: a common symbol, such as a variable that is not yet allocated.
    Common,
    /// 0xffff: the index is too large for its field and is found elsewhere.
    XIndex,
    /// Any other value: the index of a section.
    Normal(u16),
}

impl SID {
    /// What a 16-bit section index stands for.
    pub open spec fn of_code(val: u16) -> SID {
        if val == 0 {
            SID::Undef
        } else if val == 0xfff1 {
            SID::Abs
        } else if val == 0xfff2 {
            SID::Common
        } else if val == 0xffff {
            SID::XIndex
        } else if 0xff00 <= val <= 0xff1f {
            SID::Proc(val)
        } else if 0xff20 <= val <= 0xff3f {
            SID::OS(val)
        } else {
            SID::Normal(val)
        }
    }

    /// The 16-bit value of a section index.
    pub open spec fn code(self) -> usize {
        match self {
            SID::Undef => 0,
            SID::Proc(x) => x as usize,
            SID::OS(x) => x as usize,
            SID::Abs => 0xfff1,
            SID::Common => 0xfff2,
            SID::XIndex => 0xffff,
            SID::Normal(x) => x as usize,
        }
    }

    /// Reading a value and taking the value of what was read gives the value
    /// back.
    pub proof fn lemma_code_of_code(val: u16)
        ensures
            SID::of_code(val).code() == val,
    {
    }
}

impl From<u16> for SID {
    fn from(val: u16) -> (r: Self)
        ensures
            r == SID::of_code(val),
    {
        match val {
            0 => SID::Undef,
            0xfff1 => SID::Abs,
            0xfff2 => SID::Common,
            0xffff => SID::XIndex,
            x => {
                if x >= 0xff00 && x <= 0xff1f {
                    SID::Proc(x)
                } else if x >= 0xff20 && x <= 0xff3f {
                    SID::OS(x)
                } else {
                    SID::Normal(x)
                }
            },
        }
    }
}

impl FromSpecImpl<u16> for SID {
    open spec fn obeys_from_spec() -> bool {
        true
    }

    open spec fn from_spec(val: u16) -> Self {
        SID::of_code(val)
    }
}

impl From<SID> for usize {
    fn from(sid: SID) -> (r: usize)
        ensures
            r == sid.code(),
    {
        match sid {
            SID::Undef => 0,
            SID::Proc(x) => x as usize,
            SID::OS(x) => x as usize,
            SID::Abs => 0xfff1,
            SID::Common => 0xfff2,
            SID::XIndex => 0xffff,
            SID::Normal(x) => x as usize,
        }
    }
}

impl FromSpecImpl<SID> for usize {
    open spec fn obeys_from_spec() -> bool {
        true
    }

    open spec fn from_spec(sid: SID) -> usize {
        sid.code()
    }
}

/// The file header with its codes read.
#[derive(Debug, Clone, Copy, PartialEq, Eq)]
pub struct EHdrView {
    /// The identification block.
    pub ident: EIdentView,
    /// The type of the file.
    pub ty: EType,
    /// The architecture.
    pub machine: EMachine,
    /// Version of the format.
    pub version: u32,
    /// Virtual address at which execution starts.
    pub entry: Hex64,
    /// File offset of the program header table.
    pub prog_hdr_offset: Hex64,
    /// File offset of the section header table; 0 where there is none.
    pub section_hdr_offset: Hex64,
    /// Flags of the processor.
    pub flags: u32,
    /// Size of the file header.
    pub elf_hdr_sz: u16,
    /// Size of one entry of the program header table.
    pub prog_hdr_tab_ent_sz: u16,
    /// Number of entries of the program header table.
    pub prog_hdr_tab_ent_num: u16,
    /// Size of one entry of the section header table.
    pub section_hdr_ent_sz: u16,
    /// Number of entries of the section header table.
    pub section_hdr_ent_num: u16,
    /// Index of the section that holds the section names.
    pub section_str_tab_idx: SID,
}

impl EHdrView {
    /// The identification block.
    pub fn ident(&self) -> (r: &EIdentView)
        ensures
            *r == self.ident,
    {
        &self.ident
    }

    /// The type of the file.
    pub fn ty(&self) -> (r: &EType)
        ensures
            *r == self.ty,
    {
        &self.ty
    }

    /// The architecture.
    pub fn machine(&self) -> (r: &EMachine)
        ensures
            *r == self.machine,
    {
        &self.machine
    }

    /// Version of the format.
    pub fn version(&self) -> (r: &u32)
        ensures
            *r == self.version,
    {
        &self.version
    }

    /// Virtual address at which execution starts.
    pub fn entry(&self) -> (r: &Hex64)
        ensures
            *r == self.entry,
    {
        &self.entry
    }

    /// File offset of the program header table.
    pub fn prog_hdr_offset(&self) -> (r: &Hex64)
        ensures
            *r == self.prog_hdr_offset,
    {
        &self.prog_hdr_offset
    }

    /// File offset of the section header table; 0 where there is none.
    pub fn section_hdr_offset(&self) -> (r: &Hex64)
        ensures
            *r == self.section_hdr_offset,
    {
        &self.section_hdr_offset
    }

    /// Flags of the processor.
    pub fn flags(&self) -> (r: &u32)
        ensures
            *r == self.flags,
    {
        &self.flags
    }

    /// Size of the file header.
    pub fn elf_hdr_sz(&self) -> (r: &u16)
        ensures
            *r == self.elf_hdr_sz,
    {
        &self.elf_hdr_sz
    }

    /// Size of one entry of the program header table.
    pub fn prog_hdr_tab_ent_sz(&self) -> (r: &u16)
        ensures
            *r == self.prog_hdr_tab_ent_sz,
    {
        &self.prog_hdr_tab_ent_sz
    }

    /// Number of entries of the program header table.
    pub fn prog_hdr_tab_ent_num(&self) -> (r: &u16)
        ensures
            *r == self.prog_hdr_tab_ent_num,
    {
        &self.prog_hdr_tab_ent_num
    }

    /// Size of one entry of the section header table.
    pub fn section_hdr_ent_sz(&self) -> (r: &u16)
        ensures
            *r == self.section_hdr_ent_sz,
    {
        &self.section_hdr_ent_sz
    }

    /// Number of entries of the section header table.
    pub fn section_hdr_ent_num(&self) -> (r: &u16)
        ensures
            *r == self.section_hdr_ent_num,
    {
        &self.section_hdr_ent_num
    }

    /// Index of the section that holds the section names.
    pub fn section_str_tab_idx(&self) -> (r: &SID)
        ensures
            *r == self.section_str_tab_idx,
    {
        &self.section_str_tab_idx
    }
}

impl EHdrView {
    /// The view of a file header.
    pub open spec fn of(hdr: E64Hdr) -> EHdrView {
        EHdrView {
            ident: EIdentView::of(hdr.ident),
            ty: EType::of_code(hdr.ty),
            machine: EMachine::of_code(hdr.machine),
            version: hdr.version,
            entry: Hex64(hdr.entry),
            prog_hdr_offset: Hex64(hdr.phoff),
            section_hdr_offset: Hex64(hdr.shoff),
            flags: hdr.flags,
            elf_hdr_sz: hdr.ehsize,
            prog_hdr_tab_ent_sz: hdr.ph_tab_entry_size,
            prog_hdr_tab_ent_num: hdr.ph_tab_entry_num,
            section_hdr_ent_sz: hdr.sh_tab_entry_size,
            section_hdr_ent_num: hdr.sh_tab_entry_num,
            section_str_tab_idx: SID::of_code(hdr.sh_strtab_idx),
        }
    }
}

impl From<E64Hdr> for EHdrView {
    fn from(hdr: E64Hdr) -> (r: Self)
        ensures
            r == EHdrView::of(hdr),
    {
        EHdrView {
            ident: EIdentView::from(hdr.ident),
            ty: EType::from(hdr.ty),
            machine: EMachine::from(hdr.machine),
            version: hdr.version,
            entry: Hex64(hdr.entry),
            prog_hdr_offset: Hex64(hdr.phoff),
            section_hdr_offset: Hex64(hdr.shoff),
            flags: hdr.flags,
            elf_hdr_sz: hdr.ehsize,
            prog_hdr_tab_ent_sz: hdr.ph_tab_entry_size,
            prog_hdr_tab_ent_num: hdr.ph_tab_entry_num,
            section_hdr_ent_sz: hdr.sh_tab_entry_size,
            section_hdr_ent_num: hdr.sh_tab_entry_num,
            section_str_tab_idx: SID::from(hdr.sh_strtab_idx),
        }
    }
}

impl FromSpecImpl<E64Hdr> for EHdrView {
    open spec fn obeys_from_spec() -> bool {
        true
    }

    open spec fn from_spec(hdr: E64Hdr) -> Self {
        EHdrView::of(hdr)
    }
}

/// The sequence that holds `flag` where it is present, and nothing where it
/// is not.
pub open spec fn flag_if<T>(present: bool, flag: T) -> Seq<T> {
    if present {
        seq![flag]
    } else {
        Seq::empty()
    }
}

/// Appends `flag` to `flags` where it is present.
fn push_if<T>(flags: &mut Vec<T>, present: bool, flag: T)
    ensures
        final(flags)@ == old(flags)@ + flag_if(present, flag),
{
    if present {
        flags.push(flag);
    }
}

/// The type of a segment.
#[derive(Debug, Clone, Copy, PartialEq, Eq, Structural)]
pub enum PhType {
    /// Code 0: an entry to pass over.
    NULL,
    /// Code 1: a segment to load.
    LOAD,
    /// Code 2: what dynamic linking needs.
    DYNAMIC,
    /// Code 3: the path of the interpreter to run the file with.
    INTERP,
    /// Code 4: notes.
    NOTE,
    /// Code 5: kept and not defined.
    SHLIB,
    /// Code 6: the program header table itself.
    PHDR,
    /// Code 7: the model of thread-local storage.
    TLS,
    /// Codes 0x6000_0000 to 0x6fff_ffff, kept for operating systems.
    OS(u32),
    /// Codes 0x7000_0000 to 0x7fff_ffff, kept for processors.
    Proc(u32),
    /// Any other code.
    Unknown(u32),
}

impl PhType {
    /// The segment type that a code stands for.
    pub open spec fn of_code(code: u32) -> PhType {
        if code == 0 {
            PhType::NULL
        } else if code == 1 {
            PhType::LOAD
        } else if code == 2 {
            PhType::DYNAMIC
        } else if code == 3 {
            PhType::INTERP
        } else if code == 4 {
            PhType::NOTE
        } else if code == 5 {
            PhType::SHLIB
        } else if code == 6 {
            PhType::PHDR
        } else if code == 7 {
            PhType::TLS
        } else if 0x6000_0000 <= code <= 0x6fff_ffff {
            PhType::OS(code)
        } else if 0x7000_0000 <= code <= 0x7fff_ffff {
            PhType::Proc(code)
        } else {
            PhType::Unknown(code)
        }
    }
}

impl From<u32> for PhType {
    fn from(code: u32) -> (r: Self)
        ensures
            r == PhType::of_code(code),
    {
        match code {
            0 => PhType::NULL,
            1 => PhType::LOAD,
            2 => PhType::DYNAMIC,
            3 => PhType::INTERP,
            4 => PhType::NOTE,
            5 => PhType::SHLIB,
            6 => PhType::PHDR,
            7 => PhType::TLS,
            x => {
                if x >= 0x6000_0000 && x <= 0x6fff_ffff {
                    PhType::OS(x)
                } else if x >= 0x7000_0000 && x <= 0x7fff_ffff {
                    PhType::Proc(x)
                } else {
                    PhType::Unknown(x)
                }
            },
        }
    }
}

impl FromSpecImpl<u32> for PhType {
    open spec fn obeys_from_spec() -> bool {
        true
    }

    open spec fn from_spec(code: u32) -> Self {
        PhType::of_code(code)
    }
}

impl Default for PhType {
    fn default() -> (r: Self)
        ensures
            r == PhType::NULL,
    {
        PhType::NULL
    }
}

/// One permission of a segment, or what its flags keep for others to define.
#[derive(Debug, Clone, Copy, PartialEq, Eq, Structural)]
pub enum PFlagBit {
    /// Bit 0x1: the segment may be executed.
    X,
    /// Bit 0x2: the segment may be written.
    W,
    /// Bit 0x4: the segment may be read.
    R,
    /// The eight bits under the mask 0x0ff0_0000, kept for operating
    /// systems, where one of them is set.
    OS(u8),
    /// The four bits under the mask 0xf000_0000, kept for processors, where
    /// one of them is set.
    Proc(u8),
}

/// The flags of a segment, each that is set once, in the order of
/// [`PFlagBit`].
#[derive(Debug, Clone, PartialEq, Eq)]
pub struct PFLAGS(pub Vec<PFlagBit>);

impl View for PFLAGS {
    type V = Seq<PFlagBit>;

    open spec fn view(&self) -> Seq<PFlagBit> {
        self.0@
    }
}

impl PFLAGS {
    /// The flags that are set in the flag word of a segment.
    pub open spec fn of_bits(val: u32) -> Seq<PFlagBit> {
        flag_if(val & 0x1 != 0, PFlagBit::X) + flag_if(val & 0x2 != 0, PFlagBit::W) + flag_if(
            val & 0x4 != 0,
            PFlagBit::R,
        ) + flag_if(val & 0x0ff0_0000 != 0, PFlagBit::OS(((val & 0x0ff0_0000) >> 20) as u8))
            + flag_if(val & 0xf000_0000 != 0, PFlagBit::Proc(((val & 0xf000_0000) >> 28) as u8))
    }
}

impl From<u32> for PFLAGS {
    fn from(val: u32) -> (r: Self)
        ensures
            r@ == PFLAGS::of_bits(val),
    {
        let mut flags: Vec<PFlagBit> = Vec::new();
        push_if(&mut flags, val & 0x1 != 0, PFlagBit::X);
        push_if(&mut flags, val & 0x2 != 0, PFlagBit::W);
        push_if(&mut flags, val & 0x4 != 0, PFlagBit::R);
        push_if(
            &mut flags,
            val & 0x0ff0_0000 != 0,
            PFlagBit::OS(((val & 0x0ff0_0000) >> 20) as u8),
        );
        push_if(
            &mut flags,
            val & 0xf000_0000 != 0,
            PFlagBit::Proc(((val & 0xf000_0000) >> 28) as u8),
        );
        PFLAGS(flags)
    }
}

/// What `from` returns holds a vector, which no specification builds: the
/// `ensures` of `from` says what it is, by its view.
impl FromSpecImpl<u32> for PFLAGS {
    open spec fn obeys_from_spec() -> bool {
        false
    }

    open spec fn from_spec(val: u32) -> Self {
        arbitrary()
    }
}

/// A segment with its codes read, as specifications see it.
pub struct Segment {
    /// The type of the segment.
    pub ty: PhType,
    /// The flags that are set.
    pub flags: Seq<PFlagBit>,
    /// File offset of the segment.
    pub offset: u64,
    /// Virtual address of the segment in memory.
    pub vaddr: Hex64,
    /// Physical address, on systems that have use for one.
    pub paddr: Hex64,
    /// Size of the segment in the file.
    pub filesz: u64,
    /// Size of the segment in memory.
    pub memsz: u64,
    /// Alignment of the segment in the file and in memory.
    pub align: u64,
}

impl Segment {
    /// The segment that an entry of the program header table describes.
    pub open spec fn of(phdr: E64Phdr) -> Segment {
        Segment {
            ty: PhType::of_code(phdr.ty),
            flags: PFLAGS::of_bits(phdr.flags),
            offset: phdr.offset,
            vaddr: Hex64(phdr.vaddr),
            paddr: Hex64(phdr.paddr),
            filesz: phdr.filesz,
            memsz: phdr.memsz,
            align: phdr.align,
        }
    }
}

/// An entry of the program header table with its codes read.
#[derive(Debug, Clone, PartialEq, Eq)]
pub struct PHdrView {
    /// The type of the segment.
    pub ty: PhType,
    /// The flags that are set.
    pub flags: PFLAGS,
    /// File offset of the segment.
    pub offset: u64,
    /// Virtual address of the segment in memory.
    pub vaddr: Hex64,
    /// Physical address, on systems that have use for one.
    pub paddr: Hex64,
    /// Size of the segment in the file.
    pub filesz: u64,
    /// Size of the segment in memory.
    pub memsz: u64,
    /// Alignment of the segment in the file and in memory.
    pub align: u64,
}

impl PHdrView {
    /// The type of the segment.
    pub fn ty(&self) -> (r: &PhType)
        ensures
            *r == self.ty,
    {
        &self.ty
    }

    /// The flags that are set.
    pub fn flags(&self) -> (r: &PFLAGS)
        ensures
            *r == self.flags,
    {
        &self.flags
    }

    /// File offset of the segment.
    pub fn offset(&self) -> (r: &u64)
        ensures
            *r == self.offset,
    {
        &self.offset
    }

    /// Virtual address of the segment in memory.
    pub fn vaddr(&self) -> (r: &Hex64)
        ensures
            *r == self.vaddr,
    {
        &self.vaddr
    }

    /// Physical address, on systems that have use for one.
    pub fn paddr(&self) -> (r: &Hex64)
        ensures
            *r == self.paddr,
    {
        &self.paddr
    }

    /// Size of the segment in the file.
    pub fn filesz(&self) -> (r: &u64)
        ensures
            *r == self.filesz,
    {
        &self.filesz
    }

    /// Size of the segment in memory.
    pub fn memsz(&self) -> (r: &u64)
        ensures
            *r == self.memsz,
    {
        &self.memsz
    }

    /// Alignment of the segment in the file and in memory.
    pub fn align(&self) -> (r: &u64)
        ensures
            *r == self.align,
    {
        &self.align
    }
}

impl View for PHdrView {
    type V = Segment;

    open spec fn view(&self) -> Segment {
        Segment {
            ty: self.ty,
            flags: self.flags@,
            offset: self.offset,
            vaddr: self.vaddr,
            paddr: self.paddr,
            filesz: self.filesz,
            memsz: self.memsz,
            align: self.align,
        }
    }
}

impl From<E64Phdr> for PHdrView {
    fn from(phdr: E64Phdr) -> (r: Self)
        ensures
            r@ == Segment::of(phdr),
    {
        PHdrView {
            ty: PhType::from(phdr.ty),
            flags: PFLAGS::from(phdr.flags),
            offset: phdr.offset,
            vaddr: Hex64(phdr.vaddr),
            paddr: Hex64(phdr.paddr),
            filesz: phdr.filesz,
            memsz: phdr.memsz,
            align: phdr.align,
        }
    }
}

/// What `from` returns holds a vector, which no specification builds: the
/// `ensures` of `from` says what it is, by its view.
impl FromSpecImpl<E64Phdr> for PHdrView {
    open spec fn obeys_from_spec() -> bool {
        false
    }

    open spec fn from_spec(phdr: E64Phdr) -> Self {
        arbitrary()
    }
}

/// The entries of a program header table, where a file has one.
#[derive(Debug, Clone, PartialEq, Eq)]
pub struct E64PhEntries(pub Option<Vec<E64Phdr>>);

/// The type of a section.
#[derive(Debug, Clone, Copy, PartialEq, Eq, Structural)]
pub enum SHType {
    /// Code 0: the header describes no section.
    NULL,
    /// Code 1: what the program itself defines.
    PROGBITS,
    /// Code 2: a symbol table.
    SYMtab,
    /// Code 3: a string table.
    STRtab,
    /// Code 4: relocations that hold their addends.
    RELA,
    /// Code 5: a hash table of symbols.
    HASH,
    /// Code 6: what dynamic linking needs.
    DYNAMIC,
    /// Code 7: notes.
    NOTE,
    /// Code 8: a section that takes no room in the file.
    NOBITS,
    /// Code 9: relocations that hold no addends.
    REL,
    /// Code 10: kept and not defined.
    SHLIB,
    /// Code 11: pointers to the functions that start the program up.
    INITARRAY,
    /// Code 12: pointers to the functions that wind it down.
    FINIARRAY,
    /// Code 13: pointers to the functions that run before those that start
    /// it up.
    PREINITARRAY,
    /// Code 14: a group of sections.
    GROUP,
    /// Code 15: the section indices that are too large for a symbol table.
    SYMtabSHNDX,
    /// Codes 0x6000_0000 to 0x6fff_ffff, kept for operating systems.
    SPECOS(u32),
    /// Codes 0x7000_0000 to 0x7fff_ffff, kept for processors.
    SPECPROC(u32),
    /// Codes from 0x8000_0000, kept for programs.
    SPECUSER(u32),
    /// Any other code.
    Unknown(u32),
}

impl SHType {
    /// The section type that a code stands for.
    pub open spec fn of_code(val: u32) -> SHType {
        if 0x6000_0000 <= val <= 0x6fff_ffff {
            SHType::SPECOS(val)
        } else if 0x7000_0000 <= val <= 0x7fff_ffff {
            SHType::SPECPROC(val)
        } else if val >= 0x8000_0000 {
            SHType::SPECUSER(val)
        } else {
            match val {
                0 => SHType::NULL,
                1 => SHType::PROGBITS,
                2 => SHType::SYMtab,
                3 => SHType::STRtab,
                4 => SHType::RELA,
                5 => SHType::HASH,
                6 => SHType::DYNAMIC,
                7 => SHType::NOTE,
                8 => SHType::NOBITS,
                9 => SHType::REL,
                10 => SHType::SHLIB,
                11 => SHType::INITARRAY,
                12 => SHType::FINIARRAY,
                13 => SHType::PREINITARRAY,
                14 => SHType::GROUP,
                15 => SHType::SYMtabSHNDX,
                x => SHType::Unknown(x),
            }
        }
    }
}

impl From<u32> for SHType {
    fn from(val: u32) -> (r: Self)
        ensures
            r == SHType::of_code(val),
    {
        if val >= 0x6000_0000 && val <= 0x6fff_ffff {
            SHType::SPECOS(val)
        } else if val >= 0x7000_0000 && val <= 0x7fff_ffff {
            SHType::SPECPROC(val)
        } else if val >= 0x8000_0000 {
            SHType::SPECUSER(val)
        } else {
            match val {
                0 => SHType::NULL,
                1 => SHType::PROGBITS,
                2 => SHType::SYMtab,
                3 => SHType::STRtab,
                4 => SHType::RELA,
                5 => SHType::HASH,
                6 => SHType::DYNAMIC,
                7 => SHType::NOTE,
                8 => SHType::NOBITS,
                9 => SHType::REL,
                10 => SHType::SHLIB,
                11 => SHType::INITARRAY,
                12 => SHType::FINIARRAY,
                13 => SHType::PREINITARRAY,
                14 => SHType::GROUP,
                15 => SHType::SYMtabSHNDX,
                x => SHType::Unknown(x),
            }
        }
    }
}

impl FromSpecImpl<u32> for SHType {
    open spec fn obeys_from_spec() -> bool {
        true
    }

    open spec fn from_spec(val: u32) -> Self {
        SHType::of_code(val)
    }
}

/// One flag of a section, or what its flags keep for others to define.
#[derive(Debug, Clone, Copy, PartialEq, Eq, Structural)]
pub enum SHFlagBit {
    /// Bit 0x1: the section may be written at execution.
    Write,
    /// Bit 0x2: the section takes memory at execution.
    Alloc,
    /// Bit 0x4: the section holds instructions.
    ExecInstr,
    /// Bit 0x10: what the section holds may be merged.
    Merge,
    /// Bit 0x20: the section holds strings that end with a zero byte.
    StringS,
    /// Bit 0x40: the `info` field holds the index of a section.
    InfoLink,
    /// Bit 0x80: the order of the sections is to be kept in linking.
    LinkOrder,
    /// Bit 0x100: the section needs a treatment that belongs to an operating
    /// system.
    OsNonconforming,
    /// Bit 0x200: the section is a member of a group.
    Group,
    /// Bit 0x400: the section holds thread-local storage.
    TLS,
    /// The eight bits under the mask 0x0ff0_0000, kept for operating
    /// systems, where one of them is set.
    OS(u8),
    /// The four bits under the mask 0xf000_0000, kept for processors, where
    /// one of them is set.
    Proc(u8),
}

/// The flags of a section, each that is set once, in the order of
/// [`SHFlagBit`].
#[derive(Debug, Clone, PartialEq, Eq)]
pub struct SHFLAGS(pub Vec<SHFlagBit>);

impl View for SHFLAGS {
    type V = Seq<SHFlagBit>;

    open spec fn view(&self) -> Seq<SHFlagBit> {
        self.0@
    }
}

impl SHFLAGS {
    /// The flags that are set in the lower 32 bits of the flag word of a
    /// section: first those of one bit each, then what the word holds under
    /// the two masks that are kept for others, each moved down to the lowest
    /// bit, where it is not zero.
    pub open spec fn of_bits(val: u32) -> Seq<SHFlagBit> {
        flag_if(val & 0x1 != 0, SHFlagBit::Write) + flag_if(val & 0x2 != 0, SHFlagBit::Alloc)
            + flag_if(val & 0x4 != 0, SHFlagBit::ExecInstr) + flag_if(
            val & 0x10 != 0,
            SHFlagBit::Merge,
        ) + flag_if(val & 0x20 != 0, SHFlagBit::StringS) + flag_if(
            val & 0x40 != 0,
            SHFlagBit::InfoLink,
        ) + flag_if(val & 0x80 != 0, SHFlagBit::LinkOrder) + flag_if(
            val & 0x100 != 0,
            SHFlagBit::OsNonconforming,
        ) + flag_if(val & 0x200 != 0, SHFlagBit::Group) + flag_if(
            val & 0x400 != 0,
            SHFlagBit::TLS,
        ) + flag_if(val & 0x0ff0_0000 != 0, SHFlagBit::OS(((val & 0x0ff0_0000) >> 20) as u8))
            + flag_if(val & 0xf000_0000 != 0, SHFlagBit::Proc(((val & 0xf000_0000) >> 28) as u8))
    }
}

impl From<u32> for SHFLAGS {
    fn from(val: u32) -> (r: Self)
        ensures
            r@ == SHFLAGS::of_bits(val),
    {
        let mut flags: Vec<SHFlagBit> = Vec::new();
        push_if(&mut flags, val & 0x1 != 0, SHFlagBit::Write);
        push_if(&mut flags, val & 0x2 != 0, SHFlagBit::Alloc);
        push_if(&mut flags, val & 0x4 != 0, SHFlagBit::ExecInstr);
        push_if(&mut flags, val & 0x10 != 0, SHFlagBit::Merge);
        push_if(&mut flags, val & 0x20 != 0, SHFlagBit::StringS);
        push_if(&mut flags, val & 0x40 != 0, SHFlagBit::InfoLink);
        push_if(&mut flags, val & 0x80 != 0, SHFlagBit::LinkOrder);
        push_if(&mut flags, val & 0x100 != 0, SHFlagBit::OsNonconforming);
        push_if(&mut flags, val & 0x200 != 0, SHFlagBit::Group);
        push_if(&mut flags, val & 0x400 != 0, SHFlagBit::TLS);
        push_if(
            &mut flags,
            val & 0x0ff0_0000 != 0,
            SHFlagBit::OS(((val & 0x0ff0_0000) >> 20) as u8),
        );
        push_if(
            &mut flags,
            val & 0xf000_0000 != 0,
            SHFlagBit::Proc(((val & 0xf000_0000) >> 28) as u8),
        );
        SHFLAGS(flags)
    }
}

/// What `from` returns holds a vector, which no specification builds: the
/// `ensures` of `from` says what it is, by its view.
impl FromSpecImpl<u32> for SHFLAGS {
    open spec fn obeys_from_spec() -> bool {
        false
    }

    open spec fn from_spec(val: u32) -> Self {
        arbitrary()
    }
}

/// A section with its name found and its codes read, as specifications see
/// it.
pub struct Section {
    /// The name of the section.
    pub name: Seq<char>,
    /// Offset of the name in the table of section names.
    pub name_offset: u32,
    /// The type of the section.
    pub ty: SHType,
    /// The flags that are set.
    pub flags: Seq<SHFlagBit>,
    /// Virtual address of the section at execution.
    pub addr: Hex64,
    /// File offset of the section.
    pub offset: Hex64,
    /// Size of the section in bytes.
    pub size: u64,
    /// Index of another section; what it means depends on the type.
    pub link: u32,
    /// More about the section; what it means depends on the type.
    pub info: u32,
    /// Alignment of the section's address.
    pub addr_align: u64,
    /// Size of one entry, where the section is a table; 0 elsewhere.
    pub ent_size: u64,
}

impl Section {
    /// The section that a header describes, under the name given.
    pub open spec fn of(raw: E64Shdr, name: Seq<char>) -> Section {
        Section {
            name,
            name_offset: raw.name,
            ty: SHType::of_code(raw.ty),
            flags: SHFLAGS::of_bits((raw.flags & 0xffff_ffff) as u32),
            addr: Hex64(raw.addr),
            offset: Hex64(raw.offset),
            size: raw.size,
            link: raw.link,
            info: raw.info,
            addr_align: raw.addr_align,
            ent_size: raw.ent_size,
        }
    }
}

/// A section header with its name found and its codes read.
#[derive(Debug, Clone, PartialEq, Eq)]
pub struct SHdrView {
    /// The name of the section.
    pub name: String,
    /// Offset of the name in the table of section names.
    pub name_offset: u32,
    /// The type of the section.
    pub ty: SHType,
    /// The flags that are set.
    pub flags: SHFLAGS,
    /// Virtual address of the section at execution.
    pub addr: Hex64,
    /// File offset of the section.
    pub offset: Hex64,
    /// Size of the section in bytes.
    pub size: u64,
    /// Index of another section; what it means depends on the type.
    pub link: u32,
    /// More about the section; what it means depends on the type.
    pub info: u32,
    /// Alignment of the section's address.
    pub addr_align: u64,
    /// Size of one entry, where the section is a table; 0 elsewhere.
    pub ent_size: u64,
}

impl SHdrView {
    /// The name of the section.
    pub fn name(&self) -> (r: &String)
        ensures
            *r == self.name,
    {
        &self.name
    }

    /// Offset of the name in the table of section names.
    pub fn name_offset(&self) -> (r: &u32)
        ensures
            *r == self.name_offset,
    {
        &self.name_offset
    }

    /// The type of the section.
    pub fn ty(&self) -> (r: &SHType)
        ensures
            *r == self.ty,
    {
        &self.ty
    }

    /// The flags that are set.
    pub fn flags(&self) -> (r: &SHFLAGS)
        ensures
            *r == self.flags,
    {
        &self.flags
    }

    /// Virtual address of the section at execution.
    pub fn addr(&self) -> (r: &Hex64)
        ensures
            *r == self.addr,
    {
        &self.addr
    }

    /// File offset of the section.
    pub fn offset(&self) -> (r: &Hex64)
        ensures
            *r == self.offset,
    {
        &self.offset
    }

    /// Size of the section in bytes.
    pub fn size(&self) -> (r: &u64)
        ensures
            *r == self.size,
    {
        &self.size
    }

    /// Index of another section; what it means depends on the type.
    pub fn link(&self) -> (r: &u32)
        ensures
            *r == self.link,
    {
        &self.link
    }

    /// More about the section; what it means depends on the type.
    pub fn info(&self) -> (r: &u32)
        ensures
            *r == self.info,
    {
        &self.info
    }

    /// Alignment of the section's address.
    pub fn addr_align(&self) -> (r: &u64)
        ensures
            *r == self.addr_align,
    {
        &self.addr_align
    }

    /// Size of one entry, where the section is a table; 0 elsewhere.
    pub fn ent_size(&self) -> (r: &u64)
        ensures
            *r == self.ent_size,
    {
        &self.ent_size
    }
}

impl View for SHdrView {
    type V = Section;

    open spec fn view(&self) -> Section {
        Section {
            name: self.name@,
            name_offset: self.name_offset,
            ty: self.ty,
            flags: self.flags@,
            addr: self.addr,
            offset: self.offset,
            size: self.size,
            link: self.link,
            info: self.info,
            addr_align: self.addr_align,
            ent_size: self.ent_size,
        }
    }
}

impl SHdrView {
    /// The view of a section header, under the name given.
    pub fn new(entry: &E64Shdr, name: String) -> (r: SHdrView)
        ensures
            r@ == Section::of(*entry, name@),
    {
        SHdrView {
            name,
            name_offset: entry.name,
            ty: SHType::from(entry.ty),
            flags: SHFLAGS::from((entry.flags & 0xffff_ffff) as u32),
            addr: Hex64(entry.addr),
            offset: Hex64(entry.offset),
            size: entry.size,
            link: entry.link,
            info: entry.info,
            addr_align: entry.addr_align,
            ent_size: entry.ent_size,
        }
    }
}

/// Whether `i` is the index of the first of `sections` that bears `name`.
pub open spec fn is_first_named(sections: Seq<Section>, name: Seq<char>, i: int) -> bool {
    &&& 0 <= i < sections.len()
    &&& sections[i].name == name
    &&& forall|j: int| 0 <= j < i ==> (#[trigger] sections[j]).name != name
}

/// The index of the first of `sections` that bears `name`, where one does.
pub open spec fn first_named(sections: Seq<Section>, name: Seq<char>) -> Option<int> {
    if exists|i: int| is_first_named(sections, name, i) {
        Some(choose|i: int| is_first_named(sections, name, i))
    } else {
        None
    }
}

/// No second index is that of the first section of a name.
pub proof fn lemma_first_named_unique(sections: Seq<Section>, name: Seq<char>, i: int)
    requires
        is_first_named(sections, name, i),
    ensures
        first_named(sections, name) == Some(i),
{
    let j = choose|j: int| is_first_named(sections, name, j);
    if j < i {
        assert(sections[j].name != name);
    } else if i < j {
        assert(sections[i].name != name);
    }
}

/// Where no section bears a name, none is the first to bear it.
pub proof fn lemma_first_named_none(sections: Seq<Section>, name: Seq<char>)
    requires
        forall|j: int| 0 <= j < sections.len() ==> (#[trigger] sections[j]).name != name,
    ensures
        first_named(sections, name) is None,
{
    if exists|i: int| is_first_named(sections, name, i) {
        let i = choose|i: int| is_first_named(sections, name, i);
        assert(sections[i].name != name);
    }
}

/// The sections of a file, in the order of its section header table.
#[derive(Debug, Clone, PartialEq, Eq)]
pub struct SHEntries(pub Vec<SHdrView>);

impl View for SHEntries {
    type V = Seq<Section>;

    open spec fn view(&self) -> Seq<Section> {
        self.0@.map_values(|e: SHdrView| e@)
    }
}

impl SHEntries {
    /// The first section that bears `name`; `None` where none does.
    pub fn get(&self, name: &str) -> (r: Option<&SHdrView>)
        ensures
            match first_named(self@, name@) {
                Some(i) => r == Some(&self.0@[i]),
                None => r is None,
            },
    {
        let wanted = name.to_owned();
        let mut i: usize = 0;
        while i < self.0.len()
            invariant
                i <= self.0@.len(),
                wanted@ == name@,
                forall|j: int| 0 <= j < i ==> (#[trigger] self@[j]).name != name@,
            decreases self.0@.len() - i,
        {
            if self.0[i].name == wanted {
                proof {
                    lemma_first_named_unique(self@, name@, i as int);
                }
                return Some(&self.0[i]);
            }
            i += 1;
        }
        proof {
            lemma_first_named_none(self@, name@);
        }
        None
    }
}

/// How a symbol is bound: who sees it, and what happens where it is defined
/// twice.
#[derive(Debug, Clone, Copy, PartialEq, Eq, Structural)]
pub enum SymBinding {
    /// Code 0: seen in its own file only.
    Local,
    /// Code 1: seen in all the files that are linked.
    Global,
    /// Code 2: as a global symbol, and giving way to one.
    Weak,
    /// Codes 10 to 12, kept for operating systems.
    OS(u8),
    /// Any other code; 13 to 15 are kept for processors.
    Proc(u8),
}

impl SymBinding {
    /// The binding that the `info` byte of a symbol holds in its upper four
    /// bits.
    pub open spec fn of_info(info: u8) -> SymBinding {
        let val = info / 16;
        if val == 0 {
            SymBinding::Local
        } else if val == 1 {
            SymBinding::Global
        } else if val == 2 {
            SymBinding::Weak
        } else if 10 <= val <= 12 {
            SymBinding::OS(val)
        } else {
            SymBinding::Proc(val)
        }
    }

    /// Reads the binding in the `info` byte of a symbol.
    pub fn load_from_info(info: u8) -> (r: Self)
        ensures
            r == SymBinding::of_info(info),
    {
        let val = info >> 4;
        assert(info >> 4 == info / 16) by (bit_vector);
        match val {
            0 => Self::Local,
            1 => Self::Global,
            2 => Self::Weak,
            x => {
                if 10 <= x && x <= 12 {
                    Self::OS(x)
                } else {
                    Self::Proc(x)
                }
            },
        }
    }
}

/// What a symbol names.
#[derive(Debug, Clone, Copy, PartialEq, Eq, Structural)]
pub enum SymType {
    /// Code 0: not said.
    NoType,
    /// Code 1: data, such as a variable or an array.
    Object,
    /// Code 2: a function, or other code that runs.
    Func,
    /// Code 3: a section.
    Section,
    /// Code 4: the source file of the object.
    File,
    /// Code 5: a common block that is not yet allocated.
    Common,
    /// Code 6: something in thread-local storage.
    TLS,
    /// Codes 10 to 12, kept for operating systems.
    OS(u8),
    /// Any other code; 13 to 15 are kept for processors.
    Proc(u8),
}

impl SymType {
    /// The type that the `info` byte of a symbol holds in its lower four
    /// bits.
    pub open spec fn of_info(info: u8) -> SymType {
        let val = info % 16;
        if val == 0 {
            SymType::NoType
        } else if val == 1 {
            SymType::Object
        } else if val == 2 {
            SymType::Func
        } else if val == 3 {
            SymType::Section
        } else if val == 4 {
            SymType::File
        } else if val == 5 {
            SymType::Common
        } else if val == 6 {
            SymType::TLS
        } else if 10 <= val <= 12 {
            SymType::OS(val)
        } else {
            SymType::Proc(val)
        }
    }

    /// Reads the type in the `info` byte of a symbol.
    pub fn load_from_info(info: u8) -> (r: Self)
        ensures
            r == SymType::of_info(info),
    {
        let val = info & 0xf;
        assert(info & 0xf == info % 16) by (bit_vector);
        match val {
            0 => Self::NoType,
            1 => Self::Object,
            2 => Self::Func,
            3 => Self::Section,
            4 => Self::File,
            5 => Self::Common,
            6 => Self::TLS,
            x => {
                if 10 <= x && x <= 12 {
                    Self::OS(x)
                } else {
                    Self::Proc(x)
                }
            },
        }
    }
}

/// Who may refer to a symbol from outside of the component that defines it.
#[derive(Debug, Clone, Copy, PartialEq, Eq, Structural)]
pub enum SymVisi {
    /// Code 0: as the binding says.
    Default,
    /// Code 1: as a processor defines it.
    Internal,
    /// Code 2: nobody.
    Hidden,
    /// Code 3: anybody, and the component itself always means its own
    /// definition.
    Protected,
}

impl SymVisi {
    /// The visibility that the `other` byte of a symbol holds in its lower
    /// two bits.
    pub open spec fn of_other(other: u8) -> SymVisi {
        let val = other % 4;
        if val == 0 {
            SymVisi::Default
        } else if val == 1 {
            SymVisi::Internal
        } else if val == 2 {
            SymVisi::Hidden
        } else {
            SymVisi::Protected
        }
    }

    /// Reads the visibility in the `other` byte of a symbol.
    pub fn load_from_other(other: u8) -> (r: Self)
        ensures
            r == SymVisi::of_other(other),
    {
        let val = other & 0x3;
        assert(other & 0x3 == other % 4) by (bit_vector);
        match val {
            0 => Self::Default,
            1 => Self::Internal,
            2 => Self::Hidden,
            _ => Self::Protected,
        }
    }
}

/// The value of a symbol, by what it means in its file.
#[derive(Debug, Clone, Copy, PartialEq, Eq, Structural)]
pub enum SymValue {
    /// The alignment that a common symbol asks for.
    Alignment(u64),
    /// An offset from the start of the section that defines the symbol.
    SectionOffset(u64),
    /// A virtual address.
    VirAddr(Hex64),
}

impl SymValue {
    /// What the value of a symbol means. The type of the file decides, not
    /// that of the symbol: in a relocatable file the value of a common symbol
    /// is an alignment and every other value an offset into a section; in an
    /// executable and in a shared file every value is a virtual address; in
    /// a file of another type a value means nothing.
    pub open spec fn of(ety: EType, shndx: SID, value: u64) -> Option<SymValue> {
        match ety {
            EType::REL => if shndx == SID::Common {
                Some(SymValue::Alignment(value))
            } else {
                Some(SymValue::SectionOffset(value))
            },
            EType::EXEC | EType::DYN => Some(SymValue::VirAddr(Hex64(value))),
            _ => None,
        }
    }

    /// Reads the value of a symbol of section index `shndx`, in a file of
    /// type `ety`.
    pub fn load_from_value(ety: &EType, shndx: SID, value: u64) -> (r: Option<SymValue>)
        ensures
            r == SymValue::of(*ety, shndx, value),
            *ety == EType::REL && shndx == SID::Common ==> r == Some(SymValue::Alignment(value)),
            *ety == EType::REL && shndx != SID::Common ==> r == Some(
                SymValue::SectionOffset(value),
            ),
            *ety == EType::EXEC || *ety == EType::DYN ==> r == Some(
                SymValue::VirAddr(Hex64(value)),
            ),
            r is Some <==> ety.reads_values(),
    {
        match ety {
            EType::REL => {
                if matches!(shndx, SID::Common) {
                    Some(SymValue::Alignment(value))
                } else {
                    Some(SymValue::SectionOffset(value))
                }
            },
            EType::EXEC | EType::DYN => Some(SymValue::VirAddr(Hex64(value))),
            _ => None,
        }
    }
}

/// A symbol with its name found and its codes read, as specifications see
/// it.
pub struct Symbol {
    /// The name of the symbol.
    pub name: Seq<char>,
    /// How the symbol is bound.
    pub bind: SymBinding,
    /// What the symbol names.
    pub ty: SymType,
    /// Who may refer to the symbol.
    pub visi: SymVisi,
    /// The section that the symbol is defined in.
    pub shndx: SID,
    /// The value of the symbol.
    pub value: SymValue,
    /// Size of what the symbol names.
    pub size: u64,
}

impl Symbol {
    /// The symbol that an entry describes, in a file of type `ety` and with
    /// its name looked up in `names`; `None` where the value of a symbol
    /// means nothing in such a file. A name offset outside of `names` gives
    /// the empty name.
    pub open spec fn of(raw: E64Sym, names: Seq<u8>, ety: EType) -> Option<Symbol> {
        match SymValue::of(ety, SID::of_code(raw.shndx), raw.value) {
            Some(value) => Some(
                Symbol {
                    name: match str_at(names, raw.name as int) {
                        Some(s) => s,
                        None => Seq::empty(),
                    },
                    bind: SymBinding::of_info(raw.info),
                    ty: SymType::of_info(raw.info),
                    visi: SymVisi::of_other(raw.other),
                    shndx: SID::of_code(raw.shndx),
                    value,
                    size: raw.size,
                },
            ),
            None => None,
        }
    }
}

/// An entry of a symbol table with its name found and its codes read.
#[derive(Debug, Clone, PartialEq, Eq)]
pub struct SymView {
    /// The name of the symbol.
    pub name: String,
    /// How the symbol is bound.
    pub bind: SymBinding,
    /// What the symbol names.
    pub ty: SymType,
    /// Who may refer to the symbol.
    pub visi: SymVisi,
    /// The section that the symbol is defined in.
    pub shndx: SID,
    /// The value of the symbol.
    pub value: SymValue,
    /// Size of what the symbol names.
    pub size: u64,
}

impl SymView {
    /// The name of the symbol.
    pub fn name(&self) -> (r: &String)
        ensures
            *r == self.name,
    {
        &self.name
    }

    /// How the symbol is bound.
    pub fn bind(&self) -> (r: &SymBinding)
        ensures
            *r == self.bind,
    {
        &self.bind
    }

    /// What the symbol names.
    pub fn ty(&self) -> (r: &SymType)
        ensures
            *r == self.ty,
    {
        &self.ty
    }

    /// Who may refer to the symbol.
    pub fn visi(&self) -> (r: &SymVisi)
        ensures
            *r == self.visi,
    {
        &self.visi
    }

    /// The section that the symbol is defined in.
    pub fn shndx(&self) -> (r: &SID)
        ensures
            *r == self.shndx,
    {
        &self.shndx
    }

    /// The value of the symbol.
    pub fn value(&self) -> (r: &SymValue)
        ensures
            *r == self.value,
    {
        &self.value
    }

    /// Size of what the symbol names.
    pub fn size(&self) -> (r: &u64)
        ensures
            *r == self.size,
    {
        &self.size
    }
}

impl View for SymView {
    type V = Symbol;

    open spec fn view(&self) -> Symbol {
        Symbol {
            name: self.name@,
            bind: self.bind,
            ty: self.ty,
            visi: self.visi,
            shndx: self.shndx,
            value: self.value,
            size: self.size,
        }
    }
}

/// The symbols of one symbol table, in the order of its entries.
#[derive(Debug, Clone, PartialEq, Eq)]
pub struct SymTab(pub Vec<SymView>);

impl View for SymTab {
    type V = Seq<Symbol>;

    open spec fn view(&self) -> Seq<Symbol> {
        self.0@.map_values(|e: SymView| e@)
    }
}

} // verus!
