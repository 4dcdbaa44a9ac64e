//! A whole object file: what its bytes decode to, and the functions that
//! decode them.
//!
//! Decoding goes in one order, each step reading what the one before it
//! found: the identification block, the file header, the section header
//! table with the section names, then the string tables and the symbol tables
//! that are found by the names of their sections.

use crate::data::{str_at, E64Hdr, E64Shdr, E64Sym, EIdent, StrTab, E64SHDR_SIZE, E64SYM_SIZE};
use crate::data::{E64HDR_SIZE, EIDENT_SIZE};
use crate::error::ElfError;
use crate::view::{first_named, lemma_first_named_none, EHdrView, EIClass, EIdentView, EType};
use crate::view::{SHEntries, SHdrView, SID};
use crate::view::{Section, SymBinding, SymTab, SymType, SymValue, SymView, SymVisi, Symbol};
use vstd::prelude::*;
use vstd::slice::{slice_subrange, slice_to_vec};

verus! {

/// Whether `r` is what `expected` asks for: the same error, or a value with
/// the view that is expected.
pub open spec fn yields<T: View>(r: Result<T, ElfError>, expected: Result<T::V, ElfError>) -> bool {
    match expected {
        Ok(v) => r matches Ok(t) && t@ == v,
        Err(e) => r matches Err(x) && x == e,
    }
}

/// The bytes of `bytes` from `offset` on, `size` of them; an error where
/// they do not all lie in `bytes`.
pub open spec fn range_of(bytes: Seq<u8>, offset: u64, size: u64) -> Result<Seq<u8>, ElfError> {
    if offset + size <= bytes.len() {
        Ok(bytes.subrange(offset as int, offset + size))
    } else {
        Err(ElfError::OutOfBounds)
    }
}

/// Entry `i` of the section header table that `hdr` announces: the table
/// starts at the offset that `hdr` gives, and each entry takes the entry
/// size that `hdr` gives.
pub open spec fn raw_section(bytes: Seq<u8>, hdr: E64Hdr, i: int) -> E64Shdr {
    E64Shdr::decoded(
        bytes.subrange(
            hdr.shoff + i * hdr.sh_tab_entry_size,
            hdr.shoff + (i + 1) * hdr.sh_tab_entry_size,
        ),
    )
}

/// The section header table that `hdr` announces. It is an error for the
/// table to reach beyond the bytes, and, where it has entries, for an entry
/// to be smaller than a section header.
pub open spec fn raw_sections(bytes: Seq<u8>, hdr: E64Hdr) -> Result<Seq<E64Shdr>, ElfError> {
    if hdr.shoff + hdr.sh_tab_entry_num * hdr.sh_tab_entry_size > bytes.len() {
        Err(ElfError::OutOfBounds)
    } else if hdr.sh_tab_entry_num > 0 && hdr.sh_tab_entry_size < E64SHDR_SIZE {
        Err(ElfError::ShortBuffer)
    } else {
        Ok(Seq::new(hdr.sh_tab_entry_num as nat, |i: int| raw_section(bytes, hdr, i)))
    }
}

/// The index of the section that holds the section names. Where the field
/// of the file header holds the escape value, the index stands in the `link`
/// field of the first section header; elsewhere the field is the index.
pub open spec fn name_table_index(idx: SID, raw: Seq<E64Shdr>) -> int {
    if idx == SID::XIndex {
        raw[0].link as int
    } else {
        idx.code() as int
    }
}

/// The sections that section headers describe, each with the name that
/// starts at its name offset in `names`. It is an error for a name offset
/// to lie outside of `names`.
pub open spec fn resolve(raw: Seq<E64Shdr>, names: Seq<u8>) -> Result<Seq<Section>, ElfError> {
    if forall|i: int| 0 <= i < raw.len() ==> (#[trigger] raw[i]).name < names.len() {
        Ok(Seq::new(raw.len(), |i: int| Section::of(raw[i], str_at(names, raw[i].name as int)->0)))
    } else {
        Err(ElfError::OutOfBounds)
    }
}

/// The section names and the sections of a file. A file whose header gives
/// 0 for the offset of the section header table has neither. It is an error
/// for the index of the section that holds the names to be that of no
/// section, and for that section to reach beyond the bytes.
pub open spec fn sections_of(bytes: Seq<u8>, hdr: E64Hdr) -> Result<
    (Seq<u8>, Seq<Section>),
    ElfError,
> {
    if hdr.shoff == 0 {
        Ok((Seq::empty(), Seq::empty()))
    } else {
        match raw_sections(bytes, hdr) {
            Err(e) => Err(e),
            Ok(raw) => {
                let k = name_table_index(SID::of_code(hdr.sh_strtab_idx), raw);
                if k >= raw.len() {
                    Err(ElfError::OutOfBounds)
                } else {
                    match range_of(bytes, raw[k].offset, raw[k].size) {
                        Err(e) => Err(e),
                        Ok(names) => match resolve(raw, names) {
                            Err(e) => Err(e),
                            Ok(sections) => Ok((names, sections)),
                        },
                    }
                }
            },
        }
    }
}

/// The string table that the first section of the name `name` holds; the
/// empty table where no section bears the name. It is an error for the
/// section to reach beyond the bytes.
pub open spec fn strtab_of(bytes: Seq<u8>, sections: Seq<Section>, name: Seq<char>) -> Result<
    Seq<u8>,
    ElfError,
> {
    match first_named(sections, name) {
        Some(i) => range_of(bytes, sections[i].offset.0, sections[i].size),
        None => Ok(Seq::empty()),
    }
}

/// Entry `j` of the symbol table that starts at `offset`.
pub open spec fn raw_symbol(bytes: Seq<u8>, offset: u64, j: int) -> E64Sym {
    E64Sym::decoded(bytes.subrange(offset + j * E64SYM_SIZE, offset + (j + 1) * E64SYM_SIZE))
}

/// The symbols of the first section of the name `name`, with their names
/// looked up in `strtab` and their values read as a file of type `ety` has
/// them; no symbols where no section bears the name. The section holds as
/// many symbols as its size holds whole entries. It is an error, in this
/// order, for the section to declare an entry size that is not the size of
/// a symbol entry, for the entries to reach beyond the bytes, and for the
/// section to hold a symbol while the values of symbols have no reading in
/// a file of this type.
pub open spec fn symbols_of(
    bytes: Seq<u8>,
    sections: Seq<Section>,
    name: Seq<char>,
    strtab: Seq<u8>,
    ety: EType,
) -> Result<Seq<Symbol>, ElfError> {
    match first_named(sections, name) {
        None => Ok(Seq::empty()),
        Some(i) => {
            let sh = sections[i];
            let num = sh.size as int / E64SYM_SIZE as int;
            if sh.ent_size != E64SYM_SIZE {
                Err(ElfError::EntrySizeMismatch(sh.ent_size))
            } else if sh.offset.0 + num * E64SYM_SIZE > bytes.len() {
                Err(ElfError::OutOfBounds)
            } else if num > 0 && !ety.reads_values() {
                Err(ElfError::UnsupportedFileType)
            } else {
                Ok(
                    Seq::new(
                        num as nat,
                        |j: int| Symbol::of(raw_symbol(bytes, sh.offset.0, j), strtab, ety)->0,
                    ),
                )
            }
        },
    }
}

/// A decoded object file, as specifications see it.
pub struct Object {
    /// The file header.
    pub ehdr: EHdrView,
    /// The table of section names.
    pub shstrtab: Seq<u8>,
    /// The sections, in the order of the section header table.
    pub sections: Seq<Section>,
    /// The string table of the section `.strtab`.
    pub strtab: Seq<u8>,
    /// The symbols of the section `.symtab`, named by `.strtab`.
    pub symtab: Seq<Symbol>,
    /// The symbols of the section `.dynsym`, named by `.dynstr`.
    pub dynsym: Seq<Symbol>,
}

/// What the bytes of a 64-bit object file decode to. The first error on the
/// way is the error of the whole: there is no object with a part left out.
pub open spec fn load64_of(bytes: Seq<u8>) -> Result<Object, ElfError> {
    if bytes.len() < E64HDR_SIZE {
        Err(ElfError::ShortBuffer)
    } else {
        let hdr = E64Hdr::decoded(bytes);
        let ety = EType::of_code(hdr.ty);
        match sections_of(bytes, hdr) {
            Err(e) => Err(e),
            Ok((shstrtab, sections)) => match strtab_of(bytes, sections, ".strtab"@) {
                Err(e) => Err(e),
                Ok(strtab) => match symbols_of(bytes, sections, ".symtab"@, strtab, ety) {
                    Err(e) => Err(e),
                    Ok(symtab) => match strtab_of(bytes, sections, ".dynstr"@) {
                        Err(e) => Err(e),
                        Ok(dynstr) => match symbols_of(bytes, sections, ".dynsym"@, dynstr, ety) {
                            Err(e) => Err(e),
                            Ok(dynsym) => Ok(
                                Object {
                                    ehdr: EHdrView::of(hdr),
                                    shstrtab,
                                    sections,
                                    strtab,
                                    symtab,
                                    dynsym,
                                },
                            ),
                        },
                    },
                },
            },
        }
    }
}

/// What the bytes of an object file decode to. The identification block
/// comes first and decides by its class: a 64-bit object is decoded, and
/// every other class is an error that carries the class byte.
pub open spec fn load_of(bytes: Seq<u8>) -> Result<Object, ElfError> {
    if bytes.len() < EIDENT_SIZE {
        Err(ElfError::ShortBuffer)
    } else if EIdent::decoded(bytes).class == 2 {
        load64_of(bytes)
    } else {
        Err(ElfError::UnsupportedClass(EIdent::decoded(bytes).class))
    }
}

impl Object {
    /// Whether every section bears the name that starts at its name offset
    /// in the table of section names.
    pub open spec fn names_resolved(self) -> bool {
        forall|i: int|
            0 <= i < self.sections.len() ==> str_at(
                self.shstrtab,
                (#[trigger] self.sections[i]).name_offset as int,
            ) == Some(self.sections[i].name)
    }

    /// Whether the value of `sym` is read as the type of the file asks: in a
    /// relocatable file the value of a symbol whose section index is that of
    /// common symbols is an alignment, and every other value an offset into
    /// a section; in an executable and in a shared file every value is a
    /// virtual address.
    pub open spec fn value_by_type(self, sym: Symbol) -> bool {
        &&& self.ehdr.ty == EType::REL && sym.shndx == SID::Common ==> sym.value is Alignment
        &&& self.ehdr.ty == EType::REL && sym.shndx != SID::Common ==> sym.value is SectionOffset
        &&& self.ehdr.ty == EType::EXEC || self.ehdr.ty == EType::DYN ==> sym.value is VirAddr
    }

    /// Whether the parts of the object fit together: the sections bear their
    /// names, the values of all symbols are read as the type of the file
    /// asks, and there are symbols only where that type gives their values a
    /// reading.
    pub open spec fn well_formed(self) -> bool {
        &&& self.names_resolved()
        &&& forall|j: int|
            0 <= j < self.symtab.len() ==> self.value_by_type(#[trigger] self.symtab[j])
        &&& forall|j: int|
            0 <= j < self.dynsym.len() ==> self.value_by_type(#[trigger] self.dynsym[j])
        &&& self.symtab.len() > 0 || self.dynsym.len() > 0 ==> self.ehdr.ty.reads_values()
    }

    /// Whether the object has no sections, no section names, no strings and
    /// no symbols.
    pub open spec fn is_bare(self) -> bool {
        &&& self.sections.len() == 0
        &&& self.shstrtab.len() == 0
        &&& self.strtab.len() == 0
        &&& self.symtab.len() == 0
        &&& self.dynsym.len() == 0
    }
}

/// The index of the section that holds the section names, by the field `idx`
/// of the file header: where the field holds the escape value 0xffff, the
/// `link` field of the first section, and elsewhere the field itself.
pub open spec fn name_section_index(idx: u16, sections: Seq<Section>) -> int {
    if idx == 0xffff {
        sections[0].link as int
    } else {
        idx as int
    }
}

/// Whether the section names of `o` are the bytes of the section that the
/// field `idx` of the file header sends to.
pub open spec fn names_from_section(bytes: Seq<u8>, idx: u16, o: Object) -> bool {
    let k = name_section_index(idx, o.sections);
    &&& 0 <= k < o.sections.len()
    &&& o.shstrtab == bytes.subrange(
        o.sections[k].offset.0 as int,
        o.sections[k].offset.0 + o.sections[k].size,
    )
}

/// A file whose header gives 0 for the offset of the section header table
/// decodes, and has no sections, no section names, no strings and no symbols.
pub proof fn lemma_no_section_table(bytes: Seq<u8>)
    requires
        bytes.len() >= E64HDR_SIZE,
        E64Hdr::decoded(bytes).shoff == 0,
    ensures
        load64_of(bytes) matches Ok(o) && o.is_bare(),
{
    let none = Seq::<Section>::empty();
    lemma_first_named_none(none, ".strtab"@);
    lemma_first_named_none(none, ".symtab"@);
    lemma_first_named_none(none, ".dynstr"@);
    lemma_first_named_none(none, ".dynsym"@);
}

/// Every section of a decoded file bears the name that starts at its name
/// offset in the table of section names, the section that holds the table
/// among them.
pub proof fn lemma_section_names(bytes: Seq<u8>)
    requires
        load64_of(bytes) is Ok,
    ensures
        load64_of(bytes)->Ok_0.names_resolved(),
{
    let o = load64_of(bytes)->Ok_0;
    let raw = raw_sections(bytes, E64Hdr::decoded(bytes))->Ok_0;
    assert forall|i: int| 0 <= i < o.sections.len() implies str_at(
        o.shstrtab,
        (#[trigger] o.sections[i]).name_offset as int,
    ) == Some(o.sections[i].name) by {
        assert(o.sections[i] == Section::of(raw[i], str_at(o.shstrtab, raw[i].name as int)->0));
        assert(raw[i].name < o.shstrtab.len());
    }
}

/// The section names of a decoded file that has a section header table are
/// the bytes of one of its sections. Where the file header holds the escape
/// value 0xffff for the index of that section, the index is the `link` field
/// of the first section, and the section of index 0xffff is not looked at;
/// elsewhere the index is what the file header holds.
pub proof fn lemma_name_section(bytes: Seq<u8>)
    requires
        load64_of(bytes) is Ok,
        E64Hdr::decoded(bytes).shoff != 0,
    ensures
        names_from_section(bytes, E64Hdr::decoded(bytes).sh_strtab_idx, load64_of(bytes)->Ok_0),
{
    let hdr = E64Hdr::decoded(bytes);
    let raw = raw_sections(bytes, hdr)->Ok_0;
    SID::lemma_code_of_code(hdr.sh_strtab_idx);
    let k = name_table_index(SID::of_code(hdr.sh_strtab_idx), raw);
    assert(0 <= k < raw.len());
    assert(k == name_section_index(hdr.sh_strtab_idx, load64_of(bytes)->Ok_0.sections));
}

/// The value of every symbol of a table is read by the type of the file: in
/// a relocatable file the value of a symbol whose section index is that of
/// common symbols is an alignment, and every other value an offset into a
/// section; in an executable and in a shared file every value is a virtual
/// address. A table of a file of another type holds no symbol.
pub proof fn lemma_symbol_values(
    bytes: Seq<u8>,
    sections: Seq<Section>,
    name: Seq<char>,
    strtab: Seq<u8>,
    ety: EType,
    j: int,
)
    requires
        symbols_of(bytes, sections, name, strtab, ety) is Ok,
        0 <= j < symbols_of(bytes, sections, name, strtab, ety)->Ok_0.len(),
    ensures
        ({
            let sym = symbols_of(bytes, sections, name, strtab, ety)->Ok_0[j];
            &&& ety == EType::REL && sym.shndx == SID::Common ==> sym.value is Alignment
            &&& ety == EType::REL && sym.shndx != SID::Common ==> sym.value is SectionOffset
            &&& ety == EType::EXEC || ety == EType::DYN ==> sym.value is VirAddr
            &&& ety.reads_values()
        }),
{
}

/// The parts of a decoded file fit together.
pub proof fn lemma_well_formed(bytes: Seq<u8>)
    requires
        load64_of(bytes) is Ok,
    ensures
        load64_of(bytes)->Ok_0.well_formed(),
{
    let o = load64_of(bytes)->Ok_0;
    let hdr = E64Hdr::decoded(bytes);
    let ety = EType::of_code(hdr.ty);
    let sections = sections_of(bytes, hdr)->Ok_0.1;
    let dynstr = strtab_of(bytes, sections, ".dynstr"@)->Ok_0;
    lemma_section_names(bytes);
    assert forall|j: int| 0 <= j < o.symtab.len() implies o.value_by_type(
        #[trigger] o.symtab[j],
    ) by {
        lemma_symbol_values(bytes, sections, ".symtab"@, o.strtab, ety, j);
    }
    assert forall|j: int| 0 <= j < o.dynsym.len() implies o.value_by_type(
        #[trigger] o.dynsym[j],
    ) by {
        lemma_symbol_values(bytes, sections, ".dynsym"@, dynstr, ety, j);
    }
}

/// Where no section bears the name of a symbol table, the table is empty,
/// and that is no error, whatever the file holds else.
pub proof fn lemma_missing_symbol_section(
    bytes: Seq<u8>,
    sections: Seq<Section>,
    name: Seq<char>,
    strtab: Seq<u8>,
    ety: EType,
)
    requires
        first_named(sections, name) is None,
    ensures
        symbols_of(bytes, sections, name, strtab, ety) == Ok::<Seq<Symbol>, ElfError>(
            Seq::empty(),
        ),
{
}

/// A file without a section `.dynsym` has no dynamic symbols, and the
/// missing section is in the way of nothing: the symbols of `.symtab` are
/// decoded as they are with it, and where the file does not decode, the
/// error is that of an earlier step.
pub proof fn lemma_missing_dynsym(bytes: Seq<u8>)
    requires
        bytes.len() >= E64HDR_SIZE,
        sections_of(bytes, E64Hdr::decoded(bytes)) is Ok,
        first_named(sections_of(bytes, E64Hdr::decoded(bytes))->Ok_0.1, ".dynsym"@) is None,
    ensures
        ({
            let hdr = E64Hdr::decoded(bytes);
            let ety = EType::of_code(hdr.ty);
            let sections = sections_of(bytes, hdr)->Ok_0.1;
            let strtab = strtab_of(bytes, sections, ".strtab"@);
            let symtab = symbols_of(bytes, sections, ".symtab"@, strtab->Ok_0, ety);
            let dynstr = strtab_of(bytes, sections, ".dynstr"@);
            match load64_of(bytes) {
                Ok(o) => o.dynsym.len() == 0 && symtab == Ok::<Seq<Symbol>, ElfError>(o.symtab),
                Err(e) => strtab == Err::<Seq<u8>, ElfError>(e) || (strtab is Ok && symtab == Err::<
                    Seq<Symbol>,
                    ElfError,
                >(e)) || (strtab is Ok && symtab is Ok && dynstr == Err::<Seq<u8>, ElfError>(e)),
            }
        }),
{
}

/// Copies `size` bytes of `bytes` from `offset` on.
pub fn read_range(bytes: &[u8], offset: u64, size: u64) -> (r: Result<Vec<u8>, ElfError>)
    ensures
        yields(r, range_of(bytes@, offset, size)),
{
    let len = bytes.len() as u64;
    if offset > len || size > len - offset {
        return Err(ElfError::OutOfBounds);
    }
    let from = offset as usize;
    let to = (offset + size) as usize;
    Ok(slice_to_vec(slice_subrange(bytes, from, to)))
}

/// Decodes the section header table that `hdr` announces.
pub fn load_raw_sections(bytes: &[u8], hdr: &E64Hdr) -> (r: Result<Vec<E64Shdr>, ElfError>)
    ensures
        yields(r, raw_sections(bytes@, *hdr)),
{
    let len = bytes.len() as u64;
    let entry_size = hdr.sh_tab_entry_size as u64;
    let entry_num = hdr.sh_tab_entry_num as u64;
    assert(entry_num * entry_size <= 0xffff * 0xffff) by (nonlinear_arith)
        requires
            entry_num <= 0xffff,
            entry_size <= 0xffff,
    ;
    if hdr.shoff > len || entry_num * entry_size > len - hdr.shoff {
        return Err(ElfError::OutOfBounds);
    }
    if entry_num > 0 && entry_size < E64SHDR_SIZE as u64 {
        return Err(ElfError::ShortBuffer);
    }
    let mut entries: Vec<E64Shdr> = Vec::new();
    let mut i: u64 = 0;
    while i < entry_num
        invariant
            i <= entry_num,
            len == bytes@.len() <= usize::MAX,
            entry_size == hdr.sh_tab_entry_size,
            entry_num == hdr.sh_tab_entry_num,
            entry_num > 0 ==> entry_size >= E64SHDR_SIZE,
            hdr.shoff + entry_num * entry_size <= len,
            entries@ =~= Seq::new(i as nat, |j: int| raw_section(bytes@, *hdr, j)),
        decreases entry_num - i,
    {
        assert(i * entry_size + entry_size <= entry_num * entry_size) by (nonlinear_arith)
            requires
                i < entry_num,
        ;
        assert((i + 1) * entry_size == i * entry_size + entry_size) by (nonlinear_arith);
        let start = (hdr.shoff + i * entry_size) as usize;
        let end = (hdr.shoff + i * entry_size + entry_size) as usize;
        let entry = E64Shdr::decode(slice_subrange(bytes, start, end))?;
        entries.push(entry);
        i += 1;
    }
    Ok(entries)
}

/// Gives each section header its name from `names` and reads its codes.
pub fn resolve_sections(raw: &Vec<E64Shdr>, names: &StrTab) -> (r: Result<SHEntries, ElfError>)
    ensures
        yields(r, resolve(raw@, names@)),
{
    let mut views: Vec<SHdrView> = Vec::new();
    let mut i: usize = 0;
    while i < raw.len()
        invariant
            i <= raw@.len(),
            views@.len() == i,
            forall|j: int| 0 <= j < i ==> (#[trigger] raw@[j]).name < names@.len(),
            forall|j: int|
                0 <= j < i ==> (#[trigger] views@[j])@ == Section::of(
                    raw@[j],
                    str_at(names@, raw@[j].name as int)->0,
                ),
        decreases raw@.len() - i,
    {
        match names.get(raw[i].name as usize) {
            Some(name) => {
                views.push(SHdrView::new(&raw[i], name));
            },
            None => {
                return Err(ElfError::OutOfBounds);
            },
        }
        i += 1;
    }
    let entries = SHEntries(views);
    assert(entries@ =~= resolve(raw@, names@)->Ok_0);
    Ok(entries)
}

/// Decodes the section header table that `hdr` announces, finds the section
/// that holds the section names, and gives each section its name.
pub fn load_sections(bytes: &[u8], hdr: &E64Hdr) -> (r: Result<(StrTab, SHEntries), ElfError>)
    ensures
        match sections_of(bytes@, *hdr) {
            Ok((names, sections)) => r matches Ok((t, e)) && t@ == names && e@ == sections,
            Err(x) => r matches Err(y) && y == x,
        },
{
    if hdr.shoff == 0 {
        let entries = SHEntries(Vec::new());
        return Ok((StrTab::empty(), entries));
    }
    let raw = load_raw_sections(bytes, hdr)?;
    let idx = SID::from(hdr.sh_strtab_idx);
    let k: usize = if matches!(idx, SID::XIndex) {
        if raw.len() == 0 {
            return Err(ElfError::OutOfBounds);
        }
        raw[0].link as usize
    } else {
        usize::from(idx)
    };
    if k >= raw.len() {
        return Err(ElfError::OutOfBounds);
    }
    let names = StrTab::new(read_range(bytes, raw[k].offset, raw[k].size)?);
    let entries = resolve_sections(&raw, &names)?;
    Ok((names, entries))
}

/// Reads the string table that the first section of the name `secname`
/// holds.
pub fn load_strtab_from_sh(shentries: &SHEntries, secname: &str, bytes: &[u8]) -> (r: Result<
    StrTab,
    ElfError,
>)
    ensures
        yields(r, strtab_of(bytes@, shentries@, secname@)),
{
    match shentries.get(secname) {
        Some(sh) => Ok(StrTab::new(read_range(bytes, sh.offset.0, sh.size)?)),
        None => Ok(StrTab::empty()),
    }
}

/// Decodes the symbol table that the first section of the name `secname`
/// holds, with the names of `strtab`, for a file of type `ety`.
pub fn load_sym64tab_from_sh(
    shentries: &SHEntries,
    secname: &str,
    strtab: &StrTab,
    ety: &EType,
    bytes: &[u8],
) -> (r: Result<SymTab, ElfError>)
    ensures
        yields(r, symbols_of(bytes@, shentries@, secname@, strtab@, *ety)),
{
    let sh = match shentries.get(secname) {
        Some(sh) => sh,
        None => {
            let none = SymTab(Vec::new());
            assert(none@ =~= Seq::<Symbol>::empty());
            return Ok(none);
        },
    };
    let sym_sz = E64SYM_SIZE as u64;
    if sh.ent_size != sym_sz {
        return Err(ElfError::EntrySizeMismatch(sh.ent_size));
    }
    let sym_num = sh.size / sym_sz;
    let sec_off = sh.offset.0;
    let len = bytes.len() as u64;
    if sec_off > len || sym_num * sym_sz > len - sec_off {
        return Err(ElfError::OutOfBounds);
    }
    let ghost want = symbols_of(bytes@, shentries@, secname@, strtab@, *ety);
    let ghost all = Seq::new(
        sym_num as nat,
        |j: int| Symbol::of(raw_symbol(bytes@, sec_off, j), strtab@, *ety)->0,
    );
    let mut symentries: Vec<SymView> = Vec::new();
    let mut i: u64 = 0;
    while i < sym_num
        invariant
            i <= sym_num,
            len == bytes@.len() <= usize::MAX,
            sym_sz == E64SYM_SIZE,
            sec_off + sym_num * sym_sz <= len,
            i > 0 ==> ety.reads_values(),
            want == symbols_of(bytes@, shentries@, secname@, strtab@, *ety),
            sym_num > 0 && !ety.reads_values() ==> want == Err::<Seq<Symbol>, ElfError>(
                ElfError::UnsupportedFileType,
            ),
            symentries@.len() == i,
            forall|j: int|
                0 <= j < i ==> Some((#[trigger] symentries@[j])@) == Symbol::of(
                    raw_symbol(bytes@, sec_off, j),
                    strtab@,
                    *ety,
                ),
        decreases sym_num - i,
    {
        let start = (sec_off + i * sym_sz) as usize;
        let end = (sec_off + i * sym_sz + sym_sz) as usize;
        let sym = E64Sym::decode(slice_subrange(bytes, start, end))?;
        let name = match strtab.get(sym.name as usize) {
            Some(name) => name,
            None => String::new(),
        };
        let shndx = SID::from(sym.shndx);
        let value = match SymValue::load_from_value(ety, shndx, sym.value) {
            Some(value) => value,
            None => {
                return Err(ElfError::UnsupportedFileType);
            },
        };
        symentries.push(
            SymView {
                name,
                bind: SymBinding::load_from_info(sym.info),
                ty: SymType::load_from_info(sym.info),
                visi: SymVisi::load_from_other(sym.other),
                shndx,
                value,
                size: sym.size,
            },
        );
        i += 1;
    }
    let table = SymTab(symentries);
    assert(table@ =~= all);
    Ok(table)
}

/// A decoded object file. It is made in one piece by [`Elf::load`] and does
/// not change.
#[derive(Debug, Clone, PartialEq, Eq)]
pub struct Elf {
    ehdr: EHdrView,
    shstrtab: StrTab,
    shentries: SHEntries,
    strtab: StrTab,
    symtab: SymTab,
    dynsym: SymTab,
}

impl View for Elf {
    type V = Object;

    closed spec fn view(&self) -> Object {
        Object {
            ehdr: self.ehdr,
            shstrtab: self.shstrtab@,
            sections: self.shentries@,
            strtab: self.strtab@,
            symtab: self.symtab@,
            dynsym: self.dynsym@,
        }
    }
}

impl Elf {
    /// Decodes an object file from its bytes: those of a file that is mapped
    /// into memory, or of any other buffer.
    pub fn load(bytes: &[u8]) -> (r: Result<Self, ElfError>)
        ensures
            yields(r, load_of(bytes@)),
            r is Ok ==> r->Ok_0@.well_formed(),
            r is Ok && E64Hdr::decoded(bytes@).shoff != 0 ==> names_from_section(
                bytes@,
                E64Hdr::decoded(bytes@).sh_strtab_idx,
                r->Ok_0@,
            ),
            bytes@.len() >= E64HDR_SIZE && EIdent::decoded(bytes@).class == 2 && E64Hdr::decoded(
                bytes@,
            ).shoff == 0 ==> r is Ok && r->Ok_0@.is_bare(),
    {
        let eident = EIdent::decode(bytes)?;
        let eidentview = EIdentView::from(eident);
        match eidentview.class {
            EIClass::Bit32 => Self::load_32_from_mmap(bytes),
            EIClass::Bit64 => Self::load_64_from_mmap(bytes),
            _ => Err(ElfError::UnsupportedClass(eident.class)),
        }
    }

    /// Decodes a 64-bit object file from its bytes.
    pub fn load_64_from_mmap(bytes: &[u8]) -> (r: Result<Self, ElfError>)
        ensures
            yields(r, load64_of(bytes@)),
            r is Ok ==> r->Ok_0@.well_formed(),
            r is Ok && E64Hdr::decoded(bytes@).shoff != 0 ==> names_from_section(
                bytes@,
                E64Hdr::decoded(bytes@).sh_strtab_idx,
                r->Ok_0@,
            ),
            bytes@.len() >= E64HDR_SIZE && E64Hdr::decoded(bytes@).shoff == 0 ==> r is Ok
                && r->Ok_0@.is_bare(),
    {
        proof {
            if load64_of(bytes@) is Ok {
                lemma_well_formed(bytes@);
                if E64Hdr::decoded(bytes@).shoff != 0 {
                    lemma_name_section(bytes@);
                }
            }
            if bytes@.len() >= E64HDR_SIZE && E64Hdr::decoded(bytes@).shoff == 0 {
                lemma_no_section_table(bytes@);
            }
        }
        let hdr = E64Hdr::decode(bytes)?;
        let ehdr = EHdrView::from(hdr);
        let (shstrtab, shentries) = load_sections(bytes, &hdr)?;
        let strtab = load_strtab_from_sh(&shentries, ".strtab", bytes)?;
        let symtab = load_sym64tab_from_sh(&shentries, ".symtab", &strtab, &ehdr.ty, bytes)?;
        let dynstr = load_strtab_from_sh(&shentries, ".dynstr", bytes)?;
        let dynsym = load_sym64tab_from_sh(&shentries, ".dynsym", &dynstr, &ehdr.ty, bytes)?;
        Ok(Self { ehdr, shstrtab, shentries, strtab, symtab, dynsym })
    }

    /// Refuses a 32-bit object file: that class is known and not decoded.
    pub fn load_32_from_mmap(_bytes: &[u8]) -> (r: Result<Self, ElfError>)
        ensures
            r matches Err(e) && e == ElfError::UnsupportedClass(1),
    {
        Err(ElfError::UnsupportedClass(1))
    }

    /// The file header.
    pub fn ehdr(&self) -> (r: &EHdrView)
        ensures
            *r == self@.ehdr,
    {
        &self.ehdr
    }

    /// The table of section names.
    pub fn shstrtab(&self) -> (r: &StrTab)
        ensures
            r@ == self@.shstrtab,
    {
        &self.shstrtab
    }

    /// The sections, in the order of the section header table.
    pub fn shentries(&self) -> (r: &SHEntries)
        ensures
            r@ == self@.sections,
    {
        &self.shentries
    }

    /// The string table of the section `.strtab`.
    pub fn strtab(&self) -> (r: &StrTab)
        ensures
            r@ == self@.strtab,
    {
        &self.strtab
    }

    /// The symbols of the section `.symtab`.
    pub fn symtab(&self) -> (r: &SymTab)
        ensures
            r@ == self@.symtab,
    {
        &self.symtab
    }

    /// The symbols of the section `.dynsym`.
    pub fn dynsym(&self) -> (r: &SymTab)
        ensures
            r@ == self@.dynsym,
    {
        &self.dynsym
    }
}

} // verus!
