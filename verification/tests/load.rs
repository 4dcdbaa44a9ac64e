use elflib::ctrl::{load_raw_sections, load_sections, load_strtab_from_sh, load_sym64tab_from_sh};
use elflib::ctrl::{read_range, resolve_sections};
use elflib::data::{E64Hdr, E64Shdr, StrTab};
use elflib::view::{EIClass, EType, Hex64, SHEntries, SHFlagBit, SHType, SHdrView, SymBinding};
use elflib::view::{SymTab, SymType, SymValue, SymVisi, SHFLAGS, SID};
use elflib::{Elf, ElfError};

const ET_REL: u16 = 1;
const ET_EXEC: u16 = 2;
const ET_DYN: u16 = 3;
const ET_CORE: u16 = 4;

const SHT_PROGBITS: u32 = 1;
const SHT_SYMTAB: u32 = 2;
const SHT_STRTAB: u32 = 3;

struct Sec {
    name: &'static str,
    ty: u32,
    flags: u64,
    data: Vec<u8>,
    link: u32,
    ent_size: u64,
}

fn sec(name: &'static str, ty: u32, data: Vec<u8>) -> Sec {
    Sec { name, ty, flags: 0, data, link: 0, ent_size: 0 }
}

fn symbol_section(name: &'static str, data: Vec<u8>, ent_size: u64) -> Sec {
    Sec { name, ty: SHT_SYMTAB, flags: 0, data, link: 0, ent_size }
}

fn header(class: u8, ty: u16, shoff: u64, shentsize: u16, shnum: u16, shstrndx: u16) -> Vec<u8> {
    let mut b = vec![0x7f, b'E', b'L', b'F', class, 1, 1, 0, 0, 0, 0, 0, 0, 0, 0, 16];
    b.extend_from_slice(&ty.to_le_bytes());
    b.extend_from_slice(&62u16.to_le_bytes());
    b.extend_from_slice(&1u32.to_le_bytes());
    b.extend_from_slice(&0u64.to_le_bytes());
    b.extend_from_slice(&0u64.to_le_bytes());
    b.extend_from_slice(&shoff.to_le_bytes());
    b.extend_from_slice(&0u32.to_le_bytes());
    b.extend_from_slice(&64u16.to_le_bytes());
    b.extend_from_slice(&0u16.to_le_bytes());
    b.extend_from_slice(&0u16.to_le_bytes());
    b.extend_from_slice(&shentsize.to_le_bytes());
    b.extend_from_slice(&shnum.to_le_bytes());
    b.extend_from_slice(&shstrndx.to_le_bytes());
    b
}

fn shdr(name: u32, s: &Sec, offset: u64) -> Vec<u8> {
    let mut b = Vec::new();
    b.extend_from_slice(&name.to_le_bytes());
    b.extend_from_slice(&s.ty.to_le_bytes());
    b.extend_from_slice(&s.flags.to_le_bytes());
    b.extend_from_slice(&0u64.to_le_bytes());
    b.extend_from_slice(&offset.to_le_bytes());
    b.extend_from_slice(&(s.data.len() as u64).to_le_bytes());
    b.extend_from_slice(&s.link.to_le_bytes());
    b.extend_from_slice(&0u32.to_le_bytes());
    b.extend_from_slice(&1u64.to_le_bytes());
    b.extend_from_slice(&s.ent_size.to_le_bytes());
    b
}

fn sym(name: u32, info: u8, other: u8, shndx: u16, value: u64, size: u64) -> Vec<u8> {
    let mut b = Vec::new();
    b.extend_from_slice(&name.to_le_bytes());
    b.push(info);
    b.push(other);
    b.extend_from_slice(&shndx.to_le_bytes());
    b.extend_from_slice(&value.to_le_bytes());
    b.extend_from_slice(&size.to_le_bytes());
    b
}

/// A file of the sections given, behind an empty first section and before
/// the section of the section names: the header, what the sections hold, the
/// section names, then the section header table, `stride` bytes an entry.
fn image_with(ty: u16, secs: &[Sec], stride: u16) -> Vec<u8> {
    let mut names = vec![0u8];
    let mut name_offsets = Vec::new();
    for s in secs {
        name_offsets.push(names.len() as u32);
        names.extend_from_slice(s.name.as_bytes());
        names.push(0);
    }
    let shstrtab_name = names.len() as u32;
    names.extend_from_slice(b".shstrtab\0");

    let mut body = Vec::new();
    let mut offsets = Vec::new();
    for s in secs {
        offsets.push(64 + body.len() as u64);
        body.extend_from_slice(&s.data);
    }
    let names_offset = 64 + body.len() as u64;
    body.extend_from_slice(&names);
    let shoff = 64 + body.len() as u64;

    let shnum = secs.len() as u16 + 2;
    let mut img = header(2, ty, shoff, stride, shnum, shnum - 1);
    img.extend_from_slice(&body);
    let mut entries = vec![vec![0u8; 64]];
    for (i, s) in secs.iter().enumerate() {
        entries.push(shdr(name_offsets[i], s, offsets[i]));
    }
    entries.push(shdr(shstrtab_name, &sec(".shstrtab", SHT_STRTAB, names), names_offset));
    for e in entries {
        img.extend_from_slice(&e);
        img.extend_from_slice(&vec![0xeeu8; stride as usize - 64]);
    }
    img
}

fn image(ty: u16, secs: &[Sec]) -> Vec<u8> {
    image_with(ty, secs, 64)
}

fn put16(img: &mut [u8], at: usize, v: u16) {
    img[at..at + 2].copy_from_slice(&v.to_le_bytes());
}

fn put32(img: &mut [u8], at: usize, v: u32) {
    img[at..at + 4].copy_from_slice(&v.to_le_bytes());
}

fn put64(img: &mut [u8], at: usize, v: u64) {
    img[at..at + 8].copy_from_slice(&v.to_le_bytes());
}

fn shoff_of(img: &[u8]) -> usize {
    E64Hdr::decode(img).unwrap().shoff() as usize
}

const E_TYPE: usize = 16;
const E_SHOFF: usize = 40;
const E_SHENTSIZE: usize = 58;
const E_SHNUM: usize = 60;
const E_SHSTRNDX: usize = 62;
const SH_NAME: usize = 0;
const SH_OFFSET: usize = 24;
const SH_SIZE: usize = 32;
const SH_LINK: usize = 40;

fn strings() -> Vec<u8> {
    b"\0main\0counter\0buf\0".to_vec()
}

fn symbols() -> Vec<u8> {
    let mut b = sym(0, 0, 0, 0, 0, 0);
    b.extend(sym(1, 0x12, 0x00, 1, 0x10, 0x20));
    b.extend(sym(6, 0x11, 0x02, 0xfff2, 8, 4));
    b.extend(sym(14, 0x21, 0x03, 0xfff1, 0x99, 0));
    b.extend(sym(400, 0xa3, 0x01, 2, 0x30, 0));
    b
}

fn with_symbols(ty: u16) -> Vec<u8> {
    image(
        ty,
        &[
            sec(".text", SHT_PROGBITS, vec![0x90; 32]),
            symbol_section(".symtab", symbols(), 24),
            sec(".strtab", SHT_STRTAB, strings()),
        ],
    )
}

#[test]
fn it_works() {
    let elf = Elf::load(&with_symbols(ET_REL)).unwrap();
    println!("{:#?}", elf);
}

#[test]
fn minimal_relocatable_file() {
    let img = image(
        ET_REL,
        &[Sec {
            name: ".text",
            ty: SHT_PROGBITS,
            flags: 0x6,
            data: vec![0xc3; 5],
            link: 0,
            ent_size: 0,
        }],
    );
    let elf = Elf::load(&img).unwrap();
    assert_eq!(*elf.ehdr().ty(), EType::REL);
    assert_eq!(elf.ehdr().ident().class(), EIClass::Bit64);
    let hdr = E64Hdr::decode(&img).unwrap();
    assert_eq!(hdr.sh_tab_entry_num(), 3);
    assert_eq!(elf.shentries().0.len(), hdr.sh_tab_entry_num() as usize);
    assert_eq!(*elf.symtab(), SymTab(vec![]));
    assert_eq!(*elf.dynsym(), SymTab(vec![]));
    assert_eq!(*elf.strtab(), StrTab::empty());
    let text = &elf.shentries().0[1];
    assert_eq!(text.name(), ".text");
    assert_eq!(&img[64 + 5 + 1..64 + 5 + 6], b".text");
    assert_eq!(*text.name_offset(), 1);
    assert_eq!(*text.ty(), SHType::PROGBITS);
    assert_eq!(*text.flags(), SHFLAGS(vec![SHFlagBit::Alloc, SHFlagBit::ExecInstr]));
    assert_eq!(*text.offset(), Hex64(64));
    assert_eq!(*text.size(), 5);
    assert_eq!(elf.shentries().0[0].name(), "");
    assert_eq!(*elf.shentries().0[0].ty(), SHType::NULL);
    assert_eq!(elf.shentries().0[2].name(), ".shstrtab");
    assert_eq!(*elf.shentries().0[2].ty(), SHType::STRtab);
    assert_eq!(*elf.shstrtab(), StrTab::new(b"\0.text\0.shstrtab\0".to_vec()));
}

#[test]
fn load_goes_by_the_class() {
    let img = with_symbols(ET_REL);
    assert_eq!(Elf::load(&img), Elf::load_64_from_mmap(&img));
    assert!(Elf::load(&img).is_ok());
}

#[test]
fn other_classes_are_refused_with_their_byte() {
    for class in [0u8, 1, 3, 7, 255] {
        let mut img = with_symbols(ET_REL);
        img[4] = class;
        assert_eq!(Elf::load(&img), Err(ElfError::UnsupportedClass(class)));
        assert_eq!(Elf::load(&img[..16]), Err(ElfError::UnsupportedClass(class)));
    }
}

#[test]
fn the_32_bit_class_is_not_decoded() {
    let img = header(1, ET_REL, 0, 0, 0, 0);
    assert_eq!(Elf::load(&img), Err(ElfError::UnsupportedClass(1)));
    assert_eq!(Elf::load_32_from_mmap(&img), Err(ElfError::UnsupportedClass(1)));
}

#[test]
fn a_file_shorter_than_its_records_is_refused() {
    let img = with_symbols(ET_REL);
    assert_eq!(Elf::load(&[]), Err(ElfError::ShortBuffer));
    assert_eq!(Elf::load(&img[..15]), Err(ElfError::ShortBuffer));
    assert_eq!(Elf::load(&img[..16]), Err(ElfError::ShortBuffer));
    assert_eq!(Elf::load(&img[..63]), Err(ElfError::ShortBuffer));
    assert_eq!(Elf::load_64_from_mmap(&img[..63]), Err(ElfError::ShortBuffer));
    assert_eq!(Elf::load_64_from_mmap(&[]), Err(ElfError::ShortBuffer));
}

#[test]
fn no_section_table_means_no_sections() {
    for ty in [0, ET_REL, ET_EXEC, ET_DYN, ET_CORE, 0xfe00, 0xffff, 77] {
        let mut img = header(2, ty, 0, 64, 5, 4);
        img.extend_from_slice(&[0xab; 100]);
        let elf = Elf::load(&img).unwrap();
        assert_eq!(*elf.ehdr().ty(), EType::from(ty));
        assert_eq!(*elf.shentries(), SHEntries(vec![]));
        assert_eq!(*elf.shstrtab(), StrTab::empty());
        assert_eq!(*elf.strtab(), StrTab::empty());
        assert_eq!(*elf.symtab(), SymTab(vec![]));
        assert_eq!(*elf.dynsym(), SymTab(vec![]));
    }
    let bare = header(2, ET_EXEC, 0, 0, 0, 0);
    assert_eq!(bare.len(), 64);
    assert!(Elf::load(&bare).is_ok());
}

#[test]
fn every_section_bears_the_name_at_its_offset() {
    let elf = Elf::load(&with_symbols(ET_REL)).unwrap();
    let names: Vec<&str> = elf.shentries().0.iter().map(|s| s.name().as_str()).collect();
    assert_eq!(names, vec!["", ".text", ".symtab", ".strtab", ".shstrtab"]);
    for s in elf.shentries().0.iter() {
        assert_eq!(elf.shstrtab().get(*s.name_offset() as usize), Some(s.name().clone()));
    }
    let own = elf.shentries().get(".shstrtab").unwrap();
    assert_eq!(*own.name_offset(), 23);
    assert_eq!(elf.shstrtab().get(23), Some(".shstrtab".to_string()));
}

#[test]
fn section_names_may_share_their_bytes() {
    let mut img = image(ET_REL, &[sec(".text", SHT_PROGBITS, vec![1, 2, 3])]);
    let shoff = shoff_of(&img);
    put32(&mut img, shoff + 64 + SH_NAME, 2);
    let elf = Elf::load(&img).unwrap();
    assert_eq!(elf.shentries().0[1].name(), "text");
    assert_eq!(*elf.shentries().0[1].name_offset(), 2);
}

#[test]
fn the_escape_value_sends_to_the_link_of_the_first_section() {
    let mut img = with_symbols(ET_REL);
    let plain = Elf::load(&img).unwrap();
    let shoff = shoff_of(&img);
    put16(&mut img, E_SHSTRNDX, 0xffff);
    put32(&mut img, shoff + SH_LINK, 4);
    let elf = Elf::load(&img).unwrap();
    assert_eq!(*elf.ehdr().section_str_tab_idx(), SID::XIndex);
    assert_eq!(*elf.shentries().0[0].link(), 4);
    assert_eq!(elf.shstrtab(), plain.shstrtab());
    let used = &elf.shentries().0[4];
    let from = used.offset().0 as usize;
    assert_eq!(*elf.shstrtab(), StrTab::new(img[from..from + *used.size() as usize].to_vec()));
    assert_eq!(elf.shentries().0[1].name(), ".text");
}

#[test]
fn the_escape_value_may_name_another_section() {
    let other = b"\0one\0xxxxtwo\0".to_vec();
    let mut img = image(ET_REL, &[sec(".names2", SHT_STRTAB, other.clone())]);
    let shoff = shoff_of(&img);
    put16(&mut img, E_SHSTRNDX, 0xffff);
    put32(&mut img, shoff + SH_LINK, 1);
    let elf = Elf::load(&img).unwrap();
    assert_eq!(*elf.shstrtab(), StrTab::new(other));
    let names: Vec<&str> = elf.shentries().0.iter().map(|s| s.name().as_str()).collect();
    assert_eq!(names, vec!["", "one", "two"]);
    put32(&mut img, shoff + SH_LINK, 0);
    assert_eq!(Elf::load(&img), Err(ElfError::OutOfBounds));
}

#[test]
fn the_escape_value_needs_a_section_to_send_to() {
    let mut img = with_symbols(ET_REL);
    let shoff = shoff_of(&img);
    put16(&mut img, E_SHSTRNDX, 0xffff);
    put32(&mut img, shoff + SH_LINK, 5);
    assert_eq!(Elf::load(&img), Err(ElfError::OutOfBounds));
    put32(&mut img, shoff + SH_LINK, 0xffff);
    assert_eq!(Elf::load(&img), Err(ElfError::OutOfBounds));
    put16(&mut img, E_SHNUM, 0);
    assert_eq!(Elf::load(&img), Err(ElfError::OutOfBounds));
}

#[test]
fn the_name_section_must_be_a_section() {
    let mut img = with_symbols(ET_REL);
    put16(&mut img, E_SHSTRNDX, 5);
    assert_eq!(Elf::load(&img), Err(ElfError::OutOfBounds));
    put16(&mut img, E_SHSTRNDX, 0xfff1);
    assert_eq!(Elf::load(&img), Err(ElfError::OutOfBounds));
    put16(&mut img, E_SHSTRNDX, 4);
    put16(&mut img, E_SHNUM, 0);
    assert_eq!(Elf::load(&img), Err(ElfError::OutOfBounds));
}

#[test]
fn the_section_table_must_lie_in_the_file() {
    let img = with_symbols(ET_REL);
    let len = img.len();
    assert_eq!(Elf::load(&img[..len - 1]), Err(ElfError::OutOfBounds));
    let mut far = img.clone();
    put64(&mut far, E_SHOFF, len as u64 + 1);
    assert_eq!(Elf::load(&far), Err(ElfError::OutOfBounds));
    put64(&mut far, E_SHOFF, u64::MAX);
    assert_eq!(Elf::load(&far), Err(ElfError::OutOfBounds));
    let mut more = img.clone();
    put16(&mut more, E_SHNUM, 6);
    assert_eq!(Elf::load(&more), Err(ElfError::OutOfBounds));
}

#[test]
fn a_section_table_entry_must_hold_a_header() {
    let mut img = with_symbols(ET_REL);
    put16(&mut img, E_SHENTSIZE, 63);
    assert_eq!(Elf::load(&img), Err(ElfError::ShortBuffer));
    put16(&mut img, E_SHENTSIZE, 0);
    assert_eq!(Elf::load(&img), Err(ElfError::ShortBuffer));
}

#[test]
fn a_section_table_entry_may_be_larger_than_a_header() {
    let secs = || {
        vec![
            sec(".text", SHT_PROGBITS, vec![0x90; 32]),
            symbol_section(".symtab", symbols(), 24),
            sec(".strtab", SHT_STRTAB, strings()),
        ]
    };
    let wide = Elf::load(&image_with(ET_REL, &secs(), 80)).unwrap();
    let plain = Elf::load(&image_with(ET_REL, &secs(), 64)).unwrap();
    assert_eq!(*wide.ehdr().section_hdr_ent_sz(), 80);
    assert_eq!(wide.shentries(), plain.shentries());
    assert_eq!(wide.symtab(), plain.symtab());
}

#[test]
fn the_section_names_must_lie_in_the_file() {
    let mut img = with_symbols(ET_REL);
    let shoff = shoff_of(&img);
    let len = img.len() as u64;
    put64(&mut img, shoff + 4 * 64 + SH_SIZE, len);
    assert_eq!(Elf::load(&img), Err(ElfError::OutOfBounds));
    put64(&mut img, shoff + 4 * 64 + SH_SIZE, 1);
    put64(&mut img, shoff + 4 * 64 + SH_OFFSET, len);
    assert_eq!(Elf::load(&img), Err(ElfError::OutOfBounds));
    put64(&mut img, shoff + 4 * 64 + SH_OFFSET, u64::MAX);
    assert_eq!(Elf::load(&img), Err(ElfError::OutOfBounds));
}

#[test]
fn a_section_name_must_start_in_the_names() {
    let mut img = with_symbols(ET_REL);
    let shoff = shoff_of(&img);
    put32(&mut img, shoff + 2 * 64 + SH_NAME, 33);
    assert_eq!(Elf::load(&img), Err(ElfError::OutOfBounds));
    put32(&mut img, shoff + 2 * 64 + SH_NAME, 32);
    let elf = Elf::load(&img).unwrap();
    assert_eq!(elf.shentries().0[2].name(), "");
}

#[test]
fn symbols_of_a_relocatable_file() {
    let elf = Elf::load(&with_symbols(ET_REL)).unwrap();
    assert_eq!(*elf.strtab(), StrTab::new(strings()));
    let syms = &elf.symtab().0;
    assert_eq!(syms.len(), 5);

    assert_eq!(syms[0].name(), "");
    assert_eq!(*syms[0].bind(), SymBinding::Local);
    assert_eq!(*syms[0].ty(), SymType::NoType);
    assert_eq!(*syms[0].visi(), SymVisi::Default);
    assert_eq!(*syms[0].shndx(), SID::Undef);
    assert_eq!(*syms[0].value(), SymValue::SectionOffset(0));
    assert_eq!(*syms[0].size(), 0);

    assert_eq!(syms[1].name(), "main");
    assert_eq!(*syms[1].bind(), SymBinding::Global);
    assert_eq!(*syms[1].ty(), SymType::Func);
    assert_eq!(*syms[1].visi(), SymVisi::Default);
    assert_eq!(*syms[1].shndx(), SID::Normal(1));
    assert_eq!(*syms[1].value(), SymValue::SectionOffset(0x10));
    assert_eq!(*syms[1].size(), 0x20);

    assert_eq!(syms[2].name(), "counter");
    assert_eq!(*syms[2].bind(), SymBinding::Global);
    assert_eq!(*syms[2].ty(), SymType::Object);
    assert_eq!(*syms[2].visi(), SymVisi::Hidden);
    assert_eq!(*syms[2].shndx(), SID::Common);
    assert_eq!(*syms[2].value(), SymValue::Alignment(8));
    assert_eq!(*syms[2].size(), 4);

    assert_eq!(syms[3].name(), "buf");
    assert_eq!(*syms[3].bind(), SymBinding::Weak);
    assert_eq!(*syms[3].visi(), SymVisi::Protected);
    assert_eq!(*syms[3].shndx(), SID::Abs);
    assert_eq!(*syms[3].value(), SymValue::SectionOffset(0x99));

    assert_eq!(syms[4].name(), "");
    assert_eq!(*syms[4].bind(), SymBinding::OS(10));
    assert_eq!(*syms[4].ty(), SymType::Section);
    assert_eq!(*syms[4].visi(), SymVisi::Internal);
    assert_eq!(*syms[4].value(), SymValue::SectionOffset(0x30));
}

#[test]
fn symbols_of_an_executable_and_of_a_shared_file() {
    for ty in [ET_EXEC, ET_DYN] {
        let elf = Elf::load(&with_symbols(ty)).unwrap();
        let values: Vec<SymValue> = elf.symtab().0.iter().map(|s| *s.value()).collect();
        assert_eq!(
            values,
            vec![
                SymValue::VirAddr(Hex64(0)),
                SymValue::VirAddr(Hex64(0x10)),
                SymValue::VirAddr(Hex64(8)),
                SymValue::VirAddr(Hex64(0x99)),
                SymValue::VirAddr(Hex64(0x30)),
            ]
        );
        assert_eq!(*elf.symtab().0[2].shndx(), SID::Common);
    }
}

#[test]
fn symbols_of_another_file_type_are_refused() {
    for ty in [0, ET_CORE, 5, 0xfe00, 0xff00] {
        assert_eq!(Elf::load(&with_symbols(ty)), Err(ElfError::UnsupportedFileType));
    }
    let empty = image(ET_CORE, &[symbol_section(".symtab", vec![], 24), symbol_section(".dynsym", vec![0; 23], 24)]);
    let elf = Elf::load(&empty).unwrap();
    assert_eq!(*elf.symtab(), SymTab(vec![]));
    assert_eq!(*elf.dynsym(), SymTab(vec![]));
    let none = image(ET_CORE, &[sec(".text", SHT_PROGBITS, vec![1])]);
    assert!(Elf::load(&none).is_ok());
}

#[test]
fn a_missing_dynsym_is_an_empty_table() {
    let elf = Elf::load(&with_symbols(ET_REL)).unwrap();
    assert!(elf.shentries().get(".dynsym").is_none());
    assert_eq!(*elf.dynsym(), SymTab(vec![]));
    assert_eq!(elf.symtab().0.len(), 5);
    assert_eq!(elf.symtab().0[1].name(), "main");
}

#[test]
fn a_missing_symtab_is_an_empty_table() {
    let img = image(
        ET_DYN,
        &[symbol_section(".dynsym", symbols(), 24), sec(".dynstr", SHT_STRTAB, strings())],
    );
    let elf = Elf::load(&img).unwrap();
    assert_eq!(*elf.symtab(), SymTab(vec![]));
    assert_eq!(*elf.strtab(), StrTab::empty());
    assert_eq!(elf.dynsym().0.len(), 5);
    assert_eq!(elf.dynsym().0[1].name(), "main");
    assert_eq!(*elf.dynsym().0[1].value(), SymValue::VirAddr(Hex64(0x10)));
}

#[test]
fn each_symbol_table_has_its_own_strings() {
    let img = image(
        ET_EXEC,
        &[
            symbol_section(".symtab", symbols()[..48].to_vec(), 24),
            sec(".strtab", SHT_STRTAB, strings()),
            symbol_section(".dynsym", symbols()[..48].to_vec(), 24),
            sec(".dynstr", SHT_STRTAB, b"\0exit\0".to_vec()),
        ],
    );
    let elf = Elf::load(&img).unwrap();
    assert_eq!(elf.symtab().0[1].name(), "main");
    assert_eq!(elf.dynsym().0[1].name(), "exit");
    assert_eq!(*elf.strtab(), StrTab::new(strings()));
}

#[test]
fn symbols_without_strings_have_empty_names() {
    let img = image(ET_REL, &[symbol_section(".symtab", symbols(), 24)]);
    let elf = Elf::load(&img).unwrap();
    assert_eq!(*elf.strtab(), StrTab::empty());
    assert_eq!(elf.symtab().0.len(), 5);
    for s in elf.symtab().0.iter() {
        assert_eq!(s.name(), "");
    }
}

#[test]
fn a_symbol_table_holds_whole_entries_only() {
    let mut data = symbols();
    data.truncate(24 * 3 + 23);
    let elf = Elf::load(&image(ET_REL, &[symbol_section(".symtab", data, 24)])).unwrap();
    assert_eq!(elf.symtab().0.len(), 3);
}

#[test]
fn the_entry_size_of_a_symbol_table_must_be_that_of_a_symbol() {
    for ent_size in [0u64, 16, 23, 25, 48] {
        let img = image(
            ET_REL,
            &[symbol_section(".symtab", symbols(), ent_size), sec(".strtab", SHT_STRTAB, strings())],
        );
        assert_eq!(Elf::load(&img), Err(ElfError::EntrySizeMismatch(ent_size)));
    }
    let img = image(ET_REL, &[symbol_section(".dynsym", vec![], 8)]);
    assert_eq!(Elf::load(&img), Err(ElfError::EntrySizeMismatch(8)));
    let img = image(ET_CORE, &[symbol_section(".symtab", symbols(), 8)]);
    assert_eq!(Elf::load(&img), Err(ElfError::EntrySizeMismatch(8)));
}

#[test]
fn a_symbol_table_must_lie_in_the_file() {
    let mut img = with_symbols(ET_REL);
    let shoff = shoff_of(&img);
    let len = img.len() as u64;
    put64(&mut img, shoff + 2 * 64 + SH_SIZE, len);
    assert_eq!(Elf::load(&img), Err(ElfError::OutOfBounds));
    put64(&mut img, shoff + 2 * 64 + SH_SIZE, 24);
    put64(&mut img, shoff + 2 * 64 + SH_OFFSET, len - 23);
    assert_eq!(Elf::load(&img), Err(ElfError::OutOfBounds));
    put64(&mut img, shoff + 2 * 64 + SH_OFFSET, len - 24);
    assert!(Elf::load(&img).is_ok());
    put16(&mut img, E_TYPE, ET_CORE);
    put64(&mut img, shoff + 2 * 64 + SH_OFFSET, len - 23);
    assert_eq!(Elf::load(&img), Err(ElfError::OutOfBounds));
}

#[test]
fn a_string_table_must_lie_in_the_file() {
    let mut img = with_symbols(ET_REL);
    let shoff = shoff_of(&img);
    let len = img.len() as u64;
    put64(&mut img, shoff + 3 * 64 + SH_SIZE, len);
    assert_eq!(Elf::load(&img), Err(ElfError::OutOfBounds));
}

#[test]
fn read_range_copies_the_bytes_asked_for() {
    let bytes = [10u8, 11, 12, 13, 14];
    assert_eq!(read_range(&bytes, 1, 3), Ok(vec![11, 12, 13]));
    assert_eq!(read_range(&bytes, 0, 5), Ok(vec![10, 11, 12, 13, 14]));
    assert_eq!(read_range(&bytes, 5, 0), Ok(vec![]));
    assert_eq!(read_range(&bytes, 0, 0), Ok(vec![]));
    assert_eq!(read_range(&bytes, 4, 2), Err(ElfError::OutOfBounds));
    assert_eq!(read_range(&bytes, 6, 0), Err(ElfError::OutOfBounds));
    assert_eq!(read_range(&bytes, 0, 6), Err(ElfError::OutOfBounds));
    assert_eq!(read_range(&bytes, u64::MAX, 1), Err(ElfError::OutOfBounds));
    assert_eq!(read_range(&bytes, 1, u64::MAX), Err(ElfError::OutOfBounds));
    assert_eq!(read_range(&bytes, u64::MAX, u64::MAX), Err(ElfError::OutOfBounds));
}

#[test]
fn the_steps_of_loading_sections() {
    let img = with_symbols(ET_REL);
    let hdr = E64Hdr::decode(&img).unwrap();
    let raw = load_raw_sections(&img, &hdr).unwrap();
    assert_eq!(raw.len(), 5);
    assert_eq!(raw[0], E64Shdr::default());
    assert_eq!(raw[1].name(), 1);
    assert_eq!(raw[1].ty(), SHT_PROGBITS);
    assert_eq!(raw[1].offset(), 64);
    assert_eq!(raw[1].size(), 32);
    assert_eq!(raw[2].ent_size(), 24);
    let names = StrTab::new(read_range(&img, raw[4].offset(), raw[4].size()).unwrap());
    let resolved = resolve_sections(&raw, &names).unwrap();
    assert_eq!(resolved.0.len(), 5);
    assert_eq!(resolved.0[2], SHdrView::new(&raw[2], ".symtab".to_string()));
    assert_eq!(load_sections(&img, &hdr), Ok((names, resolved)));
    assert_eq!(resolve_sections(&raw, &StrTab::empty()), Err(ElfError::OutOfBounds));
    assert_eq!(resolve_sections(&vec![], &StrTab::empty()), Ok(SHEntries(vec![])));
}

#[test]
fn tables_are_loaded_by_the_name_of_their_section() {
    let img = with_symbols(ET_REL);
    let elf = Elf::load(&img).unwrap();
    let sections = elf.shentries();
    assert_eq!(load_strtab_from_sh(sections, ".strtab", &img), Ok(StrTab::new(strings())));
    assert_eq!(load_strtab_from_sh(sections, ".dynstr", &img), Ok(StrTab::empty()));
    assert_eq!(
        load_strtab_from_sh(sections, ".text", &img),
        Ok(StrTab::new(vec![0x90; 32]))
    );
    assert_eq!(load_strtab_from_sh(sections, ".strtab", &img[..70]), Err(ElfError::OutOfBounds));
    let strtab = StrTab::new(strings());
    assert_eq!(
        load_sym64tab_from_sh(sections, ".symtab", &strtab, &EType::REL, &img).as_ref(),
        Ok(elf.symtab())
    );
    assert_eq!(
        load_sym64tab_from_sh(sections, ".dynsym", &strtab, &EType::REL, &img),
        Ok(SymTab(vec![]))
    );
    assert_eq!(
        load_sym64tab_from_sh(sections, ".dynsym", &strtab, &EType::CORE, &img),
        Ok(SymTab(vec![]))
    );
    assert_eq!(
        load_sym64tab_from_sh(sections, ".symtab", &strtab, &EType::CORE, &img),
        Err(ElfError::UnsupportedFileType)
    );
    assert_eq!(
        load_sym64tab_from_sh(sections, ".strtab", &strtab, &EType::REL, &img),
        Err(ElfError::EntrySizeMismatch(0))
    );
    assert_eq!(
        load_sym64tab_from_sh(sections, ".symtab", &strtab, &EType::REL, &img[..100]),
        Err(ElfError::OutOfBounds)
    );
}
