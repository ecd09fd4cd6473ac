use readelf::bytes::{DecodeError, Endian, Format};
use readelf::display::{Entry, Table};
use readelf::dynamic::{fold_dynamic, Dyn, DynamicTag, DYNAMIC_INFO_LEN};
use readelf::file_data::FileData;
use readelf::hdr::{Elf32Hdr, ElfClass, ElfHdr, ObjectType, OsABI};
use readelf::internal::{elf_section_in_segment, offset_from_vma};
use readelf::phdr::{ElfPhdr, ProgramFlags, ProgramType};
use readelf::shdr::{flags_display, ElfShdr, Elf64Shdr, SectionType};
use readelf::sym::{ElfSym, SymbolBinding, SymbolType, SymbolVis};
use readelf::text::{decimal_string, resolve_string};

fn put(buf: &mut Vec<u8>, off: usize, val: u64, width: usize) {
    if buf.len() < off + width {
        buf.resize(off + width, 0);
    }
    for i in 0..width {
        buf[off + i] = (val >> (8 * i)) as u8;
    }
}

fn ident(buf: &mut Vec<u8>, class: u8, data: u8) {
    if buf.len() < 16 {
        buf.resize(16, 0);
    }
    put(buf, 0, 0x46_4c_45_7f, 4);
    buf[4] = class;
    buf[5] = data;
    buf[6] = 1;
}

fn shdr64(buf: &mut Vec<u8>, at: usize, f: [u64; 10]) {
    let widths = [4, 4, 8, 8, 8, 8, 4, 4, 8, 8];
    let mut off = at;
    for i in 0..10 {
        put(buf, off, f[i], widths[i]);
        off += widths[i];
    }
}

/// A 64-bit little-endian executable: one LOAD segment over the whole
/// file, a `.text` section and an unallocated `.shstrtab`.
fn minimal_object() -> Vec<u8> {
    let mut b = Vec::new();
    ident(&mut b, 2, 1);
    put(&mut b, 16, 2, 2);
    put(&mut b, 18, 0x3e, 2);
    put(&mut b, 20, 1, 4);
    put(&mut b, 24, 0x400078, 8);
    put(&mut b, 32, 64, 8);
    put(&mut b, 40, 160, 8);
    put(&mut b, 48, 0, 4);
    put(&mut b, 52, 64, 2);
    put(&mut b, 54, 56, 2);
    put(&mut b, 56, 1, 2);
    put(&mut b, 58, 64, 2);
    put(&mut b, 60, 3, 2);
    put(&mut b, 62, 2, 2);
    // program header
    put(&mut b, 64, 1, 4);
    put(&mut b, 68, 5, 4);
    put(&mut b, 72, 0, 8);
    put(&mut b, 80, 0x400000, 8);
    put(&mut b, 88, 0x400000, 8);
    put(&mut b, 96, 352, 8);
    put(&mut b, 104, 352, 8);
    put(&mut b, 112, 0x1000, 8);
    // .text
    for i in 120..136 {
        put(&mut b, i, 0x90, 1);
    }
    // .shstrtab
    let names = b"\0.text\0.shstrtab\0";
    for (i, c) in names.iter().enumerate() {
        put(&mut b, 136 + i, *c as u64, 1);
    }
    shdr64(&mut b, 160, [0; 10]);
    shdr64(&mut b, 224, [1, 1, 6, 0x400078, 120, 16, 0, 0, 16, 0]);
    shdr64(&mut b, 288, [7, 3, 0, 0, 136, 17, 0, 0, 1, 0]);
    assert_eq!(b.len(), 352);
    b
}

struct Relocs {
    pub name: String,
    pub link: u8,
}

impl Entry for Relocs {
    fn header(&self) -> String {
        "AAA".to_string()
    }
}

#[test]
fn mod_foo() {
    let mut table: Table<Relocs> = Table::new(&["Name", "Link"]);
    table.insert_row(Relocs {
        name: "A".to_string(),
        link: 8,
    });
    assert_eq!(table.columns, vec!["Name".to_string(), "Link".to_string()]);
    assert_eq!(table.entries.len(), 1);
    assert_eq!(table.entries[0].name, "A");
    assert_eq!(table.entries[0].link, 8);
    assert_eq!(table.entries[0].header(), "AAA");
}

#[test]
fn table_foo() {}

#[test]
fn numbered_display_widths() {
    let mut table: Table<Relocs> = Table::new(&["Name"]);
    assert_eq!(table.numbered_display(), None);
    for i in 0..100 {
        table.insert_row(Relocs {
            name: format!("r{}", i),
            link: 0,
        });
        if i == 0 {
            assert_eq!(table.numbered_display(), Some(2));
        }
    }
    assert_eq!(table.numbered_display(), Some(3));
}

#[test]
fn end_to_end_minimal_object() {
    let f = FileData::new(minimal_object()).unwrap();
    assert_eq!(f.section_headers().len(), 3);
    assert_eq!(f.program_headers().len(), 1);
    assert_eq!(f.header().class(), Some(ElfClass::ElfClass64));
    assert_eq!(f.header().endian(), Some(Endian::Little));
    assert_eq!(f.header().ftype(), Some(ObjectType::Exec));
    assert_eq!(f.header().entry(), 0x400078);
    let text = &f.section_headers()[1];
    assert_eq!(text.section_type(), Some(SectionType::ProgBits));
    assert_eq!(f.string_lookup(text.name() as usize).unwrap(), ".text");
    let strtab = &f.section_headers()[2];
    assert_eq!(strtab.section_type(), Some(SectionType::StrTab));
    assert_eq!(f.string_lookup(strtab.name() as usize).unwrap(), ".shstrtab");
    assert_eq!(f.program_headers()[0].program_type(), Some(ProgramType::Load));
    assert_eq!(f.segment_sections(0), vec![1]);
    assert!(f.segment_sections(1).is_empty());
}

#[test]
fn header_fields_64_exact() {
    let b = minimal_object();
    let h = ElfHdr::read(&b).unwrap();
    assert!(h.magic_ok());
    assert_eq!(h.phstart(), 64);
    assert_eq!(h.shstart(), 160);
    assert_eq!(h.nheaders(), 1);
    assert_eq!(h.nsection_headers(), 3);
    assert_eq!(h.table_index(), 2);
    assert_eq!(h.section_size(), 64);
    assert_eq!(h.program_headers_size(), 56);
    assert_eq!(h.header_size(), 64);
    assert_eq!(h.machine(), 0x3e);
    assert_eq!(h.version(), 1);
    assert_eq!(h.os_abi(), OsABI::SystemV);
    assert_eq!(h.os_abi().name(), "UNIX - System V");
    let back = h.downcast_elf64();
    assert_eq!(back.e_shoff, 160);
    assert_eq!(ElfHdr::upcast_elf64(&back).e_entry, 0x400078);
}

#[test]
fn header_fields_32_widened() {
    let mut b = Vec::new();
    ident(&mut b, 1, 1);
    put(&mut b, 16, 3, 2);
    put(&mut b, 24, 0xfffffff0, 4);
    put(&mut b, 28, 0x80000000, 4);
    put(&mut b, 32, 0xffffffff, 4);
    put(&mut b, 36, 7, 4);
    put(&mut b, 44, 9, 2);
    put(&mut b, 48, 11, 2);
    put(&mut b, 50, 10, 2);
    let h = ElfHdr::read(&b).unwrap();
    assert_eq!(b.len(), 52);
    assert_eq!(h.entry(), 0xfffffff0u64);
    assert_eq!(h.phstart(), 0x80000000u64);
    assert_eq!(h.shstart(), 0xffffffffu64);
    assert_eq!(h.flags(), 7);
    assert_eq!(h.nheaders(), 9);
    assert_eq!(h.nsection_headers(), 11);
    assert_eq!(h.table_index(), 10);
    assert_eq!(h.ftype(), Some(ObjectType::Dyn));
    let narrow: Elf32Hdr = h.downcast_elf32().unwrap();
    assert_eq!(narrow.e_shoff, 0xffffffffu32);
}

#[test]
fn header_big_endian_fields() {
    let mut b = vec![0u8; 64];
    b[0] = 0x46;
    b[1] = 0x4c;
    b[2] = 0x45;
    b[3] = 0x7f;
    b[4] = 2;
    b[5] = 2;
    b[16] = 0;
    b[17] = 1;
    b[39] = 0x40;
    let h = ElfHdr::read(&b).unwrap();
    assert_eq!(h.ftype(), Some(ObjectType::Rel));
    assert_eq!(h.phstart(), 0x40);
    assert!(h.magic_ok());
}

#[test]
fn header_errors() {
    assert_eq!(ElfHdr::read(&[0u8; 10]).unwrap_err(), DecodeError::MalformedHeader);
    let mut b = minimal_object();
    b[4] = 3;
    assert_eq!(ElfHdr::read(&b).unwrap_err(), DecodeError::MalformedHeader);
    let mut b = minimal_object();
    b[5] = 0;
    assert_eq!(ElfHdr::read(&b).unwrap_err(), DecodeError::MalformedHeader);
    let b = minimal_object();
    assert_eq!(ElfHdr::read(&b[..60]).unwrap_err(), DecodeError::MalformedHeader);
    let mut b = minimal_object();
    b[4] = 1;
    assert!(ElfHdr::read(&b[..52]).is_ok());
}

#[test]
fn magic_ok_follows_declared_order() {
    let b = minimal_object();
    assert!(ElfHdr::read(&b).unwrap().magic_ok());
    let mut bad = b.clone();
    bad[1] = b'e';
    assert!(!ElfHdr::read(&bad).unwrap().magic_ok());
    let mut big = b.clone();
    big[5] = 2;
    assert!(!ElfHdr::read(&big).unwrap().magic_ok());
    let mut h = ElfHdr::read(&b).unwrap();
    h.e_ident[5] = 0;
    assert!(!h.magic_ok());
    assert_eq!(h.magic(), 0x7f454c46);
    assert_eq!(h.magic_reversed(), 0x464c457f);
}

#[test]
fn file_errors() {
    let mut b = minimal_object();
    b[0] = 0;
    assert_eq!(FileData::new(b).err(), Some(DecodeError::MalformedHeader));
    let b = minimal_object();
    assert_eq!(
        FileData::new(b[..300].to_vec()).err(),
        Some(DecodeError::TruncatedRead)
    );
}

#[test]
fn section_name_resolution_repeats() {
    let t = b"\0abc\0de";
    let a = resolve_string(t, 1).unwrap();
    let b = resolve_string(t, 1).unwrap();
    assert_eq!(a, "abc");
    assert_eq!(a, b);
    assert_eq!(resolve_string(t, 5).unwrap(), "de");
    assert_eq!(resolve_string(t, 7).unwrap(), "");
    assert_eq!(resolve_string(t, 0).unwrap(), "");
    assert_eq!(resolve_string(t, 8), None);
    assert_eq!(resolve_string(&[0xe9, 0], 0).unwrap(), "\u{e9}");
}

fn sym_object() -> Vec<u8> {
    let mut b = minimal_object();
    // .symtab at 352: two 24-byte symbols; .strtab at 400.
    put(&mut b, 352 + 24, 1, 4);
    b.resize(400, 0);
    b[352 + 24 + 4] = 0x12;
    b[352 + 24 + 5] = 0x2;
    put(&mut b, 352 + 24 + 6, 1, 2);
    put(&mut b, 352 + 24 + 8, 0x400078, 8);
    put(&mut b, 352 + 24 + 16, 16, 8);
    let names = b"\0main\0";
    for (i, c) in names.iter().enumerate() {
        put(&mut b, 400 + i, *c as u64, 1);
    }
    b
}

fn symtab_shdr(size: u64, entsize: u64) -> ElfShdr {
    ElfShdr::Elf64Shdr(Elf64Shdr {
        name: 0,
        section_type: 2,
        flags: 0,
        addr: 0,
        offset: 352,
        size,
        link: 0,
        info: 0,
        addralign: 8,
        entsize,
    })
}

#[test]
fn read_symbols_of_empty_section_is_none() {
    let b = sym_object();
    let h = ElfHdr::read(&b).unwrap();
    assert!(ElfSym::read_symbols(&h, &b, &symtab_shdr(0, 24)).is_none());
    assert!(ElfSym::read_symbols(&h, &b, &symtab_shdr(0, 0)).is_none());
}

#[test]
fn read_symbols_decodes_fields() {
    let b = sym_object();
    let h = ElfHdr::read(&b).unwrap();
    let syms = ElfSym::read_symbols(&h, &b, &symtab_shdr(48, 24)).unwrap().unwrap();
    assert_eq!(syms.len(), 2);
    let s = &syms[1];
    assert_eq!(s.name(), 1);
    assert_eq!(s.value(), 0x400078);
    assert_eq!(s.size(), 16);
    assert_eq!(s.shndx(), 1);
    assert_eq!(s.binding(), Some(SymbolBinding::Global));
    assert_eq!(s.symbol_type(), Some(SymbolType::Func));
    assert_eq!(s.visibility(), Some(SymbolVis::Hidden));
    assert_eq!(s.symbol_type().unwrap().display(), "FUNC");
    assert_eq!(s.binding().unwrap().display(), "GLOBAL");
    assert_eq!(s.visibility().unwrap().display(), "HIDDEN");
    assert_eq!(resolve_string(&b[400..], s.name() as usize).unwrap(), "main");
}

#[test]
fn read_symbols_errors() {
    let b = sym_object();
    let h = ElfHdr::read(&b).unwrap();
    assert_eq!(
        ElfSym::read_symbols(&h, &b, &symtab_shdr(48, 0)),
        Some(Err(DecodeError::ZeroEntrySize))
    );
    assert_eq!(
        ElfSym::read_symbols(&h, &b, &symtab_shdr(240, 24)),
        Some(Err(DecodeError::TruncatedRead))
    );
}

#[test]
fn shndx_display_names() {
    let mut s = ElfSym {
        name: 0,
        value: 0,
        size: 0,
        shndx: 0,
        info: 0,
        other: 0,
    };
    assert_eq!(s.shndx_display(), "UND");
    s.shndx = 0xfff1;
    assert_eq!(s.shndx_display(), "ABS");
    s.shndx = 7;
    assert_eq!(s.shndx_display(), "7");
    s.shndx = 65535;
    assert_eq!(s.shndx_display(), "65535");
    assert_eq!(decimal_string(1203), "1203");
    assert_eq!(decimal_string(0), "0");
}

fn dyn_image(entries: &[(u64, u64)]) -> Vec<u8> {
    let mut b = minimal_object();
    let base = b.len();
    for (i, (t, v)) in entries.iter().enumerate() {
        put(&mut b, base + 16 * i, *t, 8);
        put(&mut b, base + 16 * i + 8, *v, 8);
    }
    b
}

#[test]
fn dynamic_stops_at_null() {
    let b = dyn_image(&[(1, 10), (5, 0x500), (0, 0), (6, 0x600), (7, 0x700)]);
    let h = ElfHdr::read(&b).unwrap();
    let d = Dyn::read(&h, &b, 352, 80).unwrap();
    assert_eq!(d.len(), 2);
    assert_eq!(d[1], Dyn { tag: 5, value: 0x500 });
    let none = Dyn::read(&h, &b, 352, 0).unwrap();
    assert!(none.is_empty());
    assert_eq!(
        Dyn::read(&h, &b, 352, 96).unwrap_err(),
        DecodeError::TruncatedRead
    );
}

#[test]
fn fold_keeps_last_recorded_value() {
    let es = vec![
        Dyn { tag: 6, value: 1 },
        Dyn { tag: 6, value: 2 },
        Dyn { tag: 18, value: 3 },
        Dyn { tag: 0x6ffffef5, value: 4 },
        Dyn { tag: 29, value: 5 },
    ];
    let mut info = vec![0u64; DYNAMIC_INFO_LEN];
    fold_dynamic(&es, &mut info);
    assert_eq!(info[6], 2);
    assert_eq!(info[18], 0);
    assert_eq!(info[29], 5);
    assert_eq!(info.iter().sum::<u64>(), 7);
    assert_eq!(DynamicTag::from_u64(0x6ffffef5), Some(DynamicTag::GnuHash));
    assert_eq!(DynamicTag::from_u64(31), None);
    assert_eq!(Dyn { tag: 5, value: 0x1234 }.as_address(), Some(0x1234));
    assert_eq!(Dyn { tag: 10, value: 0x1234 }.as_address(), None);
    assert_eq!(Dyn { tag: 0x6ffffef5, value: 8 }.as_address(), Some(8));
}

fn section(section_type: u32, flags: u64, addr: u64, offset: u64, size: u64) -> ElfShdr {
    ElfShdr::Elf64Shdr(Elf64Shdr {
        name: 0,
        section_type,
        flags,
        addr,
        offset,
        size,
        link: 0,
        info: 0,
        addralign: 0,
        entsize: 0,
    })
}

fn segment(p_type: u32, offset: u64, vaddr: u64, filesz: u64, memsz: u64) -> ElfPhdr {
    ElfPhdr {
        p_type,
        p_offset: offset,
        p_vaddr: vaddr,
        p_paddr: vaddr,
        p_filesz: filesz,
        p_memsz: memsz,
        p_flags: 4,
        p_align: 0x1000,
    }
}

#[test]
fn tbss_membership() {
    let tbss = section(8, 0x400 | 0x2, 0x2000, 0x1000, 0x40);
    let tls = segment(7, 0x1000, 0x2000, 0, 0x40);
    assert!(elf_section_in_segment(&tbss, &tls, true, true));
    let unalloc_tbss = section(8, 0x400, 0x2000, 0x1000, 0x40);
    let load = segment(1, 0, 0, 0x2000, 0x3000);
    assert!(!elf_section_in_segment(&unalloc_tbss, &load, true, true));
    let dynamic = segment(2, 0x1000, 0x2000, 0x100, 0x100);
    assert!(!elf_section_in_segment(&tbss, &dynamic, true, true));
    let note = segment(4, 0x1000, 0x2000, 0x100, 0x100);
    assert!(!elf_section_in_segment(&tbss, &note, false, false));
}

#[test]
fn section_in_segment_offsets() {
    let text = section(1, 0x6, 0x1100, 0x100, 0x80);
    let load = segment(1, 0, 0x1000, 0x180, 0x180);
    assert!(elf_section_in_segment(&text, &load, true, true));
    let short = segment(1, 0, 0x1000, 0x17f, 0x180);
    assert!(!elf_section_in_segment(&text, &short, true, true));
    let phdr = segment(6, 0, 0x1000, 0x180, 0x180);
    assert!(!elf_section_in_segment(&text, &phdr, true, true));
    let below = section(1, 0x6, 0x0f00, 0x100, 0x80);
    assert!(!elf_section_in_segment(&below, &load, true, true));
    assert!(elf_section_in_segment(&below, &load, false, true));
}

#[test]
fn offsets_from_addresses() {
    let ps = vec![
        segment(6, 0x40, 0x400040, 0x100, 0x100),
        segment(1, 0x1000, 0x401000, 0x500, 0x500),
    ];
    assert_eq!(offset_from_vma(&ps, 0x401010, 8), 0x1010);
    assert_eq!(offset_from_vma(&ps, 0x401000 + 0x4fc, 8), 0x401000 + 0x4fc);
    assert_eq!(offset_from_vma(&ps, 0x300000, 8), 0x300000);
}

#[test]
fn display_strings() {
    assert_eq!(ProgramType::GnuEhFrame.display(), "GNU_EH_FRAME");
    assert_eq!(ProgramType::LoOS.display(), "LO_O_S");
    assert_eq!(ProgramType::ShLib.display(), "SH_LIB");
    assert_eq!(ProgramType::Null.display(), "NULL");
    let f = ProgramFlags {
        read: true,
        write: false,
        execute: true,
    };
    assert_eq!(f.display(), "R E");
    let p = segment(1, 0, 0, 0, 0);
    assert_eq!(p.flags().display(), "R  ");
    assert_eq!(flags_display(0x6), "AX");
    assert_eq!(flags_display(0x403), "WAT");
    assert_eq!(flags_display(0x8), "?");
    assert_eq!(flags_display(0), "");
    assert_eq!(SymbolType::GnuIFunc.display(), "GNUIFUNC");
}

#[test]
fn section_payloads() {
    let b = minimal_object();
    let h = ElfHdr::read(&b).unwrap();
    assert_eq!(ElfShdr::get_string_table(&h, &b).unwrap(), b"\0.text\0.shstrtab\0".to_vec());
    assert_eq!(ElfShdr::read_string_table(&b).unwrap().len(), 17);
    assert_eq!(ElfShdr::get_data(&h, &b, 1, 160).unwrap(), vec![0x90u8; 16]);
    assert_eq!(
        ElfShdr::get_data(&h, &b, 9, 160).unwrap_err(),
        DecodeError::TruncatedRead
    );
    let fmt = h.format().unwrap();
    assert_eq!(
        fmt,
        Format {
            wide: true,
            endian: Endian::Little
        }
    );
    let s = ElfShdr::parse(&b, 224, fmt);
    assert_eq!(s.addr(), 0x400078);
    assert_eq!(s.flags(), 6);
    assert_eq!(s.addralign(), 16);
}

/// The minimal object plus a symbol table, its string table and a RELA
/// section whose two entries refer to symbols 1 and 5.
fn reloc_object() -> Vec<u8> {
    let mut b = sym_object();
    b.resize(416, 0);
    // relocation entries at 416: r_offset, r_info, r_addend
    put(&mut b, 416, 0x400080, 8);
    put(&mut b, 424, (1u64 << 32) | 1, 8);
    put(&mut b, 440, 0x400088, 8);
    put(&mut b, 448, (5u64 << 32) | 1, 8);
    b.resize(464, 0);
    // section headers at 464: null, .text, .shstrtab, .symtab, .strtab, .rela
    let names = b"\0.text\0.shstrtab\0.symtab\0.strtab\0.rela\0";
    let mut nb = b.clone();
    let strbase = nb.len() + 6 * 64;
    shdr64(&mut nb, 464, [0; 10]);
    shdr64(&mut nb, 528, [1, 1, 6, 0x400078, 120, 16, 0, 0, 16, 0]);
    shdr64(&mut nb, 592, [7, 3, 0, 0, strbase as u64, names.len() as u64, 0, 0, 1, 0]);
    shdr64(&mut nb, 656, [17, 2, 0, 0, 352, 48, 4, 1, 8, 24]);
    shdr64(&mut nb, 720, [25, 3, 0, 0, 400, 6, 0, 0, 1, 0]);
    shdr64(&mut nb, 784, [33, 4, 0, 0, 416, 48, 3, 1, 8, 24]);
    for (i, c) in names.iter().enumerate() {
        put(&mut nb, strbase + i, *c as u64, 1);
    }
    put(&mut nb, 40, 464, 8);
    put(&mut nb, 60, 6, 2);
    put(&mut nb, 62, 2, 2);
    nb
}

#[test]
fn relocations_name_their_symbols() {
    let f = FileData::new(reloc_object()).unwrap();
    let rs = f.process_relocs();
    assert_eq!(rs.len(), 1);
    assert_eq!(rs[0].name.as_deref(), Some(".rela"));
    assert_eq!(rs[0].offset, 416);
    assert_eq!(rs[0].entries, 2);
    let names = rs[0].symbols.as_ref().unwrap();
    assert_eq!(names.len(), 2);
    assert_eq!(names[0].as_deref(), Some("main"));
    assert_eq!(names[1], None);
}

#[test]
fn symbol_tables_with_names() {
    let f = FileData::new(reloc_object()).unwrap();
    let ts = f.table_symbols().unwrap();
    assert_eq!(ts.len(), 1);
    assert_eq!(ts[0].name.as_deref(), Some(".symtab"));
    assert_eq!(ts[0].strings, b"\0main\0".to_vec());
    assert_eq!(ts[0].symbols.len(), 2);
    assert_eq!(f.dynamic_symbols(), None);
}

#[test]
fn dynamic_section_of_file() {
    // entries at 352..400; program headers moved to 400: LOAD, then DYNAMIC.
    let mut b = dyn_image(&[(6, 0x600), (22, 1), (0, 0)]);
    let load: Vec<u8> = minimal_object()[64..120].to_vec();
    b.extend_from_slice(&load);
    let mut dynamic = vec![0u8; 56];
    put(&mut dynamic, 0, 2, 4);
    put(&mut dynamic, 8, 352, 8);
    put(&mut dynamic, 32, 48, 8);
    b.extend_from_slice(&dynamic);
    put(&mut b, 32, 400, 8);
    put(&mut b, 56, 2, 2);
    let mut f = FileData::new(b).unwrap();
    assert_eq!(f.dynamic_addr, 352);
    assert_eq!(f.dynamic_size, 48);
    assert_eq!(f.dynamic_section().unwrap().len(), 2);
    f.process_dynamic_section().unwrap();
    assert_eq!(f.dynamic_info()[6], 0x600);
    assert_eq!(f.dynamic_info()[22], 1);
    assert_eq!(f.dynamic_info()[5], 0);
}

#[test]
fn section_type_codes() {
    assert_eq!(SectionType::from_u32(0x6ffffff6), Some(SectionType::GnuHash));
    assert_eq!(SectionType::from_u32(0x13), None);
    assert_eq!(ProgramType::from_u32(0x6474e552), Some(ProgramType::GnuRelro));
    assert_eq!(ProgramType::from_u32(8), None);
}

/// The same object in the 32-bit layout.
fn minimal_object32() -> Vec<u8> {
    let mut b = Vec::new();
    ident(&mut b, 1, 1);
    put(&mut b, 16, 2, 2);
    put(&mut b, 18, 3, 2);
    put(&mut b, 20, 1, 4);
    put(&mut b, 24, 0x8048054, 4);
    put(&mut b, 28, 52, 4);
    put(&mut b, 32, 120, 4);
    put(&mut b, 40, 52, 2);
    put(&mut b, 42, 32, 2);
    put(&mut b, 44, 1, 2);
    put(&mut b, 46, 40, 2);
    put(&mut b, 48, 3, 2);
    put(&mut b, 50, 2, 2);
    let phdr = [1u64, 0, 0x8048000, 0x8048000, 240, 240, 5, 0x1000];
    for (i, v) in phdr.iter().enumerate() {
        put(&mut b, 52 + 4 * i, *v, 4);
    }
    for i in 84..100 {
        put(&mut b, i, 0x90, 1);
    }
    let names = b"\0.text\0.shstrtab\0";
    for (i, c) in names.iter().enumerate() {
        put(&mut b, 100 + i, *c as u64, 1);
    }
    let shdrs = [
        [0u64; 10],
        [1, 1, 6, 0x8048054, 84, 16, 0, 0, 16, 0],
        [7, 3, 0, 0, 100, 17, 0, 0, 1, 0],
    ];
    for (k, f) in shdrs.iter().enumerate() {
        for (i, v) in f.iter().enumerate() {
            put(&mut b, 120 + 40 * k + 4 * i, *v, 4);
        }
    }
    assert_eq!(b.len(), 240);
    b
}

#[test]
fn end_to_end_minimal_object32() {
    let f = FileData::new(minimal_object32()).unwrap();
    assert_eq!(f.header().class(), Some(ElfClass::ElfClass32));
    assert_eq!(f.section_headers().len(), 3);
    assert_eq!(f.program_headers().len(), 1);
    let text = &f.section_headers()[1];
    assert_eq!(text.addr(), 0x8048054);
    assert_eq!(text.offset(), 84);
    assert_eq!(f.string_lookup(text.name() as usize).unwrap(), ".text");
    let load = &f.program_headers()[0];
    assert_eq!(load.vaddr(), 0x8048000);
    assert_eq!(load.filesz(), 240);
    assert_eq!(load.memsz(), 240);
    assert_eq!(load.flags().display(), "R E");
    assert_eq!(f.segment_sections(0), vec![1]);
    assert!(f.table_symbols().unwrap().is_empty());
    assert!(f.process_relocs().is_empty());
}

#[test]
fn section_header_walk() {
    let b = minimal_object();
    let h = ElfHdr::read(&b).unwrap();
    let mut it = ElfShdr::iter(&h, &b).unwrap();
    assert_eq!(it.size_hint(), (3, Some(3)));
    let first = it.next().unwrap().unwrap();
    assert_eq!(first.size(), 0);
    let text = it.next().unwrap().unwrap();
    assert_eq!(text.offset(), 120);
    assert_eq!(it.size_hint(), (1, Some(1)));
    assert!(it.next().unwrap().is_ok());
    assert!(it.next().is_none());
    let cut = &b[..300];
    let mut it = ElfShdr::iter(&h, cut).unwrap();
    assert!(it.next().unwrap().is_ok());
    assert!(it.next().unwrap().is_ok());
    assert_eq!(it.next().unwrap().unwrap_err(), DecodeError::TruncatedRead);
    assert!(it.next().is_none());
}
