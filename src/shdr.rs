//! Section headers, the section header table and section payloads.

use vstd::prelude::*;

use crate::bytes::{
    DecodeError, Format, bytes_in, copy_bytes, lemma_uint_fits, read_u32, read_word, uint_at,
};
use crate::hdr::ElfHdr;

verus! {

/// A section header in either on-disk width.
#[derive(Debug, Clone, Copy)]
pub enum ElfShdr {
    Elf32Shdr(Elf32Shdr),
    Elf64Shdr(Elf64Shdr),
}

/// A section header as laid out in a 32-bit file.
#[derive(Clone, Copy, Debug)]
pub struct Elf32Shdr {
    pub name: u32,
    pub section_type: u32,
    pub flags: u32,
    pub addr: u32,
    pub offset: u32,
    pub size: u32,
    pub link: u32,
    pub info: u32,
    pub addralign: u32,
    pub entsize: u32,
}

/// A section header as laid out in a 64-bit file.
#[derive(Clone, Copy, Debug)]
pub struct Elf64Shdr {
    /// Index of the section's name in the section-name string table.
    pub name: u32,
    /// Categorization of the section.
    pub section_type: u32,
    /// Attribute bits.
    pub flags: u64,
    /// Address of the section's first byte in the memory image, or zero.
    pub addr: u64,
    /// Offset of the section's first byte in the file.
    pub offset: u64,
    /// Size of the section in bytes.
    pub size: u64,
    /// Index of an associated section; its meaning depends on the type.
    pub link: u32,
    /// Extra information; its meaning depends on the type.
    pub info: u32,
    /// Alignment constraint.
    pub addralign: u64,
    /// Size of each record if the section holds a table of fixed-size
    /// records, else zero.
    pub entsize: u64,
}

/// Walks the section header table of a byte image, one record at a time.
pub struct ElfShdrIter<'a> {
    pub data: &'a [u8],
    pub fmt: Format,
    /// Offset of the next record.
    pub pos: u64,
    /// Number of records not yet read.
    pub remaining: usize,
}

/// On-disk size of a 32-bit section header.
pub const ELF32_SHDR_SIZE: usize = 40;

/// On-disk size of a 64-bit section header.
pub const ELF64_SHDR_SIZE: usize = 64;

/// Size of one section header record in the layout `wide`.
pub open spec fn shdr_width(wide: bool) -> nat {
    if wide {
        64
    } else {
        40
    }
}

/// The 32-bit section header stored at `off`.
pub open spec fn shdr32_at(d: Seq<u8>, off: int, e: crate::bytes::Endian) -> Elf32Shdr {
    Elf32Shdr {
        name: uint_at(d, off, 4, e) as u32,
        section_type: uint_at(d, off + 4, 4, e) as u32,
        flags: uint_at(d, off + 8, 4, e) as u32,
        addr: uint_at(d, off + 12, 4, e) as u32,
        offset: uint_at(d, off + 16, 4, e) as u32,
        size: uint_at(d, off + 20, 4, e) as u32,
        link: uint_at(d, off + 24, 4, e) as u32,
        info: uint_at(d, off + 28, 4, e) as u32,
        addralign: uint_at(d, off + 32, 4, e) as u32,
        entsize: uint_at(d, off + 36, 4, e) as u32,
    }
}

/// The 64-bit section header stored at `off`.
pub open spec fn shdr64_at(d: Seq<u8>, off: int, e: crate::bytes::Endian) -> Elf64Shdr {
    Elf64Shdr {
        name: uint_at(d, off, 4, e) as u32,
        section_type: uint_at(d, off + 4, 4, e) as u32,
        flags: uint_at(d, off + 8, 8, e) as u64,
        addr: uint_at(d, off + 16, 8, e) as u64,
        offset: uint_at(d, off + 24, 8, e) as u64,
        size: uint_at(d, off + 32, 8, e) as u64,
        link: uint_at(d, off + 40, 4, e) as u32,
        info: uint_at(d, off + 44, 4, e) as u32,
        addralign: uint_at(d, off + 48, 8, e) as u64,
        entsize: uint_at(d, off + 56, 8, e) as u64,
    }
}

/// The section header stored at `off` in the layout `fmt`.
pub open spec fn shdr_at(d: Seq<u8>, off: int, fmt: Format) -> ElfShdr {
    if fmt.wide {
        ElfShdr::Elf64Shdr(shdr64_at(d, off, fmt.endian))
    } else {
        ElfShdr::Elf32Shdr(shdr32_at(d, off, fmt.endian))
    }
}

/// The section header table of `count` records from `start`.
pub open spec fn shdrs_at(d: Seq<u8>, start: int, count: nat, fmt: Format) -> Seq<ElfShdr> {
    Seq::new(count, |i: int| shdr_at(d, start + i * shdr_width(fmt.wide), fmt))
}

/// The bytes of section `s`, when they lie inside `d`.
pub open spec fn payload(d: Seq<u8>, s: ElfShdr) -> Option<Seq<u8>> {
    bytes_in(d, s.wide().offset as int, s.wide().offset + s.wide().size)
}

/// The bytes of section `index`, whose header is stored `index` records of
/// `entsize` bytes after `start` in the layout `fmt`, when that header and
/// the bytes that it describes lie inside `d`.
pub open spec fn section_data(d: Seq<u8>, fmt: Format, entsize: int, index: int, start: int) -> Option<
    Seq<u8>,
> {
    let pos = entsize * index + start;
    if pos + shdr_width(fmt.wide) <= d.len() {
        payload(d, shdr_at(d, pos, fmt))
    } else {
        None
    }
}

/// Kind of section.
#[derive(Clone, Copy, PartialEq, Eq, Debug, Structural)]
pub enum SectionType {
    Null,
    ProgBits,
    SymTab,
    StrTab,
    Rela,
    Hash,
    Dynamic,
    Note,
    NoBits,
    Rel,
    SHLib,
    DynSym,
    InitArray,
    FiniArray,
    PreInitArray,
    Group,
    SymTabShndx,
    LoProc,
    HiProc,
    LoUser,
    HiUser,
    GnuHash,
    VerDef,
    VerNeed,
    VerSym,
}

/// Section type code of a section that holds no file bytes.
pub const SHT_NOBITS: u32 = 0x8;

/// The section type that a type code names.
pub open spec fn section_type_of(v: u32) -> Option<SectionType> {
    if v == 0x0 {
        Some(SectionType::Null)
    } else if v == 0x1 {
        Some(SectionType::ProgBits)
    } else if v == 0x2 {
        Some(SectionType::SymTab)
    } else if v == 0x3 {
        Some(SectionType::StrTab)
    } else if v == 0x4 {
        Some(SectionType::Rela)
    } else if v == 0x5 {
        Some(SectionType::Hash)
    } else if v == 0x6 {
        Some(SectionType::Dynamic)
    } else if v == 0x7 {
        Some(SectionType::Note)
    } else if v == 0x8 {
        Some(SectionType::NoBits)
    } else if v == 0x9 {
        Some(SectionType::Rel)
    } else if v == 0xA {
        Some(SectionType::SHLib)
    } else if v == 0xB {
        Some(SectionType::DynSym)
    } else if v == 0xE {
        Some(SectionType::InitArray)
    } else if v == 0xF {
        Some(SectionType::FiniArray)
    } else if v == 0x10 {
        Some(SectionType::PreInitArray)
    } else if v == 0x11 {
        Some(SectionType::Group)
    } else if v == 0x12 {
        Some(SectionType::SymTabShndx)
    } else if v == 0x70000000 {
        Some(SectionType::LoProc)
    } else if v == 0x7FFFFFFF {
        Some(SectionType::HiProc)
    } else if v == 0x80000000 {
        Some(SectionType::LoUser)
    } else if v == 0xFFFFFFFF {
        Some(SectionType::HiUser)
    } else if v == 0x6ffffff6 {
        Some(SectionType::GnuHash)
    } else if v == 0x6FFFFFFD {
        Some(SectionType::VerDef)
    } else if v == 0x6FFFFFFE {
        Some(SectionType::VerNeed)
    } else if v == 0x6FFFFFFF {
        Some(SectionType::VerSym)
    } else {
        None
    }
}

impl SectionType {
    /// The section type that a type code names, if any.
    pub fn from_u32(v: u32) -> (r: Option<SectionType>)
        ensures
            r == section_type_of(v),
    {
        match v {
            0x0 => Some(SectionType::Null),
            0x1 => Some(SectionType::ProgBits),
            0x2 => Some(SectionType::SymTab),
            0x3 => Some(SectionType::StrTab),
            0x4 => Some(SectionType::Rela),
            0x5 => Some(SectionType::Hash),
            0x6 => Some(SectionType::Dynamic),
            0x7 => Some(SectionType::Note),
            0x8 => Some(SectionType::NoBits),
            0x9 => Some(SectionType::Rel),
            0xA => Some(SectionType::SHLib),
            0xB => Some(SectionType::DynSym),
            0xE => Some(SectionType::InitArray),
            0xF => Some(SectionType::FiniArray),
            0x10 => Some(SectionType::PreInitArray),
            0x11 => Some(SectionType::Group),
            0x12 => Some(SectionType::SymTabShndx),
            0x70000000 => Some(SectionType::LoProc),
            0x7FFFFFFF => Some(SectionType::HiProc),
            0x80000000 => Some(SectionType::LoUser),
            0xFFFFFFFF => Some(SectionType::HiUser),
            0x6ffffff6 => Some(SectionType::GnuHash),
            0x6FFFFFFD => Some(SectionType::VerDef),
            0x6FFFFFFE => Some(SectionType::VerNeed),
            0x6FFFFFFF => Some(SectionType::VerSym),
            _ => None,
        }
    }
}

/// Section attribute bits.
#[derive(Clone, Copy, PartialEq, Eq, Debug, Structural)]
pub enum SectionFlag {
    Write,
    Alloc,
    ExecInstr,
    Merge,
    Strings,
    InfoLink,
    LinkOrder,
    OsNonConforming,
    Group,
    Tls,
    Exclude,
    Compressed,
    GnuMbind,
}

/// Flag bit of a section that occupies memory at run time.
pub const SHF_ALLOC: u64 = 0x2;

/// Flag bit of a section that holds thread-local storage.
pub const SHF_TLS: u64 = 0x400;

impl SectionFlag {
    pub open spec fn spec_bits(self) -> u64 {
        match self {
            SectionFlag::Write => 0x1,
            SectionFlag::Alloc => 0x2,
            SectionFlag::ExecInstr => 0x4,
            SectionFlag::Merge => 0x10,
            SectionFlag::Strings => 0x20,
            SectionFlag::InfoLink => 0x40,
            SectionFlag::LinkOrder => 0x80,
            SectionFlag::OsNonConforming => 0x100,
            SectionFlag::Group => 0x200,
            SectionFlag::Tls => 0x400,
            SectionFlag::Exclude => 0x80000000,
            SectionFlag::Compressed => 0x800,
            SectionFlag::GnuMbind => 0x01000000,
        }
    }

    /// The bit that stands for this attribute in a section's flags.
    pub fn bits(&self) -> (r: u64)
        ensures
            r == self.spec_bits(),
    {
        match self {
            SectionFlag::Write => 0x1,
            SectionFlag::Alloc => 0x2,
            SectionFlag::ExecInstr => 0x4,
            SectionFlag::Merge => 0x10,
            SectionFlag::Strings => 0x20,
            SectionFlag::InfoLink => 0x40,
            SectionFlag::LinkOrder => 0x80,
            SectionFlag::OsNonConforming => 0x100,
            SectionFlag::Group => 0x200,
            SectionFlag::Tls => 0x400,
            SectionFlag::Exclude => 0x80000000,
            SectionFlag::Compressed => 0x800,
            SectionFlag::GnuMbind => 0x01000000,
        }
    }
}

impl ElfShdr {
    /// The header with every field widened to the 64-bit layout.
    pub open spec fn wide(self) -> Elf64Shdr {
        match self {
            ElfShdr::Elf32Shdr(s) => Elf64Shdr {
                name: s.name,
                section_type: s.section_type,
                flags: s.flags as u64,
                addr: s.addr as u64,
                offset: s.offset as u64,
                size: s.size as u64,
                link: s.link,
                info: s.info,
                addralign: s.addralign as u64,
                entsize: s.entsize as u64,
            },
            ElfShdr::Elf64Shdr(s) => s,
        }
    }

    /// Decodes the section header at `off` in the layout `fmt`.
    pub fn parse(data: &[u8], off: usize, fmt: Format) -> (r: ElfShdr)
        requires
            off + shdr_width(fmt.wide) <= data@.len(),
        ensures
            r == shdr_at(data@, off as int, fmt),
    {
        let e = fmt.endian;
        let n = data.len();
        assert(off + shdr_width(fmt.wide) <= n);
        proof {
            lemma_uint_fits(data@, e);
        }
        let w = Format { wide: true, endian: e };
        if fmt.wide {
            ElfShdr::Elf64Shdr(
                Elf64Shdr {
                    name: read_u32(data, off, e),
                    section_type: read_u32(data, off + 4, e),
                    flags: read_word(data, off + 8, w),
                    addr: read_word(data, off + 16, w),
                    offset: read_word(data, off + 24, w),
                    size: read_word(data, off + 32, w),
                    link: read_u32(data, off + 40, e),
                    info: read_u32(data, off + 44, e),
                    addralign: read_word(data, off + 48, w),
                    entsize: read_word(data, off + 56, w),
                },
            )
        } else {
            ElfShdr::Elf32Shdr(
                Elf32Shdr {
                    name: read_u32(data, off, e),
                    section_type: read_u32(data, off + 4, e),
                    flags: read_u32(data, off + 8, e),
                    addr: read_u32(data, off + 12, e),
                    offset: read_u32(data, off + 16, e),
                    size: read_u32(data, off + 20, e),
                    link: read_u32(data, off + 24, e),
                    info: read_u32(data, off + 28, e),
                    addralign: read_u32(data, off + 32, e),
                    entsize: read_u32(data, off + 36, e),
                },
            )
        }
    }
}

/// The letter that stands for flag bit `k` in a section's flag column.
pub open spec fn flag_letter(k: nat) -> char {
    if k == 0 {
        'W'
    } else if k == 1 {
        'A'
    } else if k == 2 {
        'X'
    } else if k == 4 {
        'M'
    } else if k == 5 {
        'S'
    } else if k == 6 {
        'I'
    } else if k == 7 {
        'L'
    } else if k == 8 {
        'O'
    } else if k == 9 {
        'G'
    } else if k == 10 {
        'T'
    } else if k == 11 {
        'C'
    } else if k == 24 {
        'D'
    } else if k == 31 {
        'E'
    } else {
        '?'
    }
}

/// The letters of the flag bits among the lowest `k` bits of `flags` that
/// are set, lowest bit first.
pub open spec fn flag_letters(flags: u64, k: nat) -> Seq<char>
    decreases k,
{
    if k == 0 {
        Seq::empty()
    } else {
        let r = flag_letters(flags, (k - 1) as nat);
        if (flags >> ((k - 1) as u64)) & 1 == 1 {
            r.push(flag_letter((k - 1) as nat))
        } else {
            r
        }
    }
}

fn flag_char(k: u64) -> (r: char)
    ensures
        r == flag_letter(k as nat),
{
    match k {
        0 => 'W',
        1 => 'A',
        2 => 'X',
        4 => 'M',
        5 => 'S',
        6 => 'I',
        7 => 'L',
        8 => 'O',
        9 => 'G',
        10 => 'T',
        11 => 'C',
        24 => 'D',
        31 => 'E',
        _ => '?',
    }
}

/// The flag column of a section: one letter per set bit of `flags`, lowest
/// bit first, `?` for a bit without a letter.
pub fn flags_display(flags: u64) -> (r: String)
    ensures
        r@ == flag_letters(flags, 64),
{
    let mut s = String::new();
    let mut k: u64 = 0;
    while k < 64
        invariant
            k <= 64,
            s@ == flag_letters(flags, k as nat),
        decreases 64 - k,
    {
        if (flags >> k) & 1 == 1 {
            crate::text::push_char(&mut s, flag_char(k));
        }
        k = k + 1;
    }
    s
}

impl<'a> ElfShdrIter<'a> {
    /// The next section header: `None` once every record has been read;
    /// `TruncatedRead` when the record runs past the end of the data, after
    /// which the walk ends.
    pub fn next(&mut self) -> (r: Option<Result<ElfShdr, DecodeError>>)
        ensures
            final(self).data == old(self).data,
            final(self).fmt == old(self).fmt,
            old(self).remaining == 0 ==> r is None && *final(self) == *old(self),
            old(self).remaining > 0 && old(self).pos + shdr_width(old(self).fmt.wide)
                <= old(self).data@.len() ==> r == Some(
                Ok::<ElfShdr, DecodeError>(shdr_at(old(self).data@, old(self).pos as int, old(self).fmt)),
            ) && final(self).pos == old(self).pos + shdr_width(old(self).fmt.wide)
                && final(self).remaining == old(self).remaining - 1,
            old(self).remaining > 0 && old(self).pos + shdr_width(old(self).fmt.wide)
                > old(self).data@.len() ==> r == Some(
                Err::<ElfShdr, DecodeError>(DecodeError::TruncatedRead),
            ) && final(self).remaining == 0 && final(self).pos == old(self).pos,
    {
        if self.remaining == 0 {
            return None;
        }
        let w: u64 = if self.fmt.wide {
            ELF64_SHDR_SIZE as u64
        } else {
            ELF32_SHDR_SIZE as u64
        };
        let n = self.data.len() as u64;
        if self.pos > n || w > n - self.pos {
            self.remaining = 0;
            return Some(Err(DecodeError::TruncatedRead));
        }
        let s = ElfShdr::parse(self.data, self.pos as usize, self.fmt);
        self.pos = self.pos + w;
        self.remaining = self.remaining - 1;
        Some(Ok(s))
    }

    /// The number of records not yet read, as lower and upper bound.
    pub fn size_hint(&self) -> (r: (usize, Option<usize>))
        ensures
            r == (self.remaining, Some(self.remaining)),
    {
        (self.remaining, Some(self.remaining))
    }
}

impl ElfShdr {
    /// Index of the section's name in the section-name string table.
    pub fn name(&self) -> (r: u32)
        ensures
            r == self.wide().name,
    {
        match self {
            ElfShdr::Elf32Shdr(s) => s.name,
            ElfShdr::Elf64Shdr(s) => s.name,
        }
    }

    /// The raw section type code.
    pub fn type_code(&self) -> (r: u32)
        ensures
            r == self.wide().section_type,
    {
        match self {
            ElfShdr::Elf32Shdr(s) => s.section_type,
            ElfShdr::Elf64Shdr(s) => s.section_type,
        }
    }

    /// The section type, if its code names one.
    pub fn section_type(&self) -> (r: Option<SectionType>)
        ensures
            r == section_type_of(self.wide().section_type),
    {
        SectionType::from_u32(self.type_code())
    }

    pub fn flags(&self) -> (r: u64)
        ensures
            r == self.wide().flags,
    {
        match self {
            ElfShdr::Elf32Shdr(s) => s.flags as u64,
            ElfShdr::Elf64Shdr(s) => s.flags,
        }
    }

    pub fn addr(&self) -> (r: u64)
        ensures
            r == self.wide().addr,
    {
        match self {
            ElfShdr::Elf32Shdr(s) => s.addr as u64,
            ElfShdr::Elf64Shdr(s) => s.addr,
        }
    }

    pub fn offset(&self) -> (r: u64)
        ensures
            r == self.wide().offset,
    {
        match self {
            ElfShdr::Elf32Shdr(s) => s.offset as u64,
            ElfShdr::Elf64Shdr(s) => s.offset,
        }
    }

    pub fn size(&self) -> (r: u64)
        ensures
            r == self.wide().size,
    {
        match self {
            ElfShdr::Elf32Shdr(s) => s.size as u64,
            ElfShdr::Elf64Shdr(s) => s.size,
        }
    }

    pub fn link(&self) -> (r: u32)
        ensures
            r == self.wide().link,
    {
        match self {
            ElfShdr::Elf32Shdr(s) => s.link,
            ElfShdr::Elf64Shdr(s) => s.link,
        }
    }

    pub fn info(&self) -> (r: u32)
        ensures
            r == self.wide().info,
    {
        match self {
            ElfShdr::Elf32Shdr(s) => s.info,
            ElfShdr::Elf64Shdr(s) => s.info,
        }
    }

    pub fn addralign(&self) -> (r: u64)
        ensures
            r == self.wide().addralign,
    {
        match self {
            ElfShdr::Elf32Shdr(s) => s.addralign as u64,
            ElfShdr::Elf64Shdr(s) => s.addralign,
        }
    }

    pub fn entsize(&self) -> (r: u64)
        ensures
            r == self.wide().entsize,
    {
        match self {
            ElfShdr::Elf32Shdr(s) => s.entsize as u64,
            ElfShdr::Elf64Shdr(s) => s.entsize,
        }
    }

    /// A walk over the section header table of `data`, which `hdr`
    /// describes.
    pub fn iter<'a>(hdr: &ElfHdr, data: &'a [u8]) -> (r: Result<ElfShdrIter<'a>, DecodeError>)
        ensures
            match hdr.spec_format() {
                None => r == Err::<ElfShdrIter<'a>, DecodeError>(DecodeError::MalformedHeader),
                Some(f) => r matches Ok(it) && it.data == data && it.fmt == f && it.pos
                    == hdr.e_shoff && it.remaining == hdr.e_shnum,
            },
    {
        let fmt = hdr.format()?;
        Ok(ElfShdrIter { data, fmt, pos: hdr.e_shoff, remaining: hdr.e_shnum as usize })
    }

    /// Reads the section header table: `e_shnum` records from `e_shoff`,
    /// each as wide as the file's class makes it, in on-disk order.
    pub fn read_all(hdr: &ElfHdr, data: &[u8]) -> (r: Result<Vec<ElfShdr>, DecodeError>)
        ensures
            hdr.spec_format() is None ==> r == Err::<Vec<ElfShdr>, DecodeError>(
                DecodeError::MalformedHeader,
            ),
            hdr.spec_format() matches Some(f) ==> {
                if hdr.e_shoff + hdr.e_shnum * shdr_width(f.wide) <= data@.len() {
                    r matches Ok(v) && v@ == shdrs_at(
                        data@,
                        hdr.e_shoff as int,
                        hdr.e_shnum as nat,
                        f,
                    )
                } else {
                    r == Err::<Vec<ElfShdr>, DecodeError>(DecodeError::TruncatedRead)
                }
            },
    {
        let mut it = ElfShdr::iter(hdr, data)?;
        let fmt = it.fmt;
        let w: usize = if fmt.wide {
            ELF64_SHDR_SIZE
        } else {
            ELF32_SHDR_SIZE
        };
        let count = hdr.e_shnum as usize;
        let n = data.len();
        if hdr.e_shoff > n as u64 || count * w > n - hdr.e_shoff as usize {
            return Err(DecodeError::TruncatedRead);
        }
        let start = hdr.e_shoff as usize;
        let mut v: Vec<ElfShdr> = Vec::new();
        let mut i: usize = 0;
        while i < count
            invariant
                i <= count,
                w == shdr_width(fmt.wide),
                n == data@.len(),
                start == hdr.e_shoff,
                start + count * w <= n,
                it.data == data,
                it.fmt == fmt,
                it.pos == start + i * w,
                it.remaining == count - i,
                v@ == shdrs_at(data@, start as int, i as nat, fmt),
            decreases count - i,
        {
            assert(i * w + w <= count * w) by (nonlinear_arith)
                requires
                    i < count,
            ;
            match it.next() {
                Some(Ok(s)) => v.push(s),
                // The whole table lies inside `data`, so every record is read.
                _ => {
                    assert(false);
                },
            }
            proof {
                assert((i + 1) * w == i * w + w) by (nonlinear_arith);
            }
            i = i + 1;
            assert(v@ =~= shdrs_at(data@, start as int, i as nat, fmt));
        }
        Ok(v)
    }

    /// The bytes of section `index`, whose header is found `index` records
    /// of the declared record size after `offset`.
    pub fn get_data(hdr: &ElfHdr, data: &[u8], index: u64, offset: u64) -> (r: Result<
        Vec<u8>,
        DecodeError,
    >)
        ensures
            hdr.spec_format() is None ==> r == Err::<Vec<u8>, DecodeError>(
                DecodeError::MalformedHeader,
            ),
            hdr.spec_format() matches Some(f) ==> match section_data(
                data@,
                f,
                hdr.e_shentsize as int,
                index as int,
                offset as int,
            ) {
                Some(b) => r matches Ok(v) && v@ == b,
                None => r == Err::<Vec<u8>, DecodeError>(DecodeError::TruncatedRead),
            },
    {
        let fmt = hdr.format()?;
        let w: u64 = if fmt.wide {
            ELF64_SHDR_SIZE as u64
        } else {
            ELF32_SHDR_SIZE as u64
        };
        let n = data.len() as u64;
        let es = hdr.e_shentsize as u64;
        if index > 0 && es > (n / index) {
            assert(es * index > n) by (nonlinear_arith)
                requires
                    index > 0,
                    es > n / index,
            ;
            return Err(DecodeError::TruncatedRead);
        }
        assert(es * index <= n) by (nonlinear_arith)
            requires
                index == 0 || es <= n / index,
        ;
        let pos = es * index;
        if offset > n - pos || w > n - pos - offset {
            return Err(DecodeError::TruncatedRead);
        }
        let shdr = ElfShdr::parse(data, (pos + offset) as usize, fmt);
        copy_bytes(data, shdr.offset(), shdr.size())
    }

    /// The bytes of the section-name string table.
    pub fn get_string_table(hdr: &ElfHdr, data: &[u8]) -> (r: Result<Vec<u8>, DecodeError>)
        ensures
            hdr.spec_format() is None ==> r == Err::<Vec<u8>, DecodeError>(
                DecodeError::MalformedHeader,
            ),
            hdr.spec_format() matches Some(f) ==> match section_data(
                data@,
                f,
                hdr.e_shentsize as int,
                hdr.e_shstrndx as int,
                hdr.e_shoff as int,
            ) {
                Some(b) => r matches Ok(v) && v@ == b,
                None => r == Err::<Vec<u8>, DecodeError>(DecodeError::TruncatedRead),
            },
    {
        ElfShdr::get_data(hdr, data, hdr.e_shstrndx as u64, hdr.e_shoff)
    }

    /// Decodes the file header of `data`, then reads its section-name
    /// string table.
    pub fn read_string_table(data: &[u8]) -> (r: Result<Vec<u8>, DecodeError>)
        ensures
            !crate::hdr::header_readable(data@) ==> r == Err::<Vec<u8>, DecodeError>(
                DecodeError::MalformedHeader,
            ),
            crate::hdr::header_readable(data@) ==> {
                let h = crate::hdr::decode_header(data@);
                match section_data(
                    data@,
                    crate::hdr::file_format(data@),
                    h.e_shentsize as int,
                    h.e_shstrndx as int,
                    h.e_shoff as int,
                ) {
                    Some(b) => r matches Ok(v) && v@ == b,
                    None => r == Err::<Vec<u8>, DecodeError>(DecodeError::TruncatedRead),
                }
            },
    {
        let hdr = ElfHdr::read(data)?;
        ElfShdr::get_string_table(&hdr, data)
    }
}

} // verus!
