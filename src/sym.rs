//! Symbol table entries and their packed attribute fields.

use vstd::prelude::*;

use crate::bytes::{DecodeError, Format, lemma_uint_fits, read_u16, read_u32, read_word, uint_at};
use crate::hdr::ElfHdr;
use crate::shdr::ElfShdr;
use crate::text::{decimal, decimal_string};

verus! {

/// A symbol as laid out in a 32-bit file.
#[derive(Clone, Copy, Debug)]
pub struct Elf32Sym {
    pub name: u32,
    pub value: u32,
    pub size: u32,
    pub info: u8,
    pub other: u8,
    pub shndx: u16,
}

/// A symbol as laid out in a 64-bit file.
#[derive(Clone, Copy, Debug)]
pub struct Elf64Sym {
    pub name: u32,
    pub info: u8,
    pub other: u8,
    pub shndx: u16,
    pub value: u64,
    pub size: u64,
}

/// A symbol in canonical form.
#[derive(Clone, Copy, PartialEq, Eq, Debug, Structural)]
pub struct ElfSym {
    /// Index of the symbol's name in its string table.
    pub name: u32,
    /// Value of the symbol.
    pub value: u64,
    /// Size of the object, in bytes.
    pub size: u64,
    /// Index of the section the symbol is defined in.
    pub shndx: u16,
    /// Binding (high four bits) and type (low four bits).
    pub info: u8,
    /// Visibility in the low four bits.
    pub other: u8,
}

/// Kind of symbol.
#[derive(Clone, Copy, PartialEq, Eq, Debug, Structural)]
pub enum SymbolType {
    NoType,
    Object,
    Func,
    Section,
    File,
    Common,
    Tls,
    Relc,
    SRelc,
    Loos,
    GnuIFunc,
    HiOS,
    LoProc,
    HiProc,
}

/// Linkage of a symbol.
#[derive(Clone, Copy, PartialEq, Eq, Debug, Structural)]
pub enum SymbolBinding {
    Local,
    Global,
    Weak,
    Loos,
    HiOS,
    LoPROC,
    HiPROC,
}

/// Visibility of a symbol.
#[derive(Clone, Copy, PartialEq, Eq, Debug, Structural)]
pub enum SymbolVis {
    Default,
    Internal,
    Hidden,
    Protected,
}

/// Section index of an undefined symbol.
pub const SHN_UNDEF: u16 = 0;

/// Section index of a symbol with an absolute value.
pub const SHN_ABS: u16 = 0xfff1;

/// On-disk size of a 32-bit symbol.
pub const ELF32_SYM_SIZE: usize = 16;

/// On-disk size of a 64-bit symbol.
pub const ELF64_SYM_SIZE: usize = 24;

/// Size of one symbol record in the layout `wide`.
pub open spec fn sym_width(wide: bool) -> nat {
    if wide {
        24
    } else {
        16
    }
}

/// The canonical form of the symbol stored at `off` in the layout `fmt`.
pub open spec fn sym_at(d: Seq<u8>, off: int, fmt: Format) -> ElfSym {
    let e = fmt.endian;
    if fmt.wide {
        ElfSym {
            name: uint_at(d, off, 4, e) as u32,
            info: d[off + 4],
            other: d[off + 5],
            shndx: uint_at(d, off + 6, 2, e) as u16,
            value: uint_at(d, off + 8, 8, e) as u64,
            size: uint_at(d, off + 16, 8, e) as u64,
        }
    } else {
        ElfSym {
            name: uint_at(d, off, 4, e) as u32,
            value: uint_at(d, off + 4, 4, e) as u64,
            size: uint_at(d, off + 8, 4, e) as u64,
            info: d[off + 12],
            other: d[off + 13],
            shndx: uint_at(d, off + 14, 2, e) as u16,
        }
    }
}

/// The `count` symbols stored from `start`.
pub open spec fn syms_at(d: Seq<u8>, start: int, count: nat, fmt: Format) -> Seq<ElfSym> {
    Seq::new(count, |i: int| sym_at(d, start + i * sym_width(fmt.wide), fmt))
}

/// The symbols of section `s`: as many records as whole entries fit in its
/// size, from its offset.
pub open spec fn section_syms(d: Seq<u8>, s: ElfShdr, fmt: Format) -> Seq<ElfSym> {
    syms_at(d, s.wide().offset as int, (s.wide().size / s.wide().entsize) as nat, fmt)
}

/// The symbols of section `s` fit inside `d`.
pub open spec fn section_syms_fit(d: Seq<u8>, s: ElfShdr, fmt: Format) -> bool {
    s.wide().offset + (s.wide().size / s.wide().entsize) * sym_width(fmt.wide) <= d.len()
}

/// What reading the symbols of section `s` gives: `None` for an empty
/// section; an error for an unknown layout, a zero entry size, or records
/// that run past the end of `d`; else the symbols.
pub open spec fn spec_read_symbols(d: Seq<u8>, h: ElfHdr, s: ElfShdr) -> Option<
    Result<Seq<ElfSym>, DecodeError>,
> {
    if s.wide().size == 0 {
        None
    } else {
        match h.spec_format() {
            None => Some(Err(DecodeError::MalformedHeader)),
            Some(f) => if s.wide().entsize == 0 {
                Some(Err(DecodeError::ZeroEntrySize))
            } else if section_syms_fit(d, s, f) {
                Some(Ok(section_syms(d, s, f)))
            } else {
                Some(Err(DecodeError::TruncatedRead))
            },
        }
    }
}

/// The symbols that `r` holds, as a sequence.
pub open spec fn view_symbols(r: Option<Result<Vec<ElfSym>, DecodeError>>) -> Option<
    Result<Seq<ElfSym>, DecodeError>,
> {
    match r {
        None => None,
        Some(Ok(v)) => Some(Ok(v@)),
        Some(Err(e)) => Some(Err(e)),
    }
}

/// The symbol type that a type nibble names.
pub open spec fn symbol_type_of(v: u8) -> Option<SymbolType> {
    if v == 0 {
        Some(SymbolType::NoType)
    } else if v == 1 {
        Some(SymbolType::Object)
    } else if v == 2 {
        Some(SymbolType::Func)
    } else if v == 3 {
        Some(SymbolType::Section)
    } else if v == 4 {
        Some(SymbolType::File)
    } else if v == 5 {
        Some(SymbolType::Common)
    } else if v == 6 {
        Some(SymbolType::Tls)
    } else if v == 7 {
        Some(SymbolType::Relc)
    } else if v == 8 {
        Some(SymbolType::SRelc)
    } else if v == 9 {
        Some(SymbolType::Loos)
    } else if v == 10 {
        Some(SymbolType::GnuIFunc)
    } else if v == 12 {
        Some(SymbolType::HiOS)
    } else if v == 13 {
        Some(SymbolType::LoProc)
    } else if v == 15 {
        Some(SymbolType::HiProc)
    } else {
        None
    }
}

/// The binding that a binding nibble names.
pub open spec fn binding_of(v: u8) -> Option<SymbolBinding> {
    if v == 0 {
        Some(SymbolBinding::Local)
    } else if v == 1 {
        Some(SymbolBinding::Global)
    } else if v == 2 {
        Some(SymbolBinding::Weak)
    } else if v == 10 {
        Some(SymbolBinding::Loos)
    } else if v == 12 {
        Some(SymbolBinding::HiOS)
    } else if v == 13 {
        Some(SymbolBinding::LoPROC)
    } else if v == 15 {
        Some(SymbolBinding::HiPROC)
    } else {
        None
    }
}

/// The visibility that a visibility nibble names.
pub open spec fn visibility_of(v: u8) -> Option<SymbolVis> {
    if v == 0 {
        Some(SymbolVis::Default)
    } else if v == 1 {
        Some(SymbolVis::Internal)
    } else if v == 2 {
        Some(SymbolVis::Hidden)
    } else if v == 3 {
        Some(SymbolVis::Protected)
    } else {
        None
    }
}

/// How a symbol's section index is printed: `UND` for an undefined symbol,
/// `ABS` for an absolute one, else the index in decimal.
pub open spec fn shndx_text(i: u16) -> Seq<char> {
    if i == SHN_UNDEF {
        "UND"@
    } else if i == SHN_ABS {
        "ABS"@
    } else {
        decimal(i as nat)
    }
}

impl ElfSym {
    /// Decodes the symbol at `off` in the layout `fmt`.
    pub fn parse(data: &[u8], off: usize, fmt: Format) -> (r: ElfSym)
        requires
            off + sym_width(fmt.wide) <= data@.len(),
        ensures
            r == sym_at(data@, off as int, fmt),
    {
        let n = data.len();
        let e = fmt.endian;
        proof {
            lemma_uint_fits(data@, e);
        }
        if fmt.wide {
            ElfSym::from_elf64(
                &Elf64Sym {
                    name: read_u32(data, off, e),
                    info: data[off + 4],
                    other: data[off + 5],
                    shndx: read_u16(data, off + 6, e),
                    value: read_word(data, off + 8, fmt),
                    size: read_word(data, off + 16, fmt),
                },
            )
        } else {
            ElfSym::from_elf32(
                &Elf32Sym {
                    name: read_u32(data, off, e),
                    value: read_u32(data, off + 4, e),
                    size: read_u32(data, off + 8, e),
                    info: data[off + 12],
                    other: data[off + 13],
                    shndx: read_u16(data, off + 14, e),
                },
            )
        }
    }

    /// The canonical form of a 32-bit symbol: value and size widened as
    /// unsigned numbers.
    pub fn from_elf32(s: &Elf32Sym) -> (r: ElfSym)
        ensures
            r == (ElfSym {
                name: s.name,
                value: s.value as u64,
                size: s.size as u64,
                shndx: s.shndx,
                info: s.info,
                other: s.other,
            }),
    {
        ElfSym {
            name: s.name,
            value: s.value as u64,
            size: s.size as u64,
            shndx: s.shndx,
            info: s.info,
            other: s.other,
        }
    }

    /// The canonical form of a 64-bit symbol.
    pub fn from_elf64(s: &Elf64Sym) -> (r: ElfSym)
        ensures
            r == (ElfSym {
                name: s.name,
                value: s.value,
                size: s.size,
                shndx: s.shndx,
                info: s.info,
                other: s.other,
            }),
    {
        ElfSym {
            name: s.name,
            value: s.value,
            size: s.size,
            shndx: s.shndx,
            info: s.info,
            other: s.other,
        }
    }

    /// Reads the symbols of section `shdr`. `None` when the section is
    /// empty; an error when its entry size is zero or its records run past
    /// the end of `data`.
    pub fn read_symbols(hdr: &ElfHdr, data: &[u8], shdr: &ElfShdr) -> (r: Option<
        Result<Vec<ElfSym>, DecodeError>,
    >)
        ensures
            r is None <==> shdr.wide().size == 0,
            view_symbols(r) == spec_read_symbols(data@, *hdr, *shdr),
    {
        if shdr.size() == 0 {
            return None;
        }
        if let Err(e) = hdr.format() {
            return Some(Err(e));
        }
        if shdr.entsize() == 0 {
            return Some(Err(DecodeError::ZeroEntrySize));
        }
        Some(crate::internal::get_data(hdr, data, shdr.size() / shdr.entsize(), shdr.offset()))
    }

    pub fn name(&self) -> (r: u32)
        ensures
            r == self.name,
    {
        self.name
    }

    pub fn value(&self) -> (r: u64)
        ensures
            r == self.value,
    {
        self.value
    }

    pub fn size(&self) -> (r: u64)
        ensures
            r == self.size,
    {
        self.size
    }

    pub fn info(&self) -> (r: u8)
        ensures
            r == self.info,
    {
        self.info
    }

    /// The binding named by the high four bits of `info`.
    pub fn binding(&self) -> (r: Option<SymbolBinding>)
        ensures
            r == binding_of(self.info / 16),
    {
        let i = self.info;
        assert(i >> 4u8 == i / 16) by (bit_vector);
        SymbolBinding::from_u8(i >> 4)
    }

    /// The type named by the low four bits of `info`.
    pub fn symbol_type(&self) -> (r: Option<SymbolType>)
        ensures
            r == symbol_type_of(self.info % 16),
    {
        let i = self.info;
        assert(i & 0xFu8 == i % 16) by (bit_vector);
        SymbolType::from_u8(i & 0xF)
    }

    /// The visibility named by the low four bits of `other`.
    pub fn visibility(&self) -> (r: Option<SymbolVis>)
        ensures
            r == visibility_of(self.other % 16),
    {
        let o = self.other;
        assert(o & 0xFu8 == o % 16) by (bit_vector);
        SymbolVis::from_u8(o & 0xF)
    }

    pub fn shndx(&self) -> (r: u16)
        ensures
            r == self.shndx,
    {
        self.shndx
    }

    pub fn other(&self) -> (r: u8)
        ensures
            r == self.other,
    {
        self.other
    }

    /// The section index as printed: `UND`, `ABS` or the index in decimal.
    pub fn shndx_display(&self) -> (r: String)
        ensures
            r@ == shndx_text(self.shndx),
    {
        if self.shndx == SHN_UNDEF {
            String::from_str("UND")
        } else if self.shndx == SHN_ABS {
            String::from_str("ABS")
        } else {
            decimal_string(self.shndx as u64)
        }
    }
}

/// The printed name of a symbol type.
pub open spec fn symbol_type_name(t: SymbolType) -> Seq<char> {
    match t {
        SymbolType::NoType => "NOTYPE"@,
        SymbolType::Object => "OBJECT"@,
        SymbolType::Func => "FUNC"@,
        SymbolType::Section => "SECTION"@,
        SymbolType::File => "FILE"@,
        SymbolType::Common => "COMMON"@,
        SymbolType::Tls => "TLS"@,
        SymbolType::Relc => "RELC"@,
        SymbolType::SRelc => "SRELC"@,
        SymbolType::Loos => "LOOS"@,
        SymbolType::GnuIFunc => "GNUIFUNC"@,
        SymbolType::HiOS => "HIOS"@,
        SymbolType::LoProc => "LOPROC"@,
        SymbolType::HiProc => "HIPROC"@,
    }
}

/// The printed name of a binding.
pub open spec fn binding_name(b: SymbolBinding) -> Seq<char> {
    match b {
        SymbolBinding::Local => "LOCAL"@,
        SymbolBinding::Global => "GLOBAL"@,
        SymbolBinding::Weak => "WEAK"@,
        SymbolBinding::Loos => "LOOS"@,
        SymbolBinding::HiOS => "HIOS"@,
        SymbolBinding::LoPROC => "LOPROC"@,
        SymbolBinding::HiPROC => "HIPROC"@,
    }
}

/// The printed name of a visibility.
pub open spec fn visibility_name(v: SymbolVis) -> Seq<char> {
    match v {
        SymbolVis::Default => "DEFAULT"@,
        SymbolVis::Internal => "INTERNAL"@,
        SymbolVis::Hidden => "HIDDEN"@,
        SymbolVis::Protected => "PROTECTED"@,
    }
}

impl SymbolType {
    /// The symbol type that a type nibble names, if any.
    pub fn from_u8(v: u8) -> (r: Option<SymbolType>)
        ensures
            r == symbol_type_of(v),
    {
        match v {
            0 => Some(SymbolType::NoType),
            1 => Some(SymbolType::Object),
            2 => Some(SymbolType::Func),
            3 => Some(SymbolType::Section),
            4 => Some(SymbolType::File),
            5 => Some(SymbolType::Common),
            6 => Some(SymbolType::Tls),
            7 => Some(SymbolType::Relc),
            8 => Some(SymbolType::SRelc),
            9 => Some(SymbolType::Loos),
            10 => Some(SymbolType::GnuIFunc),
            12 => Some(SymbolType::HiOS),
            13 => Some(SymbolType::LoProc),
            15 => Some(SymbolType::HiProc),
            _ => None,
        }
    }

    /// The type's name in upper case.
    pub fn display(&self) -> (r: String)
        ensures
            r@ == symbol_type_name(*self),
    {
        let s = match self {
            SymbolType::NoType => "NOTYPE",
            SymbolType::Object => "OBJECT",
            SymbolType::Func => "FUNC",
            SymbolType::Section => "SECTION",
            SymbolType::File => "FILE",
            SymbolType::Common => "COMMON",
            SymbolType::Tls => "TLS",
            SymbolType::Relc => "RELC",
            SymbolType::SRelc => "SRELC",
            SymbolType::Loos => "LOOS",
            SymbolType::GnuIFunc => "GNUIFUNC",
            SymbolType::HiOS => "HIOS",
            SymbolType::LoProc => "LOPROC",
            SymbolType::HiProc => "HIPROC",
        };
        String::from_str(s)
    }
}

impl SymbolBinding {
    /// The binding that a binding nibble names, if any.
    pub fn from_u8(v: u8) -> (r: Option<SymbolBinding>)
        ensures
            r == binding_of(v),
    {
        match v {
            0 => Some(SymbolBinding::Local),
            1 => Some(SymbolBinding::Global),
            2 => Some(SymbolBinding::Weak),
            10 => Some(SymbolBinding::Loos),
            12 => Some(SymbolBinding::HiOS),
            13 => Some(SymbolBinding::LoPROC),
            15 => Some(SymbolBinding::HiPROC),
            _ => None,
        }
    }

    /// The binding's name in upper case.
    pub fn display(&self) -> (r: String)
        ensures
            r@ == binding_name(*self),
    {
        let s = match self {
            SymbolBinding::Local => "LOCAL",
            SymbolBinding::Global => "GLOBAL",
            SymbolBinding::Weak => "WEAK",
            SymbolBinding::Loos => "LOOS",
            SymbolBinding::HiOS => "HIOS",
            SymbolBinding::LoPROC => "LOPROC",
            SymbolBinding::HiPROC => "HIPROC",
        };
        String::from_str(s)
    }
}

impl SymbolVis {
    /// The visibility that a visibility nibble names, if any.
    pub fn from_u8(v: u8) -> (r: Option<SymbolVis>)
        ensures
            r == visibility_of(v),
    {
        match v {
            0 => Some(SymbolVis::Default),
            1 => Some(SymbolVis::Internal),
            2 => Some(SymbolVis::Hidden),
            3 => Some(SymbolVis::Protected),
            _ => None,
        }
    }

    /// The visibility's name in upper case.
    pub fn display(&self) -> (r: String)
        ensures
            r@ == visibility_name(*self),
    {
        let s = match self {
            SymbolVis::Default => "DEFAULT",
            SymbolVis::Internal => "INTERNAL",
            SymbolVis::Hidden => "HIDDEN",
            SymbolVis::Protected => "PROTECTED",
        };
        String::from_str(s)
    }
}

} // verus!
