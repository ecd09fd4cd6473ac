//! The file header: identification block and the fixed header fields.

use vstd::prelude::*;

pub use crate::bytes::{ElfClass, Endian};
use crate::bytes::{
    DecodeError, Format, lemma_uint_fits, read_u16, read_u32, read_word, uint_at, word_width,
};

verus! {

/// Length of the identification block.
pub const EI_NIDENT: usize = 16;

/// Index of the class selector in the identification block.
pub const EI_CLASS: usize = 4;

/// Index of the data-encoding selector in the identification block.
pub const EI_DATA: usize = 5;

/// Index of the identification version byte.
pub const EI_VERSION: usize = 6;

/// Index of the OS/ABI byte.
pub const EI_OSABI: usize = 7;

/// Index of the ABI version byte.
pub const EI_ABIVERSION: usize = 8;

/// The current identification version.
pub const ELFVER: u8 = 1;

/// The signature `0x7f 'E' 'L' 'F'` as one big-endian word.
pub const ELF_SIGNATURE: u32 = 0x7f454c46;

/// On-disk size of the 32-bit header.
pub const ELF32_HDR_SIZE: usize = 52;

/// On-disk size of the 64-bit header.
pub const ELF64_HDR_SIZE: usize = 64;

/// The canonical header: every field at its widest width.
#[derive(Debug)]
pub struct ElfHdr {
    pub e_ident: [u8; 16],
    pub e_type: u16,
    pub e_machine: u16,
    pub e_version: u32,
    pub e_entry: u64,
    pub e_phoff: u64,
    pub e_shoff: u64,
    pub e_flags: u32,
    pub e_ehsize: u16,
    pub e_phentsize: u16,
    pub e_phnum: u16,
    pub e_shentsize: u16,
    pub e_shnum: u16,
    pub e_shstrndx: u16,
}

/// The header as laid out in a 32-bit file.
#[derive(Debug)]
pub struct Elf32Hdr {
    pub e_ident: [u8; 16],
    pub e_type: u16,
    pub e_machine: u16,
    pub e_version: u32,
    pub e_entry: u32,
    pub e_phoff: u32,
    pub e_shoff: u32,
    pub e_flags: u32,
    pub e_ehsize: u16,
    pub e_phentsize: u16,
    pub e_phnum: u16,
    pub e_shentsize: u16,
    pub e_shnum: u16,
    pub e_shstrndx: u16,
}

/// The header as laid out in a 64-bit file.
#[derive(Debug)]
pub struct Elf64Hdr {
    pub e_ident: [u8; 16],
    pub e_type: u16,
    pub e_machine: u16,
    pub e_version: u32,
    pub e_entry: u64,
    pub e_phoff: u64,
    pub e_shoff: u64,
    pub e_flags: u32,
    pub e_ehsize: u16,
    pub e_phentsize: u16,
    pub e_phnum: u16,
    pub e_shentsize: u16,
    pub e_shnum: u16,
    pub e_shstrndx: u16,
}

/// Operating system and ABI that a file targets.
#[derive(Clone, Copy, Debug, PartialEq, Eq, Structural)]
pub enum OsABI {
    SystemV,
    HPUX,
    NetBSD,
    Linux,
    Solaris,
    IRIX,
    FreeBSD,
    AIX,
    Novell,
    OpenBSD,
    OpenVMS,
    Tru64,
    Unknown(u8),
}

/// Kind of object file.
#[derive(Clone, Copy, Debug, PartialEq, Eq, Structural)]
pub enum ObjectType {
    NoFileType,
    Rel,
    Exec,
    Dyn,
    Core,
    Loos,
    HIOS,
    LOPROC,
    HIPROC,
}

/// The class that a class selector byte names.
pub open spec fn class_of(b: u8) -> Option<ElfClass> {
    if b == 0 {
        Some(ElfClass::ClassNone)
    } else if b == 1 {
        Some(ElfClass::ElfClass32)
    } else if b == 2 {
        Some(ElfClass::ElfClass64)
    } else {
        None
    }
}

/// The byte order that a data-encoding selector byte names.
pub open spec fn endian_of(b: u8) -> Option<Endian> {
    if b == 1 {
        Some(Endian::Little)
    } else if b == 2 {
        Some(Endian::Big)
    } else {
        None
    }
}

/// The OS/ABI that an OS/ABI byte names.
pub open spec fn os_abi_of(b: u8) -> OsABI {
    if b == 0x0 {
        OsABI::SystemV
    } else if b == 0x1 {
        OsABI::HPUX
    } else if b == 0x2 {
        OsABI::NetBSD
    } else if b == 0x3 {
        OsABI::Linux
    } else if b == 0x6 {
        OsABI::Solaris
    } else if b == 0x8 {
        OsABI::IRIX
    } else if b == 0x9 {
        OsABI::FreeBSD
    } else if b == 0x0A {
        OsABI::Tru64
    } else if b == 0x0B {
        OsABI::Novell
    } else if b == 0x0C {
        OsABI::OpenVMS
    } else {
        OsABI::Unknown(b)
    }
}

/// The object type that a type code names.
pub open spec fn object_type_of(t: u16) -> Option<ObjectType> {
    if t == 0x0 {
        Some(ObjectType::NoFileType)
    } else if t == 0x1 {
        Some(ObjectType::Rel)
    } else if t == 0x2 {
        Some(ObjectType::Exec)
    } else if t == 0x3 {
        Some(ObjectType::Dyn)
    } else if t == 0x4 {
        Some(ObjectType::Core)
    } else if t == 0xFE00 {
        Some(ObjectType::Loos)
    } else if t == 0xFEFF {
        Some(ObjectType::HIOS)
    } else if t == 0xFF00 {
        Some(ObjectType::LOPROC)
    } else if t == 0xFFFF {
        Some(ObjectType::HIPROC)
    } else {
        None
    }
}

/// The printed name of an OS/ABI.
pub open spec fn os_abi_name(a: OsABI) -> Seq<char> {
    match a {
        OsABI::SystemV => "UNIX - System V"@,
        OsABI::HPUX => "HP-UX"@,
        OsABI::NetBSD => "NetBSD"@,
        OsABI::Linux => "Linux"@,
        OsABI::Solaris => "Solaris"@,
        OsABI::IRIX => "IRIX"@,
        OsABI::AIX => "AIX"@,
        OsABI::Novell => "Novell Modesto"@,
        OsABI::OpenBSD => "OpenBSD"@,
        OsABI::OpenVMS => "OpenVMS"@,
        OsABI::FreeBSD => "FreeBSD"@,
        OsABI::Tru64 => "UNIX - Tru64"@,
        OsABI::Unknown(_) => "Unknown"@,
    }
}

impl OsABI {
    /// The OS/ABI's printed name.
    pub fn name(&self) -> (r: String)
        ensures
            r@ == os_abi_name(*self),
    {
        let s = match self {
            OsABI::SystemV => "UNIX - System V",
            OsABI::HPUX => "HP-UX",
            OsABI::NetBSD => "NetBSD",
            OsABI::Linux => "Linux",
            OsABI::Solaris => "Solaris",
            OsABI::IRIX => "IRIX",
            OsABI::AIX => "AIX",
            OsABI::Novell => "Novell Modesto",
            OsABI::OpenBSD => "OpenBSD",
            OsABI::OpenVMS => "OpenVMS",
            OsABI::FreeBSD => "FreeBSD",
            OsABI::Tru64 => "UNIX - Tru64",
            OsABI::Unknown(_) => "Unknown",
        };
        String::from_str(s)
    }
}

/// The word of four identification bytes, the first most significant.
pub open spec fn word_of(a: u8, b: u8, c: u8, d: u8) -> u32 {
    (d as u32) | ((c as u32) << 8u32) | ((b as u32) << 16u32) | ((a as u32) << 24u32)
}

/// The 32-bit header stored at the start of `d` in byte order `e`.
pub open spec fn hdr32_of(h: Elf32Hdr, d: Seq<u8>, e: Endian) -> bool {
    &&& h.e_ident@ == d.subrange(0, 16)
    &&& h.e_type as nat == uint_at(d, 16, 2, e)
    &&& h.e_machine as nat == uint_at(d, 18, 2, e)
    &&& h.e_version as nat == uint_at(d, 20, 4, e)
    &&& h.e_entry as nat == uint_at(d, 24, 4, e)
    &&& h.e_phoff as nat == uint_at(d, 28, 4, e)
    &&& h.e_shoff as nat == uint_at(d, 32, 4, e)
    &&& h.e_flags as nat == uint_at(d, 36, 4, e)
    &&& h.e_ehsize as nat == uint_at(d, 40, 2, e)
    &&& h.e_phentsize as nat == uint_at(d, 42, 2, e)
    &&& h.e_phnum as nat == uint_at(d, 44, 2, e)
    &&& h.e_shentsize as nat == uint_at(d, 46, 2, e)
    &&& h.e_shnum as nat == uint_at(d, 48, 2, e)
    &&& h.e_shstrndx as nat == uint_at(d, 50, 2, e)
}

/// The 64-bit header stored at the start of `d` in byte order `e`.
pub open spec fn hdr64_of(h: Elf64Hdr, d: Seq<u8>, e: Endian) -> bool {
    &&& h.e_ident@ == d.subrange(0, 16)
    &&& h.e_type as nat == uint_at(d, 16, 2, e)
    &&& h.e_machine as nat == uint_at(d, 18, 2, e)
    &&& h.e_version as nat == uint_at(d, 20, 4, e)
    &&& h.e_entry as nat == uint_at(d, 24, 8, e)
    &&& h.e_phoff as nat == uint_at(d, 32, 8, e)
    &&& h.e_shoff as nat == uint_at(d, 40, 8, e)
    &&& h.e_flags as nat == uint_at(d, 48, 4, e)
    &&& h.e_ehsize as nat == uint_at(d, 52, 2, e)
    &&& h.e_phentsize as nat == uint_at(d, 54, 2, e)
    &&& h.e_phnum as nat == uint_at(d, 56, 2, e)
    &&& h.e_shentsize as nat == uint_at(d, 58, 2, e)
    &&& h.e_shnum as nat == uint_at(d, 60, 2, e)
    &&& h.e_shstrndx as nat == uint_at(d, 62, 2, e)
}

/// The canonical header whose fields hold, unchanged in value, the header
/// stored at the start of `d` in the layout `wide` and byte order `e`.
pub open spec fn header_fields(h: ElfHdr, d: Seq<u8>, wide: bool, e: Endian) -> bool {
    let w = word_width(wide);
    &&& h.e_ident@ == d.subrange(0, 16)
    &&& h.e_type as nat == uint_at(d, 16, 2, e)
    &&& h.e_machine as nat == uint_at(d, 18, 2, e)
    &&& h.e_version as nat == uint_at(d, 20, 4, e)
    &&& h.e_entry as nat == uint_at(d, 24, w, e)
    &&& h.e_phoff as nat == uint_at(d, if wide { 32 } else { 28 }, w, e)
    &&& h.e_shoff as nat == uint_at(d, if wide { 40 } else { 32 }, w, e)
    &&& h.e_flags as nat == uint_at(d, if wide { 48 } else { 36 }, 4, e)
    &&& h.e_ehsize as nat == uint_at(d, if wide { 52 } else { 40 }, 2, e)
    &&& h.e_phentsize as nat == uint_at(d, if wide { 54 } else { 42 }, 2, e)
    &&& h.e_phnum as nat == uint_at(d, if wide { 56 } else { 44 }, 2, e)
    &&& h.e_shentsize as nat == uint_at(d, if wide { 58 } else { 46 }, 2, e)
    &&& h.e_shnum as nat == uint_at(d, if wide { 60 } else { 48 }, 2, e)
    &&& h.e_shstrndx as nat == uint_at(d, if wide { 62 } else { 50 }, 2, e)
}

/// `d` holds a header that can be decoded: a known class and byte order,
/// and as many bytes as that class's header takes.
pub open spec fn header_readable(d: Seq<u8>) -> bool {
    &&& d.len() >= 16
    &&& (d[4] == 1 || d[4] == 2)
    &&& (d[5] == 1 || d[5] == 2)
    &&& d.len() >= if d[4] == 2 { 64int } else { 52int }
}

/// The record layout that the selectors at the start of `d` name.
pub open spec fn file_format(d: Seq<u8>) -> Format {
    Format { wide: d[4] == 2, endian: endian_of(d[5])->0 }
}

/// The identification block at the start of `d`.
pub open spec fn ident_of(d: Seq<u8>) -> [u8; 16] {
    [
        d[0],
        d[1],
        d[2],
        d[3],
        d[4],
        d[5],
        d[6],
        d[7],
        d[8],
        d[9],
        d[10],
        d[11],
        d[12],
        d[13],
        d[14],
        d[15],
    ]
}

/// The canonical header decoded from the start of `d`: each field is the
/// number stored at its place in the layout that the class selector names,
/// read in the byte order that the data-encoding selector names.
pub open spec fn decode_header(d: Seq<u8>) -> ElfHdr {
    let f = file_format(d);
    let wide = f.wide;
    let e = f.endian;
    let w = word_width(wide);
    ElfHdr {
        e_ident: ident_of(d),
        e_type: uint_at(d, 16, 2, e) as u16,
        e_machine: uint_at(d, 18, 2, e) as u16,
        e_version: uint_at(d, 20, 4, e) as u32,
        e_entry: uint_at(d, 24, w, e) as u64,
        e_phoff: uint_at(d, if wide { 32 } else { 28 }, w, e) as u64,
        e_shoff: uint_at(d, if wide { 40 } else { 32 }, w, e) as u64,
        e_flags: uint_at(d, if wide { 48 } else { 36 }, 4, e) as u32,
        e_ehsize: uint_at(d, if wide { 52 } else { 40 }, 2, e) as u16,
        e_phentsize: uint_at(d, if wide { 54 } else { 42 }, 2, e) as u16,
        e_phnum: uint_at(d, if wide { 56 } else { 44 }, 2, e) as u16,
        e_shentsize: uint_at(d, if wide { 58 } else { 46 }, 2, e) as u16,
        e_shnum: uint_at(d, if wide { 60 } else { 48 }, 2, e) as u16,
        e_shstrndx: uint_at(d, if wide { 62 } else { 50 }, 2, e) as u16,
    }
}

/// The canonical form of a 32-bit header: each field widened.
pub open spec fn upcast32(h: Elf32Hdr) -> ElfHdr {
    ElfHdr {
        e_ident: h.e_ident,
        e_type: h.e_type,
        e_machine: h.e_machine,
        e_version: h.e_version,
        e_entry: h.e_entry as u64,
        e_phoff: h.e_phoff as u64,
        e_shoff: h.e_shoff as u64,
        e_flags: h.e_flags,
        e_ehsize: h.e_ehsize,
        e_phentsize: h.e_phentsize,
        e_phnum: h.e_phnum,
        e_shentsize: h.e_shentsize,
        e_shnum: h.e_shnum,
        e_shstrndx: h.e_shstrndx,
    }
}

/// The canonical form of a 64-bit header.
pub open spec fn upcast64(h: Elf64Hdr) -> ElfHdr {
    ElfHdr {
        e_ident: h.e_ident,
        e_type: h.e_type,
        e_machine: h.e_machine,
        e_version: h.e_version,
        e_entry: h.e_entry,
        e_phoff: h.e_phoff,
        e_shoff: h.e_shoff,
        e_flags: h.e_flags,
        e_ehsize: h.e_ehsize,
        e_phentsize: h.e_phentsize,
        e_phnum: h.e_phnum,
        e_shentsize: h.e_shentsize,
        e_shnum: h.e_shnum,
        e_shstrndx: h.e_shstrndx,
    }
}

/// The canonical header in the 32-bit layout, when its addresses and
/// offsets fit in 32 bits.
pub open spec fn downcast32(h: ElfHdr) -> Option<Elf32Hdr> {
    if h.e_entry <= u32::MAX && h.e_phoff <= u32::MAX && h.e_shoff <= u32::MAX {
        Some(
            Elf32Hdr {
                e_ident: h.e_ident,
                e_type: h.e_type,
                e_machine: h.e_machine,
                e_version: h.e_version,
                e_entry: h.e_entry as u32,
                e_phoff: h.e_phoff as u32,
                e_shoff: h.e_shoff as u32,
                e_flags: h.e_flags,
                e_ehsize: h.e_ehsize,
                e_phentsize: h.e_phentsize,
                e_phnum: h.e_phnum,
                e_shentsize: h.e_shentsize,
                e_shnum: h.e_shnum,
                e_shstrndx: h.e_shstrndx,
            },
        )
    } else {
        None
    }
}

/// The canonical header in the 64-bit layout.
pub open spec fn downcast64(h: ElfHdr) -> Elf64Hdr {
    Elf64Hdr {
        e_ident: h.e_ident,
        e_type: h.e_type,
        e_machine: h.e_machine,
        e_version: h.e_version,
        e_entry: h.e_entry,
        e_phoff: h.e_phoff,
        e_shoff: h.e_shoff,
        e_flags: h.e_flags,
        e_ehsize: h.e_ehsize,
        e_phentsize: h.e_phentsize,
        e_phnum: h.e_phnum,
        e_shentsize: h.e_shentsize,
        e_shnum: h.e_shnum,
        e_shstrndx: h.e_shstrndx,
    }
}

/// Copies the identification block from the start of `data`.
fn read_ident(data: &[u8]) -> (r: [u8; 16])
    requires
        data@.len() >= 16,
    ensures
        r@ == data@.subrange(0, 16),
        r == ident_of(data@),
{
    let r = [
        data[0], data[1], data[2], data[3], data[4], data[5], data[6], data[7],
        data[8], data[9], data[10], data[11], data[12], data[13], data[14], data[15],
    ];
    assert(r@ =~= data@.subrange(0, 16));
    r
}

impl Elf32Hdr {
    /// Decodes the 32-bit header at the start of `data`.
    pub fn parse(data: &[u8], endian: Endian) -> (r: Elf32Hdr)
        requires
            data@.len() >= 52,
        ensures
            hdr32_of(r, data@, endian),
            r.e_ident == ident_of(data@),
    {
        Elf32Hdr {
            e_ident: read_ident(data),
            e_type: read_u16(data, 16, endian),
            e_machine: read_u16(data, 18, endian),
            e_version: read_u32(data, 20, endian),
            e_entry: read_u32(data, 24, endian),
            e_phoff: read_u32(data, 28, endian),
            e_shoff: read_u32(data, 32, endian),
            e_flags: read_u32(data, 36, endian),
            e_ehsize: read_u16(data, 40, endian),
            e_phentsize: read_u16(data, 42, endian),
            e_phnum: read_u16(data, 44, endian),
            e_shentsize: read_u16(data, 46, endian),
            e_shnum: read_u16(data, 48, endian),
            e_shstrndx: read_u16(data, 50, endian),
        }
    }
}

impl Elf64Hdr {
    /// Decodes the 64-bit header at the start of `data`.
    pub fn parse(data: &[u8], endian: Endian) -> (r: Elf64Hdr)
        requires
            data@.len() >= 64,
        ensures
            hdr64_of(r, data@, endian),
            r.e_ident == ident_of(data@),
    {
        let fmt = Format { wide: true, endian };
        Elf64Hdr {
            e_ident: read_ident(data),
            e_type: read_u16(data, 16, endian),
            e_machine: read_u16(data, 18, endian),
            e_version: read_u32(data, 20, endian),
            e_entry: read_word(data, 24, fmt),
            e_phoff: read_word(data, 32, fmt),
            e_shoff: read_word(data, 40, fmt),
            e_flags: read_u32(data, 48, endian),
            e_ehsize: read_u16(data, 52, endian),
            e_phentsize: read_u16(data, 54, endian),
            e_phnum: read_u16(data, 56, endian),
            e_shentsize: read_u16(data, 58, endian),
            e_shnum: read_u16(data, 60, endian),
            e_shstrndx: read_u16(data, 62, endian),
        }
    }
}

impl ElfHdr {
    /// Decodes the header at the start of `data`, in the layout that its
    /// class selector names, widening every field of a 32-bit header.
    pub fn read(data: &[u8]) -> (r: Result<ElfHdr, DecodeError>)
        ensures
            r == if header_readable(data@) {
                Ok(decode_header(data@))
            } else {
                Err(DecodeError::MalformedHeader)
            },
    {
        proof {
            lemma_uint_fits(data@, Endian::Little);
            lemma_uint_fits(data@, Endian::Big);
        }
        if data.len() < EI_NIDENT {
            return Err(DecodeError::MalformedHeader);
        }
        let endian = if data[EI_DATA] == 1 {
            Endian::Little
        } else if data[EI_DATA] == 2 {
            Endian::Big
        } else {
            return Err(DecodeError::MalformedHeader);
        };
        if data[EI_CLASS] == 1 && data.len() >= ELF32_HDR_SIZE {
            let h = Elf32Hdr::parse(data, endian);
            let r = ElfHdr::upcast_elf32(&h);
            assert(r == decode_header(data@));
            Ok(r)
        } else if data[EI_CLASS] == 2 && data.len() >= ELF64_HDR_SIZE {
            let h = Elf64Hdr::parse(data, endian);
            let r = ElfHdr::upcast_elf64(&h);
            assert(r == decode_header(data@));
            Ok(r)
        } else {
            Err(DecodeError::MalformedHeader)
        }
    }

    /// The identification block.
    pub fn ident(&self) -> (r: &[u8])
        ensures
            r@ == self.e_ident@,
    {
        self.e_ident.as_slice()
    }

    /// The four signature bytes as one word, the first byte most significant.
    pub fn magic(&self) -> (r: u32)
        ensures
            r == word_of(self.e_ident[0], self.e_ident[1], self.e_ident[2], self.e_ident[3]),
    {
        (self.e_ident[3] as u32) | ((self.e_ident[2] as u32) << 8u32) | ((self.e_ident[1] as u32)
            << 16u32) | ((self.e_ident[0] as u32) << 24u32)
    }

    /// The four signature bytes as one word, the first byte least significant.
    pub fn magic_reversed(&self) -> (r: u32)
        ensures
            r == word_of(self.e_ident[3], self.e_ident[2], self.e_ident[1], self.e_ident[0]),
    {
        (self.e_ident[0] as u32) | ((self.e_ident[1] as u32) << 8u32) | ((self.e_ident[2] as u32)
            << 16u32) | ((self.e_ident[3] as u32) << 24u32)
    }

    /// Whether the signature bytes, read in the header's declared byte
    /// order, spell the ELF signature.
    pub fn magic_ok(&self) -> (r: bool)
        ensures
            r == self.spec_magic_ok(),
    {
        let endian = match self.endian() {
            Some(e) => e,
            None => return false,
        };
        let x = match endian {
            Endian::Big => self.magic_reversed(),
            Endian::Little => self.magic(),
        };
        x == ELF_SIGNATURE
    }

    pub open spec fn spec_magic_ok(&self) -> bool {
        let id = self.e_ident;
        match endian_of(id[5]) {
            Some(Endian::Little) => word_of(id[0], id[1], id[2], id[3]) == ELF_SIGNATURE,
            Some(Endian::Big) => word_of(id[3], id[2], id[1], id[0]) == ELF_SIGNATURE,
            None => false,
        }
    }

    /// The class that the class selector names.
    pub fn class(&self) -> (r: Option<ElfClass>)
        ensures
            r == class_of(self.e_ident[4]),
    {
        let b = self.e_ident[EI_CLASS];
        if b == 0 {
            Some(ElfClass::ClassNone)
        } else if b == 1 {
            Some(ElfClass::ElfClass32)
        } else if b == 2 {
            Some(ElfClass::ElfClass64)
        } else {
            None
        }
    }

    /// The byte order that the data-encoding selector names.
    pub fn endian(&self) -> (r: Option<Endian>)
        ensures
            r == endian_of(self.e_ident[5]),
    {
        match self.e_ident[EI_DATA] {
            0x1 => Some(Endian::Little),
            0x2 => Some(Endian::Big),
            _ => None,
        }
    }

    /// The record layout that the class and data-encoding selectors name.
    pub open spec fn spec_format(&self) -> Option<Format> {
        let c = self.e_ident[4];
        match endian_of(self.e_ident[5]) {
            Some(e) => if c == 1 || c == 2 {
                Some(Format { wide: c == 2, endian: e })
            } else {
                None
            },
            None => None,
        }
    }

    /// The record layout of the file: its width class and byte order, when
    /// both selectors name a known value.
    pub fn format(&self) -> (r: Result<Format, DecodeError>)
        ensures
            r == match self.spec_format() {
                Some(f) => Ok(f),
                None => Err(DecodeError::MalformedHeader),
            },
    {
        let endian = match self.endian() {
            Some(e) => e,
            None => return Err(DecodeError::MalformedHeader),
        };
        match self.e_ident[EI_CLASS] {
            1 => Ok(Format { wide: false, endian }),
            2 => Ok(Format { wide: true, endian }),
            _ => Err(DecodeError::MalformedHeader),
        }
    }

    pub fn entry(&self) -> (r: u64)
        ensures
            r == self.e_entry,
    {
        self.e_entry
    }

    pub fn phstart(&self) -> (r: u64)
        ensures
            r == self.e_phoff,
    {
        self.e_phoff
    }

    pub fn shstart(&self) -> (r: u64)
        ensures
            r == self.e_shoff,
    {
        self.e_shoff
    }

    /// Number of program headers.
    pub fn nheaders(&self) -> (r: u16)
        ensures
            r == self.e_phnum,
    {
        self.e_phnum
    }

    pub fn flags(&self) -> (r: u32)
        ensures
            r == self.e_flags,
    {
        self.e_flags
    }

    pub fn header_size(&self) -> (r: u16)
        ensures
            r == self.e_ehsize,
    {
        self.e_ehsize
    }

    /// Size of one section header record.
    pub fn section_size(&self) -> (r: u16)
        ensures
            r == self.e_shentsize,
    {
        self.e_shentsize
    }

    pub fn nsection_headers(&self) -> (r: u16)
        ensures
            r == self.e_shnum,
    {
        self.e_shnum
    }

    /// Size of one program header record.
    pub fn program_headers_size(&self) -> (r: u16)
        ensures
            r == self.e_phentsize,
    {
        self.e_phentsize
    }

    /// Index of the section that holds the section names.
    pub fn table_index(&self) -> (r: u16)
        ensures
            r == self.e_shstrndx,
    {
        self.e_shstrndx
    }

    pub fn machine(&self) -> (r: u16)
        ensures
            r == self.e_machine,
    {
        self.e_machine
    }

    /// The identification version byte.
    pub fn version(&self) -> (r: u8)
        ensures
            r == self.e_ident[6],
    {
        self.e_ident[EI_VERSION]
    }

    pub fn abi_version(&self) -> (r: u8)
        ensures
            r == self.e_ident[8],
    {
        self.e_ident[EI_ABIVERSION]
    }

    /// The OS/ABI that the OS/ABI byte names; never fails.
    pub fn os_abi(&self) -> (r: OsABI)
        ensures
            r == os_abi_of(self.e_ident[7]),
    {
        match self.e_ident[EI_OSABI] {
            0x0 => OsABI::SystemV,
            0x1 => OsABI::HPUX,
            0x2 => OsABI::NetBSD,
            0x3 => OsABI::Linux,
            0x6 => OsABI::Solaris,
            0x8 => OsABI::IRIX,
            0x9 => OsABI::FreeBSD,
            0x0A => OsABI::Tru64,
            0x0B => OsABI::Novell,
            0x0C => OsABI::OpenVMS,
            i => OsABI::Unknown(i),
        }
    }

    /// The object type that the type field names, if it names one.
    pub fn ftype(&self) -> (r: Option<ObjectType>)
        ensures
            r == object_type_of(self.e_type),
    {
        match self.e_type {
            0x0 => Some(ObjectType::NoFileType),
            0x1 => Some(ObjectType::Rel),
            0x2 => Some(ObjectType::Exec),
            0x3 => Some(ObjectType::Dyn),
            0x4 => Some(ObjectType::Core),
            0xFE00 => Some(ObjectType::Loos),
            0xFEFF => Some(ObjectType::HIOS),
            0xFF00 => Some(ObjectType::LOPROC),
            0xFFFF => Some(ObjectType::HIPROC),
            _ => None,
        }
    }

    /// The canonical form of a 32-bit header: addresses and offsets are
    /// widened as unsigned values.
    pub fn upcast_elf32(hdr: &Elf32Hdr) -> (r: ElfHdr)
        ensures
            r == upcast32(*hdr),
    {
        ElfHdr {
            e_ident: hdr.e_ident,
            e_type: hdr.e_type,
            e_machine: hdr.e_machine,
            e_version: hdr.e_version,
            e_entry: hdr.e_entry as u64,
            e_phoff: hdr.e_phoff as u64,
            e_shoff: hdr.e_shoff as u64,
            e_flags: hdr.e_flags,
            e_ehsize: hdr.e_ehsize,
            e_phentsize: hdr.e_phentsize,
            e_phnum: hdr.e_phnum,
            e_shentsize: hdr.e_shentsize,
            e_shnum: hdr.e_shnum,
            e_shstrndx: hdr.e_shstrndx,
        }
    }

    /// The canonical form of a 64-bit header.
    pub fn upcast_elf64(hdr: &Elf64Hdr) -> (r: ElfHdr)
        ensures
            r == upcast64(*hdr),
    {
        ElfHdr {
            e_ident: hdr.e_ident,
            e_type: hdr.e_type,
            e_machine: hdr.e_machine,
            e_version: hdr.e_version,
            e_entry: hdr.e_entry,
            e_phoff: hdr.e_phoff,
            e_shoff: hdr.e_shoff,
            e_flags: hdr.e_flags,
            e_ehsize: hdr.e_ehsize,
            e_phentsize: hdr.e_phentsize,
            e_phnum: hdr.e_phnum,
            e_shentsize: hdr.e_shentsize,
            e_shnum: hdr.e_shnum,
            e_shstrndx: hdr.e_shstrndx,
        }
    }

    /// This header in the 32-bit layout; `None` when an address or offset
    /// does not fit in 32 bits.
    pub fn downcast_elf32(&self) -> (r: Option<Elf32Hdr>)
        ensures
            r == downcast32(*self),
    {
        if self.e_entry <= 0xffff_ffff && self.e_phoff <= 0xffff_ffff && self.e_shoff
            <= 0xffff_ffff {
            Some(
                Elf32Hdr {
                    e_ident: self.e_ident,
                    e_type: self.e_type,
                    e_machine: self.e_machine,
                    e_version: self.e_version,
                    e_entry: self.e_entry as u32,
                    e_phoff: self.e_phoff as u32,
                    e_shoff: self.e_shoff as u32,
                    e_flags: self.e_flags,
                    e_ehsize: self.e_ehsize,
                    e_phentsize: self.e_phentsize,
                    e_phnum: self.e_phnum,
                    e_shentsize: self.e_shentsize,
                    e_shnum: self.e_shnum,
                    e_shstrndx: self.e_shstrndx,
                },
            )
        } else {
            None
        }
    }

    /// This header in the 64-bit layout.
    pub fn downcast_elf64(&self) -> (r: Elf64Hdr)
        ensures
            r == downcast64(*self),
    {
        Elf64Hdr {
            e_ident: self.e_ident,
            e_type: self.e_type,
            e_machine: self.e_machine,
            e_version: self.e_version,
            e_entry: self.e_entry,
            e_phoff: self.e_phoff,
            e_shoff: self.e_shoff,
            e_flags: self.e_flags,
            e_ehsize: self.e_ehsize,
            e_phentsize: self.e_phentsize,
            e_phnum: self.e_phnum,
            e_shentsize: self.e_shentsize,
            e_shnum: self.e_shnum,
            e_shstrndx: self.e_shstrndx,
        }
    }
}

/// A 64-bit header loses nothing on its way to the canonical form: every
/// canonical field equals the on-disk field, and converting back gives the
/// on-disk header again.
pub proof fn lemma_header64_exact(h: Elf64Hdr)
    ensures
        upcast64(h).e_entry == h.e_entry,
        upcast64(h).e_phoff == h.e_phoff,
        upcast64(h).e_shoff == h.e_shoff,
        upcast64(h).e_flags == h.e_flags,
        upcast64(h).e_ident == h.e_ident,
        downcast64(upcast64(h)) == h,
{
}

/// A 32-bit header widens without change of value: every canonical field
/// equals the on-disk field as an unsigned number, and converting back to
/// the 32-bit layout gives the on-disk header again.
pub proof fn lemma_header32_widening(h: Elf32Hdr)
    ensures
        upcast32(h).e_entry as nat == h.e_entry as nat,
        upcast32(h).e_phoff as nat == h.e_phoff as nat,
        upcast32(h).e_shoff as nat == h.e_shoff as nat,
        upcast32(h).e_flags == h.e_flags,
        upcast32(h).e_ident == h.e_ident,
        downcast32(upcast32(h)) == Some(h),
{
}

/// Decoding a header loses nothing: every canonical field equals, as an
/// unsigned number, the field stored on disk at its place in the file's own
/// layout, for 32-bit and 64-bit files alike.
pub proof fn lemma_decode_exact(d: Seq<u8>)
    requires
        header_readable(d),
    ensures
        header_fields(decode_header(d), d, d[4] == 2, endian_of(d[5])->0),
{
    lemma_uint_fits(d, endian_of(d[5])->0);
    assert(ident_of(d)@ =~= d.subrange(0, 16));
}

/// The signature check holds exactly when the four identification bytes,
/// taken in the declared byte order, are `0x7f 'E' 'L' 'F'`.
pub proof fn lemma_magic_ok_signature(h: ElfHdr)
    ensures
        h.spec_magic_ok() <==> (endian_of(h.e_ident[5]) == Some(Endian::Little) && h.e_ident[0]
            == 0x7f && h.e_ident[1] == 0x45 && h.e_ident[2] == 0x4c && h.e_ident[3] == 0x46) || (
        endian_of(h.e_ident[5]) == Some(Endian::Big) && h.e_ident[3] == 0x7f && h.e_ident[2]
            == 0x45 && h.e_ident[1] == 0x4c && h.e_ident[0] == 0x46),
{
    let a = h.e_ident[0];
    let b = h.e_ident[1];
    let c = h.e_ident[2];
    let d = h.e_ident[3];
    assert(word_of(a, b, c, d) == 0x7f454c46u32 <==> (a == 0x7f && b == 0x45 && c == 0x4c && d
        == 0x46)) by (bit_vector);
    assert(word_of(d, c, b, a) == 0x7f454c46u32 <==> (d == 0x7f && c == 0x45 && b == 0x4c && a
        == 0x46)) by (bit_vector);
}

} // verus!
