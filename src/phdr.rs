//! Program headers: the segments that a loader maps.

use vstd::prelude::*;

use crate::bytes::{DecodeError, Format, lemma_uint_fits, read_u32, read_word, uint_at, word_width};
use crate::hdr::ElfHdr;

verus! {

/// Kind of segment.
#[derive(PartialEq, Eq, Clone, Debug, Copy, Structural)]
pub enum ProgramType {
    Null,
    Load,
    Dynamic,
    Interp,
    Note,
    ShLib,
    Phdr,
    Tls,
    LoOS,
    HiOS,
    LoProc,
    HiProc,
    GnuEhFrame,
    GnuStack,
    GnuRelro,
    GnuProperty,
}

/// Segment type codes that the membership rules test.
pub const PT_LOAD: u32 = 1;

pub const PT_DYNAMIC: u32 = 2;

pub const PT_NOTE: u32 = 4;

pub const PT_PHDR: u32 = 6;

pub const PT_TLS: u32 = 7;

pub const PT_GNU_EH_FRAME: u32 = 0x6474e550;

pub const PT_GNU_RELRO: u32 = 0x6474e552;

/// First and last codes of the range of GNU memory-binding segments.
pub const PT_GNU_MBIND_LO: u32 = 0x6474e555;

pub const PT_GNU_MBIND_HI: u32 = 0x6474f554;

/// Read, write and execute permissions of a segment.
#[derive(PartialEq, Eq, Clone, Debug, Copy, Structural)]
pub struct ProgramFlags {
    pub read: bool,
    pub write: bool,
    pub execute: bool,
}

/// A segment in canonical form.
#[derive(Debug, Clone, Copy)]
pub struct ElfPhdr {
    pub p_type: u32,
    pub p_offset: u64,
    pub p_vaddr: u64,
    pub p_paddr: u64,
    pub p_filesz: u64,
    pub p_memsz: u64,
    pub p_flags: u64,
    pub p_align: u64,
}

/// A program header as laid out in a 32-bit file.
#[derive(Debug, Clone, Copy)]
pub struct Elf32Phdr {
    pub p_type: u32,
    pub p_offset: u32,
    pub p_vaddr: u32,
    pub p_paddr: u32,
    pub p_filesz: u32,
    pub p_memsz: u32,
    pub p_flags: u32,
    pub p_align: u32,
}

/// A program header as laid out in a 64-bit file.
#[derive(Debug, Clone, Copy)]
pub struct Elf64Phdr {
    pub p_type: u32,
    pub p_flags: u32,
    pub p_offset: u64,
    pub p_vaddr: u64,
    pub p_paddr: u64,
    pub p_filesz: u64,
    pub p_memsz: u64,
    pub p_align: u64,
}

/// On-disk size of a 32-bit program header.
pub const ELF32_PHDR_SIZE: usize = 32;

/// On-disk size of a 64-bit program header.
pub const ELF64_PHDR_SIZE: usize = 56;

/// Size of one program header record in the layout `wide`.
pub open spec fn phdr_width(wide: bool) -> nat {
    if wide {
        56
    } else {
        32
    }
}

/// The canonical form of the program header stored at `off` in the layout
/// `fmt`.
pub open spec fn phdr_at(d: Seq<u8>, off: int, fmt: Format) -> ElfPhdr {
    let e = fmt.endian;
    let w = word_width(fmt.wide);
    if fmt.wide {
        ElfPhdr {
            p_type: uint_at(d, off, 4, e) as u32,
            p_flags: uint_at(d, off + 4, 4, e) as u64,
            p_offset: uint_at(d, off + 8, w, e) as u64,
            p_vaddr: uint_at(d, off + 16, w, e) as u64,
            p_paddr: uint_at(d, off + 24, w, e) as u64,
            p_filesz: uint_at(d, off + 32, w, e) as u64,
            p_memsz: uint_at(d, off + 40, w, e) as u64,
            p_align: uint_at(d, off + 48, w, e) as u64,
        }
    } else {
        ElfPhdr {
            p_type: uint_at(d, off, 4, e) as u32,
            p_offset: uint_at(d, off + 4, w, e) as u64,
            p_vaddr: uint_at(d, off + 8, w, e) as u64,
            p_paddr: uint_at(d, off + 12, w, e) as u64,
            p_filesz: uint_at(d, off + 16, w, e) as u64,
            p_memsz: uint_at(d, off + 20, w, e) as u64,
            p_flags: uint_at(d, off + 24, 4, e) as u64,
            p_align: uint_at(d, off + 28, w, e) as u64,
        }
    }
}

/// The program header table of `count` records from `start`.
pub open spec fn phdrs_at(d: Seq<u8>, start: int, count: nat, fmt: Format) -> Seq<ElfPhdr> {
    Seq::new(count, |i: int| phdr_at(d, start + i * phdr_width(fmt.wide), fmt))
}

/// The segment type that a type code names.
pub open spec fn program_type_of(v: u32) -> Option<ProgramType> {
    if v == 0 {
        Some(ProgramType::Null)
    } else if v == 1 {
        Some(ProgramType::Load)
    } else if v == 2 {
        Some(ProgramType::Dynamic)
    } else if v == 3 {
        Some(ProgramType::Interp)
    } else if v == 4 {
        Some(ProgramType::Note)
    } else if v == 5 {
        Some(ProgramType::ShLib)
    } else if v == 6 {
        Some(ProgramType::Phdr)
    } else if v == 7 {
        Some(ProgramType::Tls)
    } else if v == 0x60000000 {
        Some(ProgramType::LoOS)
    } else if v == 0x6fffffff {
        Some(ProgramType::HiOS)
    } else if v == 0x70000000 {
        Some(ProgramType::LoProc)
    } else if v == 0x7fffffff {
        Some(ProgramType::HiProc)
    } else if v == 0x6474e550 {
        Some(ProgramType::GnuEhFrame)
    } else if v == 0x6474e551 {
        Some(ProgramType::GnuStack)
    } else if v == 0x6474e552 {
        Some(ProgramType::GnuRelro)
    } else if v == 0x6474e553 {
        Some(ProgramType::GnuProperty)
    } else {
        None
    }
}

/// The printed name of a segment type.
pub open spec fn program_type_name(t: ProgramType) -> Seq<char> {
    match t {
        ProgramType::Null => "NULL"@,
        ProgramType::Load => "LOAD"@,
        ProgramType::Dynamic => "DYNAMIC"@,
        ProgramType::Interp => "INTERP"@,
        ProgramType::Note => "NOTE"@,
        ProgramType::ShLib => "SH_LIB"@,
        ProgramType::Phdr => "PHDR"@,
        ProgramType::Tls => "TLS"@,
        ProgramType::LoOS => "LO_O_S"@,
        ProgramType::HiOS => "HI_O_S"@,
        ProgramType::LoProc => "LO_PROC"@,
        ProgramType::HiProc => "HI_PROC"@,
        ProgramType::GnuEhFrame => "GNU_EH_FRAME"@,
        ProgramType::GnuStack => "GNU_STACK"@,
        ProgramType::GnuRelro => "GNU_RELRO"@,
        ProgramType::GnuProperty => "GNU_PROPERTY"@,
    }
}

impl ProgramType {
    /// The segment type that a type code names, if any.
    pub fn from_u32(v: u32) -> (r: Option<ProgramType>)
        ensures
            r == program_type_of(v),
    {
        match v {
            0 => Some(ProgramType::Null),
            1 => Some(ProgramType::Load),
            2 => Some(ProgramType::Dynamic),
            3 => Some(ProgramType::Interp),
            4 => Some(ProgramType::Note),
            5 => Some(ProgramType::ShLib),
            6 => Some(ProgramType::Phdr),
            7 => Some(ProgramType::Tls),
            0x60000000 => Some(ProgramType::LoOS),
            0x6fffffff => Some(ProgramType::HiOS),
            0x70000000 => Some(ProgramType::LoProc),
            0x7fffffff => Some(ProgramType::HiProc),
            0x6474e550 => Some(ProgramType::GnuEhFrame),
            0x6474e551 => Some(ProgramType::GnuStack),
            0x6474e552 => Some(ProgramType::GnuRelro),
            0x6474e553 => Some(ProgramType::GnuProperty),
            _ => None,
        }
    }

    /// The type's name in upper case, with `_` before each inner capital of
    /// its variant name.
    pub fn display(&self) -> (r: String)
        ensures
            r@ == program_type_name(*self),
    {
        let s = match self {
            ProgramType::Null => "NULL",
            ProgramType::Load => "LOAD",
            ProgramType::Dynamic => "DYNAMIC",
            ProgramType::Interp => "INTERP",
            ProgramType::Note => "NOTE",
            ProgramType::ShLib => "SH_LIB",
            ProgramType::Phdr => "PHDR",
            ProgramType::Tls => "TLS",
            ProgramType::LoOS => "LO_O_S",
            ProgramType::HiOS => "HI_O_S",
            ProgramType::LoProc => "LO_PROC",
            ProgramType::HiProc => "HI_PROC",
            ProgramType::GnuEhFrame => "GNU_EH_FRAME",
            ProgramType::GnuStack => "GNU_STACK",
            ProgramType::GnuRelro => "GNU_RELRO",
            ProgramType::GnuProperty => "GNU_PROPERTY",
        };
        String::from_str(s)
    }
}

impl ProgramFlags {
    /// Three columns: `R`, `W` and `E` for the permissions granted, a space
    /// for each one withheld.
    pub fn display(&self) -> (r: String)
        ensures
            r@ == (if self.read {
                "R"@
            } else {
                " "@
            }) + (if self.write {
                "W"@
            } else {
                " "@
            }) + (if self.execute {
                "E"@
            } else {
                " "@
            }),
    {
        let mut s = String::new();
        if self.read {
            s.append("R");
        } else {
            s.append(" ");
        }
        if self.write {
            s.append("W");
        } else {
            s.append(" ");
        }
        if self.execute {
            s.append("E");
        } else {
            s.append(" ");
        }
        assert(s@ =~= Seq::<char>::empty() + (if self.read {
            "R"@
        } else {
            " "@
        }) + (if self.write {
            "W"@
        } else {
            " "@
        }) + (if self.execute {
            "E"@
        } else {
            " "@
        }));
        s
    }
}

impl ElfPhdr {
    /// Decodes the program header at `off` in the layout `fmt`.
    pub fn parse(data: &[u8], off: usize, fmt: Format) -> (r: ElfPhdr)
        requires
            off + phdr_width(fmt.wide) <= data@.len(),
        ensures
            r == phdr_at(data@, off as int, fmt),
    {
        let n = data.len();
        let e = fmt.endian;
        proof {
            lemma_uint_fits(data@, e);
        }
        if fmt.wide {
            ElfPhdr::from_elf64(
                &Elf64Phdr {
                    p_type: read_u32(data, off, e),
                    p_flags: read_u32(data, off + 4, e),
                    p_offset: read_word(data, off + 8, fmt),
                    p_vaddr: read_word(data, off + 16, fmt),
                    p_paddr: read_word(data, off + 24, fmt),
                    p_filesz: read_word(data, off + 32, fmt),
                    p_memsz: read_word(data, off + 40, fmt),
                    p_align: read_word(data, off + 48, fmt),
                },
            )
        } else {
            ElfPhdr::from_elf32(
                &Elf32Phdr {
                    p_type: read_u32(data, off, e),
                    p_offset: read_u32(data, off + 4, e),
                    p_vaddr: read_u32(data, off + 8, e),
                    p_paddr: read_u32(data, off + 12, e),
                    p_filesz: read_u32(data, off + 16, e),
                    p_memsz: read_u32(data, off + 20, e),
                    p_flags: read_u32(data, off + 24, e),
                    p_align: read_u32(data, off + 28, e),
                },
            )
        }
    }

    /// The canonical form of a 64-bit program header.
    pub fn from_elf64(p: &Elf64Phdr) -> (r: ElfPhdr)
        ensures
            r == (ElfPhdr {
                p_type: p.p_type,
                p_offset: p.p_offset,
                p_vaddr: p.p_vaddr,
                p_paddr: p.p_paddr,
                p_filesz: p.p_filesz,
                p_memsz: p.p_memsz,
                p_flags: p.p_flags as u64,
                p_align: p.p_align,
            }),
    {
        ElfPhdr {
            p_type: p.p_type,
            p_offset: p.p_offset,
            p_vaddr: p.p_vaddr,
            p_paddr: p.p_paddr,
            p_filesz: p.p_filesz,
            p_memsz: p.p_memsz,
            p_flags: p.p_flags as u64,
            p_align: p.p_align,
        }
    }

    /// The canonical form of a 32-bit program header: each field widened as
    /// an unsigned value.
    pub fn from_elf32(p: &Elf32Phdr) -> (r: ElfPhdr)
        ensures
            r == (ElfPhdr {
                p_type: p.p_type,
                p_offset: p.p_offset as u64,
                p_vaddr: p.p_vaddr as u64,
                p_paddr: p.p_paddr as u64,
                p_filesz: p.p_filesz as u64,
                p_memsz: p.p_memsz as u64,
                p_flags: p.p_flags as u64,
                p_align: p.p_align as u64,
            }),
    {
        ElfPhdr {
            p_type: p.p_type,
            p_offset: p.p_offset as u64,
            p_vaddr: p.p_vaddr as u64,
            p_paddr: p.p_paddr as u64,
            p_filesz: p.p_filesz as u64,
            p_memsz: p.p_memsz as u64,
            p_flags: p.p_flags as u64,
            p_align: p.p_align as u64,
        }
    }

    /// Reads the program header table: `e_phnum` records from `e_phoff`,
    /// each as wide as the file's class makes it, in on-disk order.
    pub fn read(hdr: &ElfHdr, data: &[u8]) -> (r: Result<Vec<ElfPhdr>, DecodeError>)
        ensures
            hdr.spec_format() is None ==> r == Err::<Vec<ElfPhdr>, DecodeError>(
                DecodeError::MalformedHeader,
            ),
            hdr.spec_format() matches Some(f) ==> {
                if hdr.e_phoff + hdr.e_phnum * phdr_width(f.wide) <= data@.len() {
                    r matches Ok(v) && v@ == phdrs_at(
                        data@,
                        hdr.e_phoff as int,
                        hdr.e_phnum as nat,
                        f,
                    )
                } else {
                    r == Err::<Vec<ElfPhdr>, DecodeError>(DecodeError::TruncatedRead)
                }
            },
    {
        let fmt = hdr.format()?;
        let w: usize = if fmt.wide {
            ELF64_PHDR_SIZE
        } else {
            ELF32_PHDR_SIZE
        };
        let count = hdr.e_phnum as usize;
        let n = data.len();
        if hdr.e_phoff > n as u64 || count * w > n - hdr.e_phoff as usize {
            return Err(DecodeError::TruncatedRead);
        }
        let start = hdr.e_phoff as usize;
        let mut v: Vec<ElfPhdr> = Vec::new();
        let mut i: usize = 0;
        let mut pos: usize = start;
        while i < count
            invariant
                i <= count,
                w == phdr_width(fmt.wide),
                n == data@.len(),
                start == hdr.e_phoff,
                start + count * w <= n,
                pos == start + i * w,
                v@ == phdrs_at(data@, start as int, i as nat, fmt),
            decreases count - i,
        {
            assert(i * w + w <= count * w) by (nonlinear_arith)
                requires
                    i < count,
            ;
            let p = ElfPhdr::parse(data, pos, fmt);
            v.push(p);
            proof {
                assert((i + 1) * w == i * w + w) by (nonlinear_arith);
            }
            i = i + 1;
            pos = pos + w;
            assert(v@ =~= phdrs_at(data@, start as int, i as nat, fmt));
        }
        Ok(v)
    }

    /// The segment type, if its code names one.
    pub fn program_type(&self) -> (r: Option<ProgramType>)
        ensures
            r == program_type_of(self.p_type),
    {
        ProgramType::from_u32(self.p_type)
    }

    pub fn offset(&self) -> (r: u64)
        ensures
            r == self.p_offset,
    {
        self.p_offset
    }

    pub fn vaddr(&self) -> (r: u64)
        ensures
            r == self.p_vaddr,
    {
        self.p_vaddr
    }

    pub fn paddr(&self) -> (r: u64)
        ensures
            r == self.p_paddr,
    {
        self.p_paddr
    }

    /// Number of bytes the segment occupies in the file.
    pub fn filesz(&self) -> (r: u64)
        ensures
            r == self.p_filesz,
    {
        self.p_filesz
    }

    /// Number of bytes the segment occupies in memory.
    pub fn memsz(&self) -> (r: u64)
        ensures
            r == self.p_memsz,
    {
        self.p_memsz
    }

    /// The read (4), write (2) and execute (1) permission bits.
    pub fn flags(&self) -> (r: ProgramFlags)
        ensures
            r.read == (self.p_flags & 0x4 == 0x4),
            r.write == (self.p_flags & 0x2 == 0x2),
            r.execute == (self.p_flags & 0x1 == 0x1),
    {
        ProgramFlags {
            read: self.p_flags & 0x4 == 0x4,
            write: self.p_flags & 0x2 == 0x2,
            execute: self.p_flags & 0x1 == 0x1,
        }
    }

    pub fn align(&self) -> (r: u64)
        ensures
            r == self.p_align,
    {
        self.p_align
    }
}

} // verus!
