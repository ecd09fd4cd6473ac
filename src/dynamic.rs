//! The dynamic section: tagged entries that steer run-time linking.

use vstd::prelude::*;

use crate::bytes::{
    DecodeError, Format, bytes_in, lemma_uint_fits, read_u32, read_word, uint_at, word_width,
};
use crate::hdr::ElfHdr;

verus! {

/// Tag of a dynamic entry.
#[derive(Clone, Copy, PartialEq, Eq, Debug, Structural)]
pub enum DynamicTag {
    Null,
    Needed,
    PltRelSz,
    PltGot,
    Hash,
    StrTab,
    SymTab,
    Rela,
    RelaSz,
    RelaEnt,
    StrSz,
    SymEnt,
    Init,
    Fini,
    SoName,
    RPath,
    Symbolic,
    Rel,
    RelSz,
    RelEnt,
    PltRel,
    Debug,
    TextRel,
    JmpRel,
    BindNow,
    InitArray,
    FiniArray,
    InitArraySz,
    FiniArraySz,
    RunPath,
    Flags,
    PreInitArray,
    PreInitArraySz,
    SymtabShndx,
    RelrSz,
    RelR,
    RelrEnt,
    Encoding,
    Valrnglo,
    GnuFlags1,
    GnuPrelinked,
    GnuConflictsz,
    GnuLiblistsz,
    Checksum,
    PltPadSz,
    MoveEnt,
    MoveSz,
    Feature,
    Posflag1,
    Syminsz,
    SymIEntOrValRNGHI,
    Addrrnglo,
    GnuHash,
    TlsdescPlt,
    TlsdescGot,
    GnuConflict,
    GnuLiblist,
    Config,
    Depaudit,
    Audit,
    PltPad,
    MoveTab,
    SymInfoOrAddrrnGHI,
    Relacount,
    Relcount,
    Flags1,
    Verdef,
    Verdefnum,
    Verneed,
    Verneednum,
    Versym,
    Loproc,
    Hiproc,
}

/// Whether a relocation table's records carry addends.
#[derive(Clone, Copy, PartialEq, Eq, PartialOrd, Ord, Debug, Structural)]
pub enum RelaState {
    False,
    True,
    Unknown,
}

/// A kind of dynamic relocation table: the tags of its address and of its
/// total size.
#[derive(Clone, Copy, Debug)]
pub struct DynamicRelocs {
    pub name: &'static str,
    pub reloc: DynamicTag,
    pub size: DynamicTag,
    pub rela: RelaState,
}

/// A dynamic entry: a tag and a value that, depending on the tag, is a
/// plain number or an address.
#[derive(Clone, Copy, PartialEq, Eq, Debug, Structural)]
pub struct Dyn {
    pub tag: u64,
    pub value: u64,
}

/// A dynamic entry as laid out in a 32-bit file.
#[derive(Clone, Copy, Debug)]
pub struct Elf32Dyn {
    pub tag: u32,
    pub value: u32,
}

/// A dynamic entry as laid out in a 64-bit file.
#[derive(Clone, Copy, Debug)]
pub struct Elf64Dyn {
    pub tag: u64,
    pub value: u64,
}

/// On-disk size of a 32-bit dynamic entry.
pub const ELF32_DYN_SIZE: usize = 8;

/// On-disk size of a 64-bit dynamic entry.
pub const ELF64_DYN_SIZE: usize = 16;

/// Number of slots of the table that entries are folded into.
pub const DYNAMIC_INFO_LEN: usize = 38;

/// The tag that a tag code names.
pub open spec fn dynamic_tag_of(v: u64) -> Option<DynamicTag> {
    if v == 0x0 {
        Some(DynamicTag::Null)
    } else if v == 0x1 {
        Some(DynamicTag::Needed)
    } else if v == 0x2 {
        Some(DynamicTag::PltRelSz)
    } else if v == 0x3 {
        Some(DynamicTag::PltGot)
    } else if v == 0x4 {
        Some(DynamicTag::Hash)
    } else if v == 0x5 {
        Some(DynamicTag::StrTab)
    } else if v == 0x6 {
        Some(DynamicTag::SymTab)
    } else if v == 0x7 {
        Some(DynamicTag::Rela)
    } else if v == 0x8 {
        Some(DynamicTag::RelaSz)
    } else if v == 0x9 {
        Some(DynamicTag::RelaEnt)
    } else if v == 0xa {
        Some(DynamicTag::StrSz)
    } else if v == 0xb {
        Some(DynamicTag::SymEnt)
    } else if v == 0xc {
        Some(DynamicTag::Init)
    } else if v == 0xd {
        Some(DynamicTag::Fini)
    } else if v == 0xe {
        Some(DynamicTag::SoName)
    } else if v == 0xf {
        Some(DynamicTag::RPath)
    } else if v == 0x10 {
        Some(DynamicTag::Symbolic)
    } else if v == 0x11 {
        Some(DynamicTag::Rel)
    } else if v == 0x12 {
        Some(DynamicTag::RelSz)
    } else if v == 0x13 {
        Some(DynamicTag::RelEnt)
    } else if v == 0x14 {
        Some(DynamicTag::PltRel)
    } else if v == 0x15 {
        Some(DynamicTag::Debug)
    } else if v == 0x16 {
        Some(DynamicTag::TextRel)
    } else if v == 0x17 {
        Some(DynamicTag::JmpRel)
    } else if v == 0x18 {
        Some(DynamicTag::BindNow)
    } else if v == 0x19 {
        Some(DynamicTag::InitArray)
    } else if v == 0x1a {
        Some(DynamicTag::FiniArray)
    } else if v == 0x1b {
        Some(DynamicTag::InitArraySz)
    } else if v == 0x1c {
        Some(DynamicTag::FiniArraySz)
    } else if v == 0x1d {
        Some(DynamicTag::RunPath)
    } else if v == 0x1e {
        Some(DynamicTag::Flags)
    } else if v == 0x20 {
        Some(DynamicTag::PreInitArray)
    } else if v == 0x21 {
        Some(DynamicTag::PreInitArraySz)
    } else if v == 0x22 {
        Some(DynamicTag::SymtabShndx)
    } else if v == 0x23 {
        Some(DynamicTag::RelrSz)
    } else if v == 0x24 {
        Some(DynamicTag::RelR)
    } else if v == 0x25 {
        Some(DynamicTag::RelrEnt)
    } else if v == 0x26 {
        Some(DynamicTag::Encoding)
    } else if v == 0x6ffffd00 {
        Some(DynamicTag::Valrnglo)
    } else if v == 0x6ffffdf4 {
        Some(DynamicTag::GnuFlags1)
    } else if v == 0x6ffffdf5 {
        Some(DynamicTag::GnuPrelinked)
    } else if v == 0x6ffffdf6 {
        Some(DynamicTag::GnuConflictsz)
    } else if v == 0x6ffffdf7 {
        Some(DynamicTag::GnuLiblistsz)
    } else if v == 0x6ffffdf8 {
        Some(DynamicTag::Checksum)
    } else if v == 0x6ffffdf9 {
        Some(DynamicTag::PltPadSz)
    } else if v == 0x6ffffdfa {
        Some(DynamicTag::MoveEnt)
    } else if v == 0x6ffffdfb {
        Some(DynamicTag::MoveSz)
    } else if v == 0x6ffffdfc {
        Some(DynamicTag::Feature)
    } else if v == 0x6ffffdfd {
        Some(DynamicTag::Posflag1)
    } else if v == 0x6ffffdfe {
        Some(DynamicTag::Syminsz)
    } else if v == 0x6ffffdff {
        Some(DynamicTag::SymIEntOrValRNGHI)
    } else if v == 0x6ffffe00 {
        Some(DynamicTag::Addrrnglo)
    } else if v == 0x6ffffef5 {
        Some(DynamicTag::GnuHash)
    } else if v == 0x6ffffef6 {
        Some(DynamicTag::TlsdescPlt)
    } else if v == 0x6ffffef7 {
        Some(DynamicTag::TlsdescGot)
    } else if v == 0x6ffffef8 {
        Some(DynamicTag::GnuConflict)
    } else if v == 0x6ffffef9 {
        Some(DynamicTag::GnuLiblist)
    } else if v == 0x6ffffefa {
        Some(DynamicTag::Config)
    } else if v == 0x6ffffefb {
        Some(DynamicTag::Depaudit)
    } else if v == 0x6ffffefc {
        Some(DynamicTag::Audit)
    } else if v == 0x6ffffefd {
        Some(DynamicTag::PltPad)
    } else if v == 0x6ffffefe {
        Some(DynamicTag::MoveTab)
    } else if v == 0x6ffffeff {
        Some(DynamicTag::SymInfoOrAddrrnGHI)
    } else if v == 0x6ffffff9 {
        Some(DynamicTag::Relacount)
    } else if v == 0x6ffffffa {
        Some(DynamicTag::Relcount)
    } else if v == 0x6ffffffb {
        Some(DynamicTag::Flags1)
    } else if v == 0x6ffffffc {
        Some(DynamicTag::Verdef)
    } else if v == 0x6ffffffd {
        Some(DynamicTag::Verdefnum)
    } else if v == 0x6ffffffe {
        Some(DynamicTag::Verneed)
    } else if v == 0x6fffffff {
        Some(DynamicTag::Verneednum)
    } else if v == 0x6ffffff0 {
        Some(DynamicTag::Versym)
    } else if v == 0x70000000 {
        Some(DynamicTag::Loproc)
    } else if v == 0x7fffffff {
        Some(DynamicTag::Hiproc)
    } else {
        None
    }
}

impl DynamicTag {
    /// The numeric code of this tag.
    pub open spec fn code(self) -> u64 {
        match self {
            DynamicTag::Null => 0x0,
            DynamicTag::Needed => 0x1,
            DynamicTag::PltRelSz => 0x2,
            DynamicTag::PltGot => 0x3,
            DynamicTag::Hash => 0x4,
            DynamicTag::StrTab => 0x5,
            DynamicTag::SymTab => 0x6,
            DynamicTag::Rela => 0x7,
            DynamicTag::RelaSz => 0x8,
            DynamicTag::RelaEnt => 0x9,
            DynamicTag::StrSz => 0xa,
            DynamicTag::SymEnt => 0xb,
            DynamicTag::Init => 0xc,
            DynamicTag::Fini => 0xd,
            DynamicTag::SoName => 0xe,
            DynamicTag::RPath => 0xf,
            DynamicTag::Symbolic => 0x10,
            DynamicTag::Rel => 0x11,
            DynamicTag::RelSz => 0x12,
            DynamicTag::RelEnt => 0x13,
            DynamicTag::PltRel => 0x14,
            DynamicTag::Debug => 0x15,
            DynamicTag::TextRel => 0x16,
            DynamicTag::JmpRel => 0x17,
            DynamicTag::BindNow => 0x18,
            DynamicTag::InitArray => 0x19,
            DynamicTag::FiniArray => 0x1a,
            DynamicTag::InitArraySz => 0x1b,
            DynamicTag::FiniArraySz => 0x1c,
            DynamicTag::RunPath => 0x1d,
            DynamicTag::Flags => 0x1e,
            DynamicTag::PreInitArray => 0x20,
            DynamicTag::PreInitArraySz => 0x21,
            DynamicTag::SymtabShndx => 0x22,
            DynamicTag::RelrSz => 0x23,
            DynamicTag::RelR => 0x24,
            DynamicTag::RelrEnt => 0x25,
            DynamicTag::Encoding => 0x26,
            DynamicTag::Valrnglo => 0x6ffffd00,
            DynamicTag::GnuFlags1 => 0x6ffffdf4,
            DynamicTag::GnuPrelinked => 0x6ffffdf5,
            DynamicTag::GnuConflictsz => 0x6ffffdf6,
            DynamicTag::GnuLiblistsz => 0x6ffffdf7,
            DynamicTag::Checksum => 0x6ffffdf8,
            DynamicTag::PltPadSz => 0x6ffffdf9,
            DynamicTag::MoveEnt => 0x6ffffdfa,
            DynamicTag::MoveSz => 0x6ffffdfb,
            DynamicTag::Feature => 0x6ffffdfc,
            DynamicTag::Posflag1 => 0x6ffffdfd,
            DynamicTag::Syminsz => 0x6ffffdfe,
            DynamicTag::SymIEntOrValRNGHI => 0x6ffffdff,
            DynamicTag::Addrrnglo => 0x6ffffe00,
            DynamicTag::GnuHash => 0x6ffffef5,
            DynamicTag::TlsdescPlt => 0x6ffffef6,
            DynamicTag::TlsdescGot => 0x6ffffef7,
            DynamicTag::GnuConflict => 0x6ffffef8,
            DynamicTag::GnuLiblist => 0x6ffffef9,
            DynamicTag::Config => 0x6ffffefa,
            DynamicTag::Depaudit => 0x6ffffefb,
            DynamicTag::Audit => 0x6ffffefc,
            DynamicTag::PltPad => 0x6ffffefd,
            DynamicTag::MoveTab => 0x6ffffefe,
            DynamicTag::SymInfoOrAddrrnGHI => 0x6ffffeff,
            DynamicTag::Relacount => 0x6ffffff9,
            DynamicTag::Relcount => 0x6ffffffa,
            DynamicTag::Flags1 => 0x6ffffffb,
            DynamicTag::Verdef => 0x6ffffffc,
            DynamicTag::Verdefnum => 0x6ffffffd,
            DynamicTag::Verneed => 0x6ffffffe,
            DynamicTag::Verneednum => 0x6fffffff,
            DynamicTag::Versym => 0x6ffffff0,
            DynamicTag::Loproc => 0x70000000,
            DynamicTag::Hiproc => 0x7fffffff,
        }
    }

    /// The tag that a tag code names, if any.
    pub fn from_u64(v: u64) -> (r: Option<DynamicTag>)
        ensures
            r == dynamic_tag_of(v),
    {
        match v {
            0x0 => Some(DynamicTag::Null),
            0x1 => Some(DynamicTag::Needed),
            0x2 => Some(DynamicTag::PltRelSz),
            0x3 => Some(DynamicTag::PltGot),
            0x4 => Some(DynamicTag::Hash),
            0x5 => Some(DynamicTag::StrTab),
            0x6 => Some(DynamicTag::SymTab),
            0x7 => Some(DynamicTag::Rela),
            0x8 => Some(DynamicTag::RelaSz),
            0x9 => Some(DynamicTag::RelaEnt),
            0xa => Some(DynamicTag::StrSz),
            0xb => Some(DynamicTag::SymEnt),
            0xc => Some(DynamicTag::Init),
            0xd => Some(DynamicTag::Fini),
            0xe => Some(DynamicTag::SoName),
            0xf => Some(DynamicTag::RPath),
            0x10 => Some(DynamicTag::Symbolic),
            0x11 => Some(DynamicTag::Rel),
            0x12 => Some(DynamicTag::RelSz),
            0x13 => Some(DynamicTag::RelEnt),
            0x14 => Some(DynamicTag::PltRel),
            0x15 => Some(DynamicTag::Debug),
            0x16 => Some(DynamicTag::TextRel),
            0x17 => Some(DynamicTag::JmpRel),
            0x18 => Some(DynamicTag::BindNow),
            0x19 => Some(DynamicTag::InitArray),
            0x1a => Some(DynamicTag::FiniArray),
            0x1b => Some(DynamicTag::InitArraySz),
            0x1c => Some(DynamicTag::FiniArraySz),
            0x1d => Some(DynamicTag::RunPath),
            0x1e => Some(DynamicTag::Flags),
            0x20 => Some(DynamicTag::PreInitArray),
            0x21 => Some(DynamicTag::PreInitArraySz),
            0x22 => Some(DynamicTag::SymtabShndx),
            0x23 => Some(DynamicTag::RelrSz),
            0x24 => Some(DynamicTag::RelR),
            0x25 => Some(DynamicTag::RelrEnt),
            0x26 => Some(DynamicTag::Encoding),
            0x6ffffd00 => Some(DynamicTag::Valrnglo),
            0x6ffffdf4 => Some(DynamicTag::GnuFlags1),
            0x6ffffdf5 => Some(DynamicTag::GnuPrelinked),
            0x6ffffdf6 => Some(DynamicTag::GnuConflictsz),
            0x6ffffdf7 => Some(DynamicTag::GnuLiblistsz),
            0x6ffffdf8 => Some(DynamicTag::Checksum),
            0x6ffffdf9 => Some(DynamicTag::PltPadSz),
            0x6ffffdfa => Some(DynamicTag::MoveEnt),
            0x6ffffdfb => Some(DynamicTag::MoveSz),
            0x6ffffdfc => Some(DynamicTag::Feature),
            0x6ffffdfd => Some(DynamicTag::Posflag1),
            0x6ffffdfe => Some(DynamicTag::Syminsz),
            0x6ffffdff => Some(DynamicTag::SymIEntOrValRNGHI),
            0x6ffffe00 => Some(DynamicTag::Addrrnglo),
            0x6ffffef5 => Some(DynamicTag::GnuHash),
            0x6ffffef6 => Some(DynamicTag::TlsdescPlt),
            0x6ffffef7 => Some(DynamicTag::TlsdescGot),
            0x6ffffef8 => Some(DynamicTag::GnuConflict),
            0x6ffffef9 => Some(DynamicTag::GnuLiblist),
            0x6ffffefa => Some(DynamicTag::Config),
            0x6ffffefb => Some(DynamicTag::Depaudit),
            0x6ffffefc => Some(DynamicTag::Audit),
            0x6ffffefd => Some(DynamicTag::PltPad),
            0x6ffffefe => Some(DynamicTag::MoveTab),
            0x6ffffeff => Some(DynamicTag::SymInfoOrAddrrnGHI),
            0x6ffffff9 => Some(DynamicTag::Relacount),
            0x6ffffffa => Some(DynamicTag::Relcount),
            0x6ffffffb => Some(DynamicTag::Flags1),
            0x6ffffffc => Some(DynamicTag::Verdef),
            0x6ffffffd => Some(DynamicTag::Verdefnum),
            0x6ffffffe => Some(DynamicTag::Verneed),
            0x6fffffff => Some(DynamicTag::Verneednum),
            0x6ffffff0 => Some(DynamicTag::Versym),
            0x70000000 => Some(DynamicTag::Loproc),
            0x7fffffff => Some(DynamicTag::Hiproc),
            _ => None,
        }
    }
}

/// Size of one dynamic entry in the layout `wide`.
pub open spec fn dyn_width(wide: bool) -> nat {
    if wide {
        16
    } else {
        8
    }
}

/// The dynamic entry stored at `off` in the layout `fmt`.
pub open spec fn dyn_at(d: Seq<u8>, off: int, fmt: Format) -> Dyn {
    let w = word_width(fmt.wide);
    Dyn {
        tag: uint_at(d, off, w, fmt.endian) as u64,
        value: uint_at(d, off + w, w, fmt.endian) as u64,
    }
}

/// The `count` entries stored from `start`.
pub open spec fn dyns_at(d: Seq<u8>, start: int, count: nat, fmt: Format) -> Seq<Dyn> {
    Seq::new(count, |i: int| dyn_at(d, start + i * dyn_width(fmt.wide), fmt))
}

/// The entries of `s` before the first one tagged NULL; all of them when
/// none is.
pub open spec fn until_null(s: Seq<Dyn>) -> Seq<Dyn>
    decreases s.len(),
{
    if s.len() == 0 || s[0].tag == 0 {
        Seq::empty()
    } else {
        seq![s[0]] + until_null(s.drop_first())
    }
}

/// The entries of the dynamic segment of `size` bytes at `offset`, up to
/// the NULL entry that ends them.
pub open spec fn dynamic_entries(d: Seq<u8>, offset: int, size: int, fmt: Format) -> Seq<Dyn> {
    until_null(dyns_at(d, offset, (size / dyn_width(fmt.wide) as int) as nat, fmt))
}

/// Decoding stops at the first NULL entry: when entry `k` is the first one
/// tagged NULL, exactly the `k` entries before it are kept, whatever
/// follows it.
pub proof fn lemma_until_null_stops(s: Seq<Dyn>, k: int)
    requires
        0 <= k <= s.len(),
        k < s.len() ==> s[k].tag == 0,
        forall|j: int| 0 <= j < k ==> s[j].tag != 0,
    ensures
        until_null(s) == s.take(k),
        until_null(s).len() == k,
    decreases k,
{
    if k == 0 {
        assert(s.take(0) =~= Seq::<Dyn>::empty());
    } else {
        let t = s.drop_first();
        assert forall|j: int| 0 <= j < k - 1 implies t[j].tag != 0 by {
            assert(s[j + 1].tag != 0);
        }
        lemma_until_null_stops(t, k - 1);
        assert(s.take(k) =~= seq![s[0]] + t.take(k - 1));
    }
}

/// Slots of the folded table that record the value of their tag: the
/// tags that locate the symbol, string and relocation tables, the
/// initialization code, and the run-time linking options.
pub open spec fn recorded(t: int) -> bool {
    ||| 0 <= t <= 9
    ||| 12 <= t <= 17
    ||| t == 19
    ||| 21 <= t <= 23
    ||| t == 29
}

/// The value of the last entry of `es` tagged `t`; `dflt` when there is
/// none.
pub open spec fn last_value(es: Seq<Dyn>, t: int, dflt: u64) -> u64
    decreases es.len(),
{
    if es.len() == 0 {
        dflt
    } else if es.last().tag == t {
        es.last().value
    } else {
        last_value(es.drop_last(), t, dflt)
    }
}

/// The table `info` after folding in the entries `es`.
pub open spec fn folded(es: Seq<Dyn>, info: Seq<u64>) -> Seq<u64> {
    Seq::new(
        info.len(),
        |t: int|
            if recorded(t) {
                last_value(es, t, info[t])
            } else {
                info[t]
            },
    )
}

/// Tags whose value is a virtual address rather than a plain number: the
/// table and code pointers, the version tables, and the OS-specific
/// address range.
pub open spec fn is_address_tag(t: u64) -> bool {
    ||| t == 3 || t == 4 || t == 5 || t == 6 || t == 7
    ||| t == 12 || t == 13 || t == 17 || t == 21 || t == 23
    ||| t == 25 || t == 26 || t == 32
    ||| (0x6ffffe00 <= t && t <= 0x6ffffeff)
    ||| t == 0x6ffffff0 || t == 0x6ffffffc || t == 0x6ffffffe
}

impl Dyn {
    /// The entry's value read as a virtual address; `None` when its tag
    /// makes the value a plain number.
    pub fn as_address(&self) -> (r: Option<u64>)
        ensures
            r == if is_address_tag(self.tag) {
                Some(self.value)
            } else {
                None
            },
    {
        let t = self.tag;
        if t == 3 || t == 4 || t == 5 || t == 6 || t == 7 || t == 12 || t == 13 || t == 17 || t
            == 21 || t == 23 || t == 25 || t == 26 || t == 32 || (0x6ffffe00 <= t && t
            <= 0x6ffffeff) || t == 0x6ffffff0 || t == 0x6ffffffc || t == 0x6ffffffe {
            Some(self.value)
        } else {
            None
        }
    }

    /// The canonical form of a 32-bit entry: tag and value widened as
    /// unsigned numbers.
    pub fn from_elf32(d: &Elf32Dyn) -> (r: Dyn)
        ensures
            r == (Dyn { tag: d.tag as u64, value: d.value as u64 }),
    {
        Dyn { tag: d.tag as u64, value: d.value as u64 }
    }

    /// The canonical form of a 64-bit entry.
    pub fn from_elf64(d: &Elf64Dyn) -> (r: Dyn)
        ensures
            r == (Dyn { tag: d.tag, value: d.value }),
    {
        Dyn { tag: d.tag, value: d.value }
    }

    /// Reads the dynamic segment of `dynamic_size` bytes at `dynamic_addr`
    /// and returns its entries up to, not including, the first NULL entry.
    pub fn read(hdr: &ElfHdr, data: &[u8], dynamic_addr: u64, dynamic_size: u64) -> (r: Result<
        Vec<Dyn>,
        DecodeError,
    >)
        ensures
            hdr.spec_format() is None ==> r == Err::<Vec<Dyn>, DecodeError>(
                DecodeError::MalformedHeader,
            ),
            hdr.spec_format() matches Some(f) ==> if bytes_in(
                data@,
                dynamic_addr as int,
                dynamic_addr + dynamic_size,
            ) is Some {
                r matches Ok(v) && v@ == dynamic_entries(
                    data@,
                    dynamic_addr as int,
                    dynamic_size as int,
                    f,
                )
            } else {
                r == Err::<Vec<Dyn>, DecodeError>(DecodeError::TruncatedRead)
            },
    {
        let fmt = hdr.format()?;
        let n = data.len();
        if dynamic_addr > n as u64 || dynamic_size > (n - dynamic_addr as usize) as u64 {
            return Err(DecodeError::TruncatedRead);
        }
        let w: usize = if fmt.wide {
            ELF64_DYN_SIZE
        } else {
            ELF32_DYN_SIZE
        };
        let start = dynamic_addr as usize;
        let count = dynamic_size as usize / w;
        let ghost all = dyns_at(data@, start as int, count as nat, fmt);
        assert(count * w <= dynamic_size) by (nonlinear_arith)
            requires
                count == dynamic_size as int / w as int,
                w > 0,
        ;
        proof {
            lemma_uint_fits(data@, fmt.endian);
        }
        let mut v: Vec<Dyn> = Vec::new();
        let mut i: usize = 0;
        let mut pos: usize = start;
        while i < count
            invariant
                i <= count,
                w == dyn_width(fmt.wide),
                word_width(fmt.wide) * 2 == w,
                n == data@.len(),
                start + count * w <= n,
                pos == start + i * w,
                all == dyns_at(data@, start as int, count as nat, fmt),
                hdr.spec_format() == Some(fmt),
                start == dynamic_addr,
                count == dynamic_size as int / w as int,
                dynamic_addr + dynamic_size <= n,
                v@ == all.take(i as int),
                forall|j: int| 0 <= j < i ==> all[j].tag != 0,
            decreases count - i,
        {
            assert(i * w + w <= count * w) by (nonlinear_arith)
                requires
                    i < count,
            ;
            let e = if fmt.wide {
                Dyn::from_elf64(
                    &Elf64Dyn { tag: read_word(data, pos, fmt), value: read_word(data, pos + 8, fmt) },
                )
            } else {
                Dyn::from_elf32(
                    &Elf32Dyn {
                        tag: read_u32(data, pos, fmt.endian),
                        value: read_u32(data, pos + 4, fmt.endian),
                    },
                )
            };
            assert(e == all[i as int]);
            if e.tag == 0 {
                proof {
                    lemma_until_null_stops(all, i as int);
                }
                return Ok(v);
            }
            v.push(e);
            proof {
                assert((i + 1) * w == i * w + w) by (nonlinear_arith);
            }
            i = i + 1;
            pos = pos + w;
            assert(v@ =~= all.take(i as int));
        }
        proof {
            lemma_until_null_stops(all, i as int);
            assert(all.take(i as int) =~= all);
        }
        Ok(v)
    }
}

/// Folds dynamic entries into a table indexed by tag: each recorded slot
/// ends up holding the value of the last entry with that tag, or keeps its
/// value when there is none; all other slots are left as they were.
pub fn fold_dynamic(entries: &[Dyn], info: &mut Vec<u64>)
    ensures
        final(info)@ == folded(entries@, old(info)@),
{
    let ghost init = info@;
    let mut i: usize = 0;
    while i < entries.len()
        invariant
            i <= entries@.len(),
            info@ == folded(entries@.take(i as int), init),
        decreases entries@.len() - i,
    {
        let e = entries[i];
        if e.tag < info.len() as u64 && is_recorded(e.tag) {
            info.set(e.tag as usize, e.value);
        }
        proof {
            let es = entries@.take(i as int + 1);
            assert(es.drop_last() =~= entries@.take(i as int));
            assert(es.last() == e);
        }
        i = i + 1;
        assert(info@ =~= folded(entries@.take(i as int), init));
    }
    assert(entries@.take(i as int) =~= entries@);
}

/// Whether slot `t` of the folded table records its tag's value.
fn is_recorded(t: u64) -> (r: bool)
    ensures
        r == recorded(t as int),
{
    t <= 9 || (12 <= t && t <= 17) || t == 19 || (21 <= t && t <= 23) || t == 29
}

/// The kinds of dynamic relocation tables: REL, RELA and the PLT table,
/// whose records may be of either kind.
pub fn dynamic_relocations() -> (r: Vec<DynamicRelocs>)
    ensures
        r@.len() == 3,
        r@[0].name@ == "REL"@ && r@[0].reloc == DynamicTag::Rel && r@[0].size == DynamicTag::RelSz
            && r@[0].rela == RelaState::False,
        r@[1].name@ == "RELA"@ && r@[1].reloc == DynamicTag::Rela && r@[1].size
            == DynamicTag::RelaSz && r@[1].rela == RelaState::True,
        r@[2].name@ == "PLT"@ && r@[2].reloc == DynamicTag::JmpRel && r@[2].size
            == DynamicTag::PltRelSz && r@[2].rela == RelaState::Unknown,
{
    vec![
        DynamicRelocs {
            name: "REL",
            reloc: DynamicTag::Rel,
            size: DynamicTag::RelSz,
            rela: RelaState::False,
        },
        DynamicRelocs {
            name: "RELA",
            reloc: DynamicTag::Rela,
            size: DynamicTag::RelaSz,
            rela: RelaState::True,
        },
        DynamicRelocs {
            name: "PLT",
            reloc: DynamicTag::JmpRel,
            size: DynamicTag::PltRelSz,
            rela: RelaState::Unknown,
        },
    ]
}

} // verus!
