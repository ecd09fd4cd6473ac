//! Version definition records. Their layout is the same in both classes.

use vstd::prelude::*;

verus! {

/// A version definition as laid out in a 32-bit file.
#[derive(Clone, Copy, Debug)]
pub struct Elf32Verdef {
    pub version: u16,
    pub flags: u16,
    pub ndx: u16,
    pub cnt: u16,
    pub hash: u32,
    pub aux: u32,
    pub next: u32,
}

/// A version definition as laid out in a 64-bit file.
#[derive(Clone, Copy, Debug)]
pub struct Elf64Verdef {
    pub version: u16,
    pub flags: u16,
    pub ndx: u16,
    pub cnt: u16,
    pub hash: u32,
    pub aux: u32,
    pub next: u32,
}

/// A version definition in canonical form.
#[derive(Debug, Clone, Copy, PartialEq, Eq, Structural)]
pub struct ElfVerdef {
    pub version: u16,
    pub flags: u16,
    pub ndx: u16,
    pub cnt: u16,
    pub hash: u32,
    pub aux: u32,
    pub next: u32,
}

impl ElfVerdef {
    /// The canonical form of a 32-bit version definition.
    pub fn from_elf32(v: &Elf32Verdef) -> (r: ElfVerdef)
        ensures
            r == (ElfVerdef {
                version: v.version,
                flags: v.flags,
                ndx: v.ndx,
                cnt: v.cnt,
                hash: v.hash,
                aux: v.aux,
                next: v.next,
            }),
    {
        ElfVerdef {
            version: v.version,
            flags: v.flags,
            ndx: v.ndx,
            cnt: v.cnt,
            hash: v.hash,
            aux: v.aux,
            next: v.next,
        }
    }

    /// The canonical form of a 64-bit version definition.
    pub fn from_elf64(v: &Elf64Verdef) -> (r: ElfVerdef)
        ensures
            r == (ElfVerdef {
                version: v.version,
                flags: v.flags,
                ndx: v.ndx,
                cnt: v.cnt,
                hash: v.hash,
                aux: v.aux,
                next: v.next,
            }),
    {
        ElfVerdef {
            version: v.version,
            flags: v.flags,
            ndx: v.ndx,
            cnt: v.cnt,
            hash: v.hash,
            aux: v.aux,
            next: v.next,
        }
    }
}

} // verus!
