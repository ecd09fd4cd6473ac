//! Which sections lie in which segments, and file offsets of addresses.

use vstd::prelude::*;

use crate::phdr::{
    ElfPhdr, PT_DYNAMIC, PT_GNU_EH_FRAME, PT_GNU_MBIND_HI, PT_GNU_MBIND_LO, PT_GNU_RELRO, PT_LOAD,
    PT_NOTE, PT_PHDR, PT_TLS,
};
use crate::bytes::DecodeError;
use crate::hdr::ElfHdr;
use crate::shdr::{ElfShdr, SHF_ALLOC, SHF_TLS, SHT_NOBITS};
use crate::sym::{ELF32_SYM_SIZE, ELF64_SYM_SIZE, ElfSym, sym_width, syms_at};

verus! {

/// A thread-local section without file bytes (a `.tbss`) seen from a
/// segment that is not the TLS segment.
pub open spec fn tbss_special(s: ElfShdr, p: ElfPhdr) -> bool {
    s.wide().flags & SHF_TLS != 0 && s.wide().section_type == SHT_NOBITS && p.p_type != PT_TLS
}

/// The size that section `s` takes up within segment `p`.
pub open spec fn effective_size(s: ElfShdr, p: ElfPhdr) -> u64 {
    if tbss_special(s, p) {
        0
    } else {
        s.wide().size
    }
}

/// Segment types whose members must occupy memory.
pub open spec fn needs_alloc(t: u32) -> bool {
    t == PT_LOAD || t == PT_DYNAMIC || t == PT_GNU_EH_FRAME || t == PT_GNU_RELRO || (
    PT_GNU_MBIND_LO <= t && t <= PT_GNU_MBIND_HI)
}

/// Whether section `s` belongs to segment `p`.
pub open spec fn in_segment(s: ElfShdr, p: ElfPhdr, check_vma: bool, strict: bool) -> bool {
    let w = s.wide();
    let t = p.p_type;
    let tls = w.flags & SHF_TLS != 0;
    let alloc = w.flags & SHF_ALLOC != 0;
    let nobits = w.section_type == SHT_NOBITS;
    // Thread-local sections go only to TLS, RELRO and LOAD segments; TLS
    // segments hold only those, PHDR segments nothing.
    &&& ((tls && (t == PT_TLS || t == PT_GNU_RELRO || t == PT_LOAD)) || (!tls && t != PT_TLS && t
        != PT_PHDR))
    // Loadable segments hold only allocated sections.
    &&& !(!alloc && needs_alloc(t))
    // Sections with file bytes lie within the segment's file image.
    &&& (nobits || (w.offset >= p.p_offset && (!strict || w.offset - p.p_offset < p.p_filesz) && w.offset
        - p.p_offset + effective_size(s, p) <= p.p_filesz))
    // Allocated sections start within the segment's memory image.
    &&& (!check_vma || !alloc || (w.addr >= p.p_vaddr && (!strict || w.addr - p.p_vaddr
        <= p.p_memsz)))
    // No empty section at the edge of a non-empty DYNAMIC or NOTE segment.
    &&& ((t != PT_DYNAMIC && t != PT_NOTE) || w.size != 0 || p.p_memsz == 0 || (nobits || (w.offset
        > p.p_offset && w.offset - p.p_offset < p.p_filesz && (!alloc || (w.addr > p.p_vaddr
        && w.addr - p.p_vaddr < p.p_memsz)))))
}

/// A LOAD segment whose file image holds the `size` bytes at address `vma`.
pub open spec fn load_covers(p: ElfPhdr, vma: u64, size: u64) -> bool {
    &&& p.p_type == PT_LOAD
    &&& vma >= p.p_vaddr & 0u64.wrapping_sub(p.p_align)
    &&& vma + size <= p.p_vaddr + p.p_filesz
}

/// The file offset of address `vma` according to the first LOAD segment of
/// `ps` that covers it; `vma` itself when none does.
pub open spec fn vma_offset(ps: Seq<ElfPhdr>, vma: u64, size: u64) -> u64
    decreases ps.len(),
{
    if ps.len() == 0 {
        vma
    } else if load_covers(ps[0], vma, size) {
        vma.wrapping_sub(ps[0].p_vaddr).wrapping_add(ps[0].p_offset)
    } else {
        vma_offset(ps.drop_first(), vma, size)
    }
}

/// Whether `shdr` is a thread-local section without file bytes and
/// `segment` is not the TLS segment.
#[inline]
pub fn elf_tbss_special(shdr: &ElfShdr, segment: &ElfPhdr) -> (r: bool)
    ensures
        r == tbss_special(*shdr, *segment),
{
    shdr.flags() & SHF_TLS != 0 && shdr.type_code() == SHT_NOBITS && segment.p_type != PT_TLS
}

/// The size that `shdr` takes up within `segment`: zero for a `.tbss`
/// outside the TLS segment, else the section's size.
#[inline]
pub fn elf_section_size(shdr: &ElfShdr, segment: &ElfPhdr) -> (r: u64)
    ensures
        r == effective_size(*shdr, *segment),
{
    if elf_tbss_special(shdr, segment) {
        0
    } else {
        shdr.size()
    }
}

/// The file offset that holds the `size` bytes at address `vma`, found
/// through the first LOAD segment that covers them; `vma` itself when no
/// segment does.
pub fn offset_from_vma(phdrs: &[ElfPhdr], vma: u64, size: u64) -> (r: u64)
    ensures
        r == vma_offset(phdrs@, vma, size),
{
    let mut i: usize = 0;
    assert(phdrs@.skip(0) =~= phdrs@);
    while i < phdrs.len()
        invariant
            i <= phdrs@.len(),
            vma_offset(phdrs@, vma, size) == vma_offset(phdrs@.skip(i as int), vma, size),
        decreases phdrs@.len() - i,
    {
        let p = &phdrs[i];
        proof {
            assert(phdrs@.skip(i as int)[0] == phdrs@[i as int]);
            assert(phdrs@.skip(i as int).drop_first() =~= phdrs@.skip(i as int + 1));
        }
        if p.p_type == PT_LOAD && vma >= p.p_vaddr & 0u64.wrapping_sub(p.p_align) && vma as u128
            + size as u128 <= p.p_vaddr as u128 + p.p_filesz as u128 {
            return vma.wrapping_sub(p.p_vaddr).wrapping_add(p.p_offset);
        }
        i = i + 1;
    }
    proof {
        assert(phdrs@.skip(i as int).len() == 0);
    }
    vma
}

/// Whether section `shdr` belongs to segment `segment`. With `check_vma`
/// an allocated section must also start inside the segment's memory image;
/// with `strict` it must start strictly inside the segment's extent.
pub fn elf_section_in_segment(shdr: &ElfShdr, segment: &ElfPhdr, check_vma: bool, strict: bool) -> (r:
    bool)
    ensures
        r == in_segment(*shdr, *segment, check_vma, strict),
{
    let t = segment.p_type;
    let flags = shdr.flags();
    let tls = flags & SHF_TLS != 0;
    let alloc = flags & SHF_ALLOC != 0;
    let nobits = shdr.type_code() == SHT_NOBITS;
    let off = shdr.offset();
    let addr = shdr.addr();
    let size = shdr.size();
    let tls_ok = (tls && (t == PT_TLS || t == PT_GNU_RELRO || t == PT_LOAD)) || (!tls && t != PT_TLS
        && t != PT_PHDR);
    let alloc_ok = !(!alloc && (t == PT_LOAD || t == PT_DYNAMIC || t == PT_GNU_EH_FRAME || t
        == PT_GNU_RELRO || (PT_GNU_MBIND_LO <= t && t <= PT_GNU_MBIND_HI)));
    let file_ok = nobits || (off >= segment.p_offset && (!strict || off - segment.p_offset
        < segment.p_filesz) && elf_section_size(shdr, segment) <= segment.p_filesz && off
        - segment.p_offset <= segment.p_filesz - elf_section_size(shdr, segment));
    let vma_ok = !check_vma || !alloc || (addr >= segment.p_vaddr && (!strict || addr
        - segment.p_vaddr <= segment.p_memsz));
    let edge_ok = (t != PT_DYNAMIC && t != PT_NOTE) || size != 0 || segment.p_memsz == 0 || (nobits
        || (off > segment.p_offset && off - segment.p_offset < segment.p_filesz && (!alloc || (addr
        > segment.p_vaddr && addr - segment.p_vaddr < segment.p_memsz))));
    tls_ok && alloc_ok && file_ok && vma_ok && edge_ok
}

/// A thread-local section without file bytes never belongs to a segment
/// that cannot hold thread-local sections, nor, when unallocated, to a
/// LOAD segment; it belongs to the TLS segment whenever its address lies
/// within that segment's memory image.
pub proof fn lemma_tbss_membership(s: ElfShdr, p: ElfPhdr, check_vma: bool, strict: bool)
    requires
        s.wide().flags & SHF_TLS != 0,
        s.wide().section_type == SHT_NOBITS,
    ensures
        p.p_type != PT_TLS && p.p_type != PT_GNU_RELRO && p.p_type != PT_LOAD ==> !in_segment(
            s,
            p,
            check_vma,
            strict,
        ),
        p.p_type == PT_LOAD && s.wide().flags & SHF_ALLOC == 0 ==> !in_segment(
            s,
            p,
            check_vma,
            strict,
        ),
        p.p_type == PT_TLS && p.p_vaddr <= s.wide().addr && s.wide().addr - p.p_vaddr
            <= p.p_memsz ==> in_segment(s, p, check_vma, strict),
{
}

/// Reads `count` symbols from `offset`, each as wide as the file's class
/// makes it; `TruncatedRead` when they run past the end of `data`.
pub fn get_data(hdr: &ElfHdr, data: &[u8], count: u64, offset: u64) -> (r: Result<
    Vec<ElfSym>,
    DecodeError,
>)
    ensures
        hdr.spec_format() is None ==> r == Err::<Vec<ElfSym>, DecodeError>(
            DecodeError::MalformedHeader,
        ),
        hdr.spec_format() matches Some(fmt) ==> {
            if offset + count * sym_width(fmt.wide) <= data@.len() {
                r matches Ok(v) && v@ == syms_at(data@, offset as int, count as nat, fmt)
            } else {
                r == Err::<Vec<ElfSym>, DecodeError>(DecodeError::TruncatedRead)
            }
        },
{
    let fmt = hdr.format()?;
    let w: usize = if fmt.wide {
        ELF64_SYM_SIZE
    } else {
        ELF32_SYM_SIZE
    };
    let n = data.len();
    if offset > n as u64 || count > (n - offset as usize) as u64 / w as u64 {
        proof {
            if offset <= n {
                assert(count * w > n - offset) by (nonlinear_arith)
                    requires
                        count > (n - offset) / (w as int),
                        w > 0,
                ;
            }
        }
        return Err(DecodeError::TruncatedRead);
    }
    assert(count * w <= n - offset) by (nonlinear_arith)
        requires
            count <= (n - offset) / (w as int),
            w > 0,
    ;
    let start = offset as usize;
    let count = count as usize;
    let mut v: Vec<ElfSym> = Vec::new();
    let mut i: usize = 0;
    let mut pos: usize = start;
    while i < count
        invariant
            i <= count,
            w == sym_width(fmt.wide),
            n == data@.len(),
            start + count * w <= n,
            pos == start + i * w,
            v@ == syms_at(data@, start as int, i as nat, fmt),
        decreases count - i,
    {
        assert(i * w + w <= count * w) by (nonlinear_arith)
            requires
                i < count,
        ;
        let s = ElfSym::parse(data, pos, fmt);
        v.push(s);
        proof {
            assert((i + 1) * w == i * w + w) by (nonlinear_arith);
        }
        i = i + 1;
        pos = pos + w;
        assert(v@ =~= syms_at(data@, start as int, i as nat, fmt));
    }
    Ok(v)
}

} // verus!
