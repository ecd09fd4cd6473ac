//! Relocation sections: the symbol table that each one refers to, and the
//! names of the symbols that its entries refer to.

use vstd::prelude::*;

use crate::bytes::{Format, read_word, uint_at, word_width};
use crate::file_data::{FileData, is_symbol_table};
use crate::shdr::{ElfShdr, section_data};
use crate::sym::{ElfSym, sym_at, sym_width};
use crate::text::{resolve_string, string_at};

verus! {

/// Section type codes of relocation tables with and without addends.
pub const SHT_RELA: u32 = 0x4;

pub const SHT_REL: u32 = 0x9;

/// A relocation section: its name, where it lies, how many entries it
/// has, and the name of the symbol that each entry refers to.
pub struct RelocSection {
    pub name: Option<String>,
    pub offset: u64,
    pub entries: u64,
    /// One name per entry; `None` when the section's symbol table is
    /// rejected or its tables cannot be read. An entry's name is `None`
    /// when its symbol or the symbol's name lies out of range.
    pub symbols: Option<Vec<Option<String>>>,
}

/// Whether `s` is a relocation table, with or without addends.
pub open spec fn is_reloc(s: ElfShdr) -> bool {
    s.wide().section_type == SHT_RELA || s.wide().section_type == SHT_REL
}

/// The relocation sections of `ss`, in order.
pub open spec fn reloc_sections(ss: Seq<ElfShdr>) -> Seq<ElfShdr>
    decreases ss.len(),
{
    if ss.len() == 0 {
        Seq::empty()
    } else {
        let r = reloc_sections(ss.drop_last());
        if is_reloc(ss.last()) {
            r.push(ss.last())
        } else {
            r
        }
    }
}

/// Size of one relocation record in the layout `wide`, with or without an
/// addend.
pub open spec fn rel_width(wide: bool, rela: bool) -> nat {
    if rela {
        word_width(wide) * 3
    } else {
        word_width(wide) * 2
    }
}

/// Index of the symbol that the relocation record at `off` refers to: the
/// high 32 bits of its info word in the 64-bit layout, the high 24 bits in
/// the 32-bit one.
pub open spec fn rel_sym(d: Seq<u8>, off: int, fmt: Format) -> nat {
    if fmt.wide {
        uint_at(d, off + 8, 8, fmt.endian) / 0x1_0000_0000
    } else {
        uint_at(d, off + 4, 4, fmt.endian) / 256
    }
}

/// The name of symbol `idx` of symbol table `t`, whose names index
/// `strtab`; `None` when the symbol lies outside the table or the file, or
/// its name index lies beyond `strtab`.
pub open spec fn sym_name_at(d: Seq<u8>, fmt: Format, t: ElfShdr, strtab: Seq<u8>, idx: nat) -> Option<
    Seq<char>,
> {
    let sw = sym_width(fmt.wide);
    if idx * sw + sw <= t.wide().size && t.wide().offset + idx * sw + sw <= d.len() {
        string_at(strtab, sym_at(d, t.wide().offset + idx * sw, fmt).name as int)
    } else {
        None
    }
}

impl FileData {
    /// The symbol table that relocation section `s` links to; `None` when
    /// the link is zero, out of range, or names a section that is not a
    /// symbol table.
    pub open spec fn reloc_symtab(&self, s: ElfShdr) -> Option<ElfShdr> {
        let l = s.wide().link as int;
        let ss = self.section_headers@;
        if l != 0 && l < ss.len() && is_symbol_table(ss[l]) {
            Some(ss[l])
        } else {
            None
        }
    }

    /// Number of entries of relocation section `s`.
    pub open spec fn reloc_count(s: ElfShdr) -> nat {
        if s.wide().entsize == 0 {
            0
        } else {
            (s.wide().size / s.wide().entsize) as nat
        }
    }

    /// The names of the symbols that the entries of relocation section `s`
    /// refer to.
    pub open spec fn reloc_names(&self, s: ElfShdr) -> Option<Seq<Option<Seq<char>>>> {
        let d = self.data@;
        let f = self.spec_fmt();
        let h = self.header;
        let n = Self::reloc_count(s);
        let rw = rel_width(f.wide, s.wide().section_type == SHT_RELA);
        if s.wide().entsize == 0 {
            None
        } else {
            match self.reloc_symtab(s) {
                None => None,
                Some(t) => match section_data(
                    d,
                    f,
                    h.e_shentsize as int,
                    t.wide().link as int,
                    h.e_shoff as int,
                ) {
                    None => None,
                    Some(strtab) => if s.wide().offset + n * rw <= d.len() {
                        Some(
                            Seq::new(
                                n,
                                |k: int|
                                    sym_name_at(
                                        d,
                                        f,
                                        t,
                                        strtab,
                                        rel_sym(d, s.wide().offset + k * rw, f),
                                    ),
                            ),
                        )
                    } else {
                        None
                    },
                },
            }
        }
    }

    /// `r` describes relocation section `s`.
    pub open spec fn reloc_of(&self, s: ElfShdr, r: RelocSection) -> bool {
        &&& r.name is Some <==> s.wide().name <= self.string_table@.len()
        &&& (r.name matches Some(n) ==> string_at(self.string_table@, s.wide().name as int) == Some(
            n@,
        ))
        &&& r.offset == s.wide().offset
        &&& r.entries == Self::reloc_count(s)
        &&& (r.symbols is Some <==> self.reloc_names(s) is Some)
        &&& (r.symbols matches Some(v) ==> names_match(v@, self.reloc_names(s)->0))
    }

    /// Describes every relocation section of the file, in section order.
    pub fn process_relocs(&self) -> (r: Vec<RelocSection>)
        requires
            self.wf(),
        ensures
            r@.len() == reloc_sections(self.section_headers@).len(),
            forall|i: int|
                0 <= i < r@.len() ==> self.reloc_of(
                    reloc_sections(self.section_headers@)[i],
                    #[trigger] r@[i],
                ),
    {
        let ghost ss = self.section_headers@;
        let mut v: Vec<RelocSection> = Vec::new();
        let mut i: usize = 0;
        while i < self.section_headers.len()
            invariant
                i <= ss.len(),
                ss == self.section_headers@,
                self.wf(),
                v@.len() == reloc_sections(ss.take(i as int)).len(),
                forall|k: int|
                    0 <= k < v@.len() ==> self.reloc_of(
                        reloc_sections(ss.take(i as int))[k],
                        #[trigger] v@[k],
                    ),
            decreases ss.len() - i,
        {
            let shdr = &self.section_headers[i];
            proof {
                assert(ss.take(i as int + 1).drop_last() =~= ss.take(i as int));
                assert(ss.take(i as int + 1).last() == ss[i as int]);
            }
            let t = shdr.type_code();
            if t == SHT_RELA || t == SHT_REL {
                let r = self.describe_relocs(shdr);
                let ghost old_v = v@;
                v.push(r);
                proof {
                    let sn = reloc_sections(ss.take(i as int + 1));
                    assert(sn == reloc_sections(ss.take(i as int)).push(ss[i as int]));
                    assert forall|k: int| 0 <= k < v@.len() implies self.reloc_of(
                        sn[k],
                        #[trigger] v@[k],
                    ) by {
                        if k < old_v.len() {
                            assert(v@[k] == old_v[k]);
                        }
                    }
                }
            }
            i = i + 1;
        }
        assert(ss.take(i as int) =~= ss);
        v
    }

    /// Describes relocation section `shdr`.
    fn describe_relocs(&self, shdr: &ElfShdr) -> (r: RelocSection)
        requires
            self.wf(),
            is_reloc(*shdr),
        ensures
            self.reloc_of(*shdr, r),
    {
        let name = self.string_lookup(shdr.name() as usize);
        let entries = if shdr.entsize() == 0 {
            0
        } else {
            shdr.size() / shdr.entsize()
        };
        let symbols = if shdr.entsize() == 0 {
            None
        } else {
            self.reloc_symbol_names(shdr, entries)
        };
        RelocSection { name, offset: shdr.offset(), entries, symbols }
    }

    /// The names of the symbols that the `count` entries of relocation
    /// section `shdr` refer to.
    fn reloc_symbol_names(&self, shdr: &ElfShdr, count: u64) -> (r: Option<Vec<Option<String>>>)
        requires
            self.wf(),
            is_reloc(*shdr),
            shdr.wide().entsize != 0,
            count == Self::reloc_count(*shdr),
        ensures
            r is Some <==> self.reloc_names(*shdr) is Some,
            r matches Some(v) ==> names_match(v@, self.reloc_names(*shdr)->0),
    {
        let link = shdr.link();
        if link == 0 || link as usize >= self.section_headers.len() {
            return None;
        }
        let symsec = &self.section_headers[link as usize];
        let st = symsec.type_code();
        if st != crate::file_data::SHT_SYMTAB && st != crate::file_data::SHT_DYNSYM {
            return None;
        }
        let strtab = match ElfShdr::get_data(
            &self.header,
            self.data.as_slice(),
            symsec.link() as u64,
            self.header.e_shoff,
        ) {
            Ok(b) => b,
            Err(_) => return None,
        };
        let fmt = match self.header.format() {
            Ok(f) => f,
            Err(_) => return None,
        };
        let w: u64 = if fmt.wide {
            8
        } else {
            4
        };
        let rw: u64 = if shdr.type_code() == SHT_RELA {
            3 * w
        } else {
            2 * w
        };
        let n = self.data.len() as u64;
        let off = shdr.offset();
        if off > n || count > (n - off) / rw {
            proof {
                if off <= n {
                    assert(count * rw > n - off) by (nonlinear_arith)
                        requires
                            count > (n - off) / (rw as int),
                            rw > 0,
                    ;
                }
            }
            return None;
        }
        assert(count * rw <= n - off) by (nonlinear_arith)
            requires
                count <= (n - off) / (rw as int),
                rw > 0,
        ;
        let ghost names = self.reloc_names(*shdr)->0;
        let mut v: Vec<Option<String>> = Vec::new();
        let mut k: u64 = 0;
        let mut pos: u64 = off;
        while k < count
            invariant
                k <= count,
                self.wf(),
                fmt == self.spec_fmt(),
                w == word_width(fmt.wide),
                rw == rel_width(fmt.wide, shdr.wide().section_type == SHT_RELA),
                n == self.data@.len(),
                n <= usize::MAX,
                off == shdr.wide().offset,
                off + count * rw <= n,
                pos == off + k * rw,
                self.reloc_symtab(*shdr) == Some(*symsec),
                section_data(
                    self.data@,
                    fmt,
                    self.header.e_shentsize as int,
                    symsec.wide().link as int,
                    self.header.e_shoff as int,
                ) == Some(strtab@),
                shdr.wide().entsize != 0,
                count == Self::reloc_count(*shdr),
                names == self.reloc_names(*shdr)->0,
                names.len() == count,
                names_match(v@, names.take(k as int)),
            decreases count - k,
        {
            assert(k * rw + rw <= count * rw) by (nonlinear_arith)
                requires
                    k < count,
            ;
            let info = read_word(self.data.as_slice(), (pos + w) as usize, fmt);
            let idx = if fmt.wide {
                info / 0x1_0000_0000
            } else {
                info / 256
            };
            let name = self.symbol_name(symsec, strtab.as_slice(), idx, fmt);
            let ghost old_v = v@;
            v.push(name);
            proof {
                assert((k + 1) * rw == k * rw + rw) by (nonlinear_arith);
                assert(idx as nat == rel_sym(self.data@, off + k * rw, fmt));
                assert(v@[k as int] == name);
                assert(names.take(k as int + 1)[k as int] == names[k as int]);
                assert(names[k as int] == sym_name_at(
                    self.data@,
                    fmt,
                    *symsec,
                    strtab@,
                    rel_sym(self.data@, off + k * rw, fmt),
                ));
                assert forall|j: int| 0 <= j < v@.len() implies slot_match(
                    #[trigger] v@[j],
                    names.take(k as int + 1)[j],
                ) by {
                    if j < old_v.len() {
                        assert(v@[j] == old_v[j]);
                        assert(slot_match(old_v[j], names.take(k as int)[j]));
                    }
                }
            }
            k = k + 1;
            pos = pos + rw;
        }
        assert(names.take(count as int) =~= names);
        Some(v)
    }

    /// The name of symbol `idx` of symbol table `symsec`, whose names
    /// index `strtab`.
    fn symbol_name(&self, symsec: &ElfShdr, strtab: &[u8], idx: u64, fmt: Format) -> (r: Option<
        String,
    >)
        requires
            fmt == self.spec_fmt(),
        ensures
            slot_match(r, sym_name_at(self.data@, fmt, *symsec, strtab@, idx as nat)),
    {
        let sw: u64 = if fmt.wide {
            24
        } else {
            16
        };
        let size = symsec.size();
        let off = symsec.offset();
        let n = self.data.len() as u64;
        if idx >= size / sw || off > n || idx >= (n - off) / sw {
            proof {
                assert(idx >= (size as int) / (sw as int) ==> idx * sw + sw > size) by (nonlinear_arith)
                    requires
                        sw > 0,
                ;
                assert(off <= n && idx >= (n - off) / (sw as int) ==> idx * sw + sw > n - off)
                    by (nonlinear_arith)
                    requires
                        sw > 0,
                ;
            }
            return None;
        }
        assert(idx * sw + sw <= size && idx * sw + sw <= n - off) by (nonlinear_arith)
            requires
                idx < (size as int) / (sw as int),
                idx < (n - off) / (sw as int),
                sw > 0,
                off <= n,
        ;
        let sym = ElfSym::parse(self.data.as_slice(), (off + idx * sw) as usize, fmt);
        resolve_string(strtab, sym.name as usize)
    }
}

/// `r` is the name that `s` describes.
pub open spec fn slot_match(r: Option<String>, s: Option<Seq<char>>) -> bool {
    match r {
        Some(x) => s == Some(x@),
        None => s is None,
    }
}

/// Each name of `v` is the one that `s` describes at the same place.
pub open spec fn names_match(v: Seq<Option<String>>, s: Seq<Option<Seq<char>>>) -> bool {
    &&& v.len() == s.len()
    &&& forall|j: int| 0 <= j < v.len() ==> slot_match(#[trigger] v[j], s[j])
}

} // verus!
