//! A decoded object file: its header and tables, and the queries that
//! cross-reference them.

use vstd::prelude::*;

use crate::bytes::{DecodeError, Format, copy_all};
use crate::internal::{elf_section_in_segment, in_segment};
use crate::sym::{
    ElfSym, section_syms, section_syms_fit, spec_read_symbols, view_symbols,
};
use crate::dynamic::{DYNAMIC_INFO_LEN, Dyn, dynamic_entries, fold_dynamic, folded};
use crate::hdr::{ElfHdr, decode_header, file_format, header_readable};
use crate::phdr::{ElfPhdr, PT_DYNAMIC, phdr_width, phdrs_at};
use crate::shdr::{ElfShdr, section_data, shdr_width, shdrs_at};
use crate::text::{resolve_string, string_at};

verus! {

/// A symbol table section, with the name of the section, the bytes of the
/// string table that its symbols' names index, and its symbols.
pub struct SymbolTable {
    pub name: Option<String>,
    pub strings: Vec<u8>,
    pub symbols: Vec<ElfSym>,
}

/// Section type codes of symbol tables.
pub const SHT_SYMTAB: u32 = 0x2;

pub const SHT_DYNSYM: u32 = 0xB;

/// The first section of `ss` whose type code is `t`.
pub open spec fn first_of_type(ss: Seq<ElfShdr>, t: u32) -> Option<ElfShdr>
    decreases ss.len(),
{
    if ss.len() == 0 {
        None
    } else if ss[0].wide().section_type == t {
        Some(ss[0])
    } else {
        first_of_type(ss.drop_first(), t)
    }
}

/// Whether `s` is a symbol table: a static or a dynamic one.
pub open spec fn is_symbol_table(s: ElfShdr) -> bool {
    s.wide().section_type == SHT_SYMTAB || s.wide().section_type == SHT_DYNSYM
}

/// The symbol table sections of `ss`, in order.
pub open spec fn symbol_sections(ss: Seq<ElfShdr>) -> Seq<ElfShdr>
    decreases ss.len(),
{
    if ss.len() == 0 {
        Seq::empty()
    } else {
        let r = symbol_sections(ss.drop_last());
        if is_symbol_table(ss.last()) {
            r.push(ss.last())
        } else {
            r
        }
    }
}

/// The symbol tables among the first `j` sections come first, in the same
/// order, among the symbol tables of all sections.
pub proof fn lemma_symbol_sections_prefix(ss: Seq<ElfShdr>, j: int)
    requires
        0 <= j <= ss.len(),
    ensures
        symbol_sections(ss.take(j)).len() <= symbol_sections(ss).len(),
        forall|k: int|
            0 <= k < symbol_sections(ss.take(j)).len() ==> symbol_sections(ss)[k]
                == #[trigger] symbol_sections(ss.take(j))[k],
    decreases ss.len() - j,
{
    if j == ss.len() {
        assert(ss.take(j) =~= ss);
    } else {
        lemma_symbol_sections_prefix(ss, j + 1);
        assert(ss.take(j + 1).drop_last() =~= ss.take(j));
        let a = symbol_sections(ss.take(j));
        let b = symbol_sections(ss.take(j + 1));
        assert forall|k: int| 0 <= k < a.len() implies symbol_sections(ss)[k] == #[trigger] a[k] by {
            assert(b[k] == a[k]);
        }
    }
}

/// Indices `j` in `1..k` whose section `ss[j]` belongs to segment `p`,
/// in increasing order; the null section at index 0 is never listed.
pub open spec fn members(ss: Seq<ElfShdr>, p: ElfPhdr, k: int) -> Seq<usize>
    decreases k,
{
    if k <= 1 {
        Seq::empty()
    } else {
        let r = members(ss, p, k - 1);
        if in_segment(ss[k - 1], p, true, true) {
            r.push((k - 1) as usize)
        } else {
            r
        }
    }
}

/// An object file decoded from its bytes.
pub struct FileData {
    /// The whole file.
    pub data: Vec<u8>,
    pub header: ElfHdr,
    pub program_headers: Vec<ElfPhdr>,
    pub section_headers: Vec<ElfShdr>,
    /// File offset and size of the dynamic segment; zero when there is none.
    pub dynamic_addr: u64,
    pub dynamic_size: u64,
    /// Values of the recorded dynamic tags, indexed by tag.
    pub dynamic_info: Vec<u64>,
    /// The section-name string table.
    pub string_table: Vec<u8>,
}

/// File offset and file size of the first DYNAMIC segment of `ps`; zeros
/// when there is none.
pub open spec fn dynamic_segment(ps: Seq<ElfPhdr>) -> (u64, u64)
    decreases ps.len(),
{
    if ps.len() == 0 {
        (0, 0)
    } else if ps[0].p_type == PT_DYNAMIC {
        (ps[0].p_offset, ps[0].p_filesz)
    } else {
        dynamic_segment(ps.drop_first())
    }
}

/// The program header table of `d` lies inside `d`.
pub open spec fn phdrs_fit(d: Seq<u8>) -> bool {
    let h = decode_header(d);
    h.e_phoff + h.e_phnum * phdr_width(file_format(d).wide) <= d.len()
}

/// The section header table of `d` lies inside `d`.
pub open spec fn shdrs_fit(d: Seq<u8>) -> bool {
    let h = decode_header(d);
    h.e_shoff + h.e_shnum * shdr_width(file_format(d).wide) <= d.len()
}

/// The section-name string table of `d`: empty when the file has no
/// sections, else the bytes of the section that the header names, when
/// they lie inside `d`.
pub open spec fn name_table(d: Seq<u8>) -> Option<Seq<u8>> {
    let h = decode_header(d);
    if h.e_shnum == 0 {
        Some(Seq::empty())
    } else {
        section_data(d, file_format(d), h.e_shentsize as int, h.e_shstrndx as int, h.e_shoff as int)
    }
}

/// `d` opens as an object file: a readable header with the right
/// signature, and program headers, section headers and name table inside
/// the file.
pub open spec fn opens(d: Seq<u8>) -> bool {
    &&& header_readable(d)
    &&& decode_header(d).spec_magic_ok()
    &&& phdrs_fit(d)
    &&& shdrs_fit(d)
    &&& name_table(d) is Some
}

/// File offset and file size of the first DYNAMIC segment; zeros when
/// there is none.
fn find_dynamic(ps: &[ElfPhdr]) -> (r: (u64, u64))
    ensures
        r == dynamic_segment(ps@),
{
    let mut i: usize = 0;
    assert(ps@.skip(0) =~= ps@);
    while i < ps.len()
        invariant
            i <= ps@.len(),
            dynamic_segment(ps@) == dynamic_segment(ps@.skip(i as int)),
        decreases ps@.len() - i,
    {
        proof {
            assert(ps@.skip(i as int).drop_first() =~= ps@.skip(i as int + 1));
            assert(ps@.skip(i as int)[0] == ps@[i as int]);
        }
        if ps[i].p_type == PT_DYNAMIC {
            return (ps[i].p_offset, ps[i].p_filesz);
        }
        i = i + 1;
    }
    assert(ps@.skip(i as int).len() == 0);
    (0, 0)
}

impl FileData {
    /// Decodes the header and the tables of the object file `data`.
    pub fn new(data: Vec<u8>) -> (r: Result<FileData, DecodeError>)
        ensures
            !header_readable(data@) || !decode_header(data@).spec_magic_ok() ==> r == Err::<
                FileData,
                DecodeError,
            >(DecodeError::MalformedHeader),
            header_readable(data@) && decode_header(data@).spec_magic_ok() && !opens(data@) ==> r
                == Err::<FileData, DecodeError>(DecodeError::TruncatedRead),
            r is Ok <==> opens(data@),
            r matches Ok(f) ==> f.data@ == data@ && f.header == decode_header(data@) && f.wf()
                && f.spec_tables(),
    {
        let header = ElfHdr::read(data.as_slice())?;
        if !header.magic_ok() {
            return Err(DecodeError::MalformedHeader);
        }
        assert(header.e_ident[4] == data@[4] && header.e_ident[5] == data@[5]);
        assert(header.spec_format() == Some(file_format(data@)));
        let program_headers = ElfPhdr::read(&header, data.as_slice())?;
        let section_headers = ElfShdr::read_all(&header, data.as_slice())?;
        let string_table = if header.e_shnum == 0 {
            Vec::new()
        } else {
            ElfShdr::get_string_table(&header, data.as_slice())?
        };
        let (dynamic_addr, dynamic_size) = find_dynamic(program_headers.as_slice());
        let dynamic_info = vec![0u64; DYNAMIC_INFO_LEN];
        assert(dynamic_info@ =~= Seq::new(DYNAMIC_INFO_LEN as nat, |i: int| 0u64));
        Ok(
            FileData {
                data,
                header,
                program_headers,
                section_headers,
                dynamic_addr,
                dynamic_size,
                dynamic_info,
                string_table,
            },
        )
    }

    /// The tables hold what the file's bytes and header describe.
    pub open spec fn spec_tables(&self) -> bool {
        let d = self.data@;
        let h = self.header;
        let f = file_format(d);
        &&& self.program_headers@ == phdrs_at(d, h.e_phoff as int, h.e_phnum as nat, f)
        &&& self.section_headers@ == shdrs_at(d, h.e_shoff as int, h.e_shnum as nat, f)
        &&& name_table(d) == Some(self.string_table@)
        &&& (self.dynamic_addr, self.dynamic_size) == dynamic_segment(self.program_headers@)
        &&& self.dynamic_info@ == Seq::new(DYNAMIC_INFO_LEN as nat, |i: int| 0u64)
    }

    pub fn header(&self) -> (r: &ElfHdr)
        ensures
            r == self.header,
    {
        &self.header
    }

    pub fn section_headers(&self) -> (r: &[ElfShdr])
        ensures
            r@ == self.section_headers@,
    {
        self.section_headers.as_slice()
    }

    pub fn program_headers(&self) -> (r: &[ElfPhdr])
        ensures
            r@ == self.program_headers@,
    {
        self.program_headers.as_slice()
    }

    /// The record layout of this file.
    pub open spec fn spec_fmt(&self) -> Format {
        file_format(self.data@)
    }

    /// The header names the layout that the file's bytes declare.
    pub open spec fn wf(&self) -> bool {
        self.header.spec_format() == Some(self.spec_fmt())
    }

    /// The string table that the symbols of section `s` name: the
    /// section-name table when `s` links to it, else the bytes of the
    /// linked section.
    pub open spec fn link_strings(&self, s: ElfShdr) -> Option<Seq<u8>> {
        let h = self.header;
        if s.wide().link == h.e_shstrndx {
            Some(self.string_table@)
        } else {
            section_data(
                self.data@,
                self.spec_fmt(),
                h.e_shentsize as int,
                s.wide().link as int,
                h.e_shoff as int,
            )
        }
    }

    /// Symbol table `s` can be read: its string table and its records lie
    /// inside the file, and its entry size is not zero.
    pub open spec fn table_ok(&self, s: ElfShdr) -> bool {
        &&& self.link_strings(s) is Some
        &&& s.wide().entsize != 0
        &&& section_syms_fit(self.data@, s, self.spec_fmt())
    }

    /// `t` holds symbol table `s`.
    pub open spec fn table_of(&self, s: ElfShdr, t: SymbolTable) -> bool {
        &&& t.name is Some <==> s.wide().name <= self.string_table@.len()
        &&& (t.name matches Some(n) ==> string_at(self.string_table@, s.wide().name as int) == Some(
            n@,
        ))
        &&& Some(t.strings@) == self.link_strings(s)
        &&& t.symbols@ == section_syms(self.data@, s, self.spec_fmt())
    }

    /// When symbol table section `i` cannot be read, not every symbol table
    /// of the file can.
    proof fn lemma_failed_table(&self, i: int)
        requires
            0 <= i < self.section_headers@.len(),
            is_symbol_table(self.section_headers@[i]),
            !self.table_ok(self.section_headers@[i]),
        ensures
            !(forall|k: int|
                0 <= k < symbol_sections(self.section_headers@).len() ==> self.table_ok(
                    #[trigger] symbol_sections(self.section_headers@)[k],
                )),
    {
        let ss = self.section_headers@;
        assert(ss.take(i + 1).drop_last() =~= ss.take(i));
        assert(ss.take(i + 1).last() == ss[i]);
        lemma_symbol_sections_prefix(ss, i + 1);
        let k = symbol_sections(ss.take(i)).len() as int;
        assert(symbol_sections(ss.take(i + 1))[k] == ss[i]);
        assert(symbol_sections(ss)[k] == ss[i]);
    }

    /// The entries of the dynamic segment, up to the NULL entry that ends
    /// them.
    pub fn dynamic_section(&self) -> (r: Result<Vec<Dyn>, DecodeError>)
        requires
            self.wf(),
        ensures
            match r {
                Ok(v) => crate::bytes::bytes_in(
                    self.data@,
                    self.dynamic_addr as int,
                    self.dynamic_addr + self.dynamic_size,
                ) is Some && v@ == dynamic_entries(
                    self.data@,
                    self.dynamic_addr as int,
                    self.dynamic_size as int,
                    self.spec_fmt(),
                ),
                Err(e) => e == DecodeError::TruncatedRead && crate::bytes::bytes_in(
                    self.data@,
                    self.dynamic_addr as int,
                    self.dynamic_addr + self.dynamic_size,
                ) is None,
            },
    {
        Dyn::read(&self.header, self.data.as_slice(), self.dynamic_addr, self.dynamic_size)
    }

    /// Folds the entries of the dynamic segment into `dynamic_info`.
    pub fn process_dynamic_section(&mut self) -> (r: Result<(), DecodeError>)
        requires
            old(self).wf(),
        ensures
            final(self).data == old(self).data,
            final(self).header == old(self).header,
            final(self).program_headers == old(self).program_headers,
            final(self).section_headers == old(self).section_headers,
            final(self).string_table == old(self).string_table,
            final(self).dynamic_addr == old(self).dynamic_addr,
            final(self).dynamic_size == old(self).dynamic_size,
            final(self).wf(),
            r is Ok <==> crate::bytes::bytes_in(
                old(self).data@,
                old(self).dynamic_addr as int,
                old(self).dynamic_addr + old(self).dynamic_size,
            ) is Some,
            r is Ok ==> final(self).dynamic_info@ == folded(
                dynamic_entries(
                    old(self).data@,
                    old(self).dynamic_addr as int,
                    old(self).dynamic_size as int,
                    old(self).spec_fmt(),
                ),
                old(self).dynamic_info@,
            ),
            r is Err ==> r == Err::<(), DecodeError>(DecodeError::TruncatedRead)
                && final(self).dynamic_info == old(self).dynamic_info,
    {
        let entries = self.dynamic_section()?;
        fold_dynamic(entries.as_slice(), &mut self.dynamic_info);
        Ok(())
    }

    /// The values of the recorded dynamic tags, indexed by tag.
    pub fn dynamic_info(&self) -> (r: &[u64])
        ensures
            r@ == self.dynamic_info@,
    {
        self.dynamic_info.as_slice()
    }

    /// The symbols of the first dynamic symbol table; `None` when there is
    /// none or it is empty.
    pub fn dynamic_symbols(&self) -> (r: Option<Result<Vec<ElfSym>, DecodeError>>)
        ensures
            view_symbols(r) == match first_of_type(self.section_headers@, SHT_DYNSYM) {
                None => None,
                Some(s) => spec_read_symbols(self.data@, self.header, s),
            },
    {
        let mut i: usize = 0;
        assert(self.section_headers@.skip(0) =~= self.section_headers@);
        while i < self.section_headers.len()
            invariant
                i <= self.section_headers@.len(),
                first_of_type(self.section_headers@, SHT_DYNSYM) == first_of_type(
                    self.section_headers@.skip(i as int),
                    SHT_DYNSYM,
                ),
            decreases self.section_headers@.len() - i,
        {
            let ghost rest = self.section_headers@.skip(i as int);
            proof {
                assert(rest.drop_first() =~= self.section_headers@.skip(i as int + 1));
                assert(rest[0] == self.section_headers@[i as int]);
            }
            if self.section_headers[i].type_code() == SHT_DYNSYM {
                return ElfSym::read_symbols(
                    &self.header,
                    self.data.as_slice(),
                    &self.section_headers[i],
                );
            }
            i = i + 1;
        }
        assert(self.section_headers@.skip(i as int).len() == 0);
        None
    }

    /// The symbol tables of the file, static and dynamic, in section order,
    /// each with its name and string table. An error when one of them
    /// cannot be read.
    pub fn table_symbols(&self) -> (r: Result<Vec<SymbolTable>, DecodeError>)
        requires
            self.wf(),
        ensures
            r is Ok <==> forall|i: int|
                0 <= i < symbol_sections(self.section_headers@).len() ==> self.table_ok(
                    #[trigger] symbol_sections(self.section_headers@)[i],
                ),
            r matches Ok(v) ==> v@.len() == symbol_sections(self.section_headers@).len() && forall|
                i: int,
            |
                0 <= i < v@.len() ==> self.table_of(
                    symbol_sections(self.section_headers@)[i],
                    #[trigger] v@[i],
                ),
    {
        let ghost ss = self.section_headers@;
        let fmt = self.header.format()?;
        let mut v: Vec<SymbolTable> = Vec::new();
        let mut i: usize = 0;
        while i < self.section_headers.len()
            invariant
                i <= ss.len(),
                ss == self.section_headers@,
                fmt == self.spec_fmt(),
                self.wf(),
                v@.len() == symbol_sections(ss.take(i as int)).len(),
                forall|k: int|
                    0 <= k < symbol_sections(ss.take(i as int)).len() ==> self.table_ok(
                        #[trigger] symbol_sections(ss.take(i as int))[k],
                    ),
                forall|k: int|
                    0 <= k < v@.len() ==> self.table_of(
                        symbol_sections(ss.take(i as int))[k],
                        #[trigger] v@[k],
                    ),
            decreases ss.len() - i,
        {
            let shdr = &self.section_headers[i];
            proof {
                assert(ss.take(i as int + 1).drop_last() =~= ss.take(i as int));
                assert(ss.take(i as int + 1).last() == ss[i as int]);
            }
            let t = shdr.type_code();
            if t == SHT_SYMTAB || t == SHT_DYNSYM {
                let strings = if shdr.link() == self.header.e_shstrndx as u32 {
                    copy_all(self.string_table.as_slice())
                } else {
                    match ElfShdr::get_data(
                        &self.header,
                        self.data.as_slice(),
                        shdr.link() as u64,
                        self.header.e_shoff,
                    ) {
                        Ok(b) => b,
                        Err(e) => {
                            proof {
                                self.lemma_failed_table(i as int);
                            }
                            return Err(e);
                        },
                    }
                };
                let name = self.string_lookup(shdr.name() as usize);
                if shdr.entsize() == 0 {
                    proof {
                        self.lemma_failed_table(i as int);
                    }
                    return Err(DecodeError::ZeroEntrySize);
                }
                let symbols = match crate::internal::get_data(
                    &self.header,
                    self.data.as_slice(),
                    shdr.size() / shdr.entsize(),
                    shdr.offset(),
                ) {
                    Ok(b) => b,
                    Err(e) => {
                        proof {
                            self.lemma_failed_table(i as int);
                        }
                        return Err(e);
                    },
                };
                let ghost old_v = v@;
                let tab = SymbolTable { name, strings, symbols };
                v.push(tab);
                proof {
                    let sn = symbol_sections(ss.take(i as int + 1));
                    assert(sn == symbol_sections(ss.take(i as int)).push(ss[i as int]));
                    assert forall|k: int| 0 <= k < v@.len() implies self.table_of(
                        sn[k],
                        #[trigger] v@[k],
                    ) by {
                        if k < old_v.len() {
                            assert(v@[k] == old_v[k]);
                        }
                    }
                }
            }
            i = i + 1;
        }
        assert(ss.take(i as int) =~= ss);
        Ok(v)
    }

    /// Indices of the sections that belong to segment `index`, in
    /// increasing order, leaving out the null section; empty when there is
    /// no such segment.
    pub fn segment_sections(&self, index: usize) -> (r: Vec<usize>)
        ensures
            index < self.program_headers@.len() ==> r@ == members(
                self.section_headers@,
                self.program_headers@[index as int],
                self.section_headers@.len() as int,
            ),
            index >= self.program_headers@.len() ==> r@.len() == 0,
    {
        let mut v: Vec<usize> = Vec::new();
        if index >= self.program_headers.len() {
            return v;
        }
        let p = &self.program_headers[index];
        let n = self.section_headers.len();
        if n == 0 {
            return v;
        }
        let mut j: usize = 1;
        while j < n
            invariant
                1 <= j <= n,
                n == self.section_headers@.len(),
                *p == self.program_headers@[index as int],
                v@ == members(self.section_headers@, *p, j as int),
            decreases n - j,
        {
            if elf_section_in_segment(&self.section_headers[j], p, true, true) {
                v.push(j);
            }
            j = j + 1;
        }
        v
    }

    /// The name at byte `index` of the section-name string table; `None`
    /// when `index` lies beyond its end.
    pub fn string_lookup(&self, index: usize) -> (r: Option<String>)
        ensures
            r is Some <==> index <= self.string_table@.len(),
            r matches Some(s) ==> string_at(self.string_table@, index as int) == Some(s@),
    {
        resolve_string(self.string_table.as_slice(), index)
    }
}

} // verus!
