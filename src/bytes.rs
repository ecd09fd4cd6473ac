//! Fixed-width unsigned integers read from a byte image in either byte order.

use vstd::prelude::*;

verus! {

/// Byte order of the multi-byte fields of a file.
#[derive(Clone, Copy, Debug, PartialEq, Eq, Structural)]
pub enum Endian {
    Little,
    Big,
}

/// Structural width of a file's records.
#[derive(Clone, Copy, Debug, PartialEq, Eq, Structural)]
pub enum ElfClass {
    ClassNone,
    ElfClass32,
    ElfClass64,
}

/// How the records of a file are laid out: their width class and byte order.
#[derive(Clone, Copy, Debug, PartialEq, Eq, Structural)]
pub struct Format {
    /// Records use the 64-bit layout.
    pub wide: bool,
    pub endian: Endian,
}

/// Why a table or a header could not be decoded.
#[derive(Clone, Copy, Debug, PartialEq, Eq, Structural)]
pub enum DecodeError {
    /// Bad signature, unrecognized class or data encoding, or a header cut short.
    MalformedHeader,
    /// Fewer bytes are present than a table's declared extent needs.
    TruncatedRead,
    /// A table declares records of size zero, so its record count is undefined.
    ZeroEntrySize,
}

/// `256` raised to the power `n`.
pub open spec fn pow256(n: nat) -> nat
    decreases n,
{
    if n == 0 {
        1
    } else {
        256 * pow256((n - 1) as nat)
    }
}

/// The number whose base-256 digits, most significant first, are `s`.
pub open spec fn base256(s: Seq<u8>) -> nat
    decreases s.len(),
{
    if s.len() == 0 {
        0
    } else {
        base256(s.drop_last()) * 256 + s.last() as nat
    }
}

/// The `width` bytes at `off`, most significant first under `endian`.
pub open spec fn digits(data: Seq<u8>, off: int, width: nat, endian: Endian) -> Seq<u8> {
    Seq::new(
        width,
        |k: int|
            match endian {
                Endian::Big => data[off + k],
                Endian::Little => data[off + width - 1 - k],
            },
    )
}

/// The unsigned integer stored in the `width` bytes at `off` under `endian`.
pub open spec fn uint_at(data: Seq<u8>, off: int, width: nat, endian: Endian) -> nat {
    base256(digits(data, off, width, endian))
}

pub proof fn lemma_pow256_mono(a: nat, b: nat)
    requires
        a <= b,
    ensures
        pow256(a) <= pow256(b),
    decreases b,
{
    if a < b {
        lemma_pow256_mono(a, (b - 1) as nat);
    }
}

pub proof fn lemma_base256_bound(s: Seq<u8>)
    ensures
        base256(s) < pow256(s.len()),
    decreases s.len(),
{
    if s.len() > 0 {
        let p = s.drop_last();
        lemma_base256_bound(p);
        let a = base256(p);
        let q = pow256(p.len());
        let d = s.last() as nat;
        assert(a * 256 + d < q * 256) by (nonlinear_arith)
            requires
                a < q,
                d < 256,
        ;
    }
}

/// A value of `width` bytes is below `256^width`.
pub proof fn lemma_uint_at_bound(data: Seq<u8>, off: int, width: nat, endian: Endian)
    ensures
        uint_at(data, off, width, endian) < pow256(width),
{
    lemma_base256_bound(digits(data, off, width, endian));
}

/// Values of two, four and eight bytes fit the unsigned types of those widths.
pub proof fn lemma_uint_fits(d: Seq<u8>, e: Endian)
    ensures
        forall|o: int| #[trigger] uint_at(d, o, 2, e) <= u16::MAX,
        forall|o: int| #[trigger] uint_at(d, o, 4, e) <= u32::MAX,
        forall|o: int| #[trigger] uint_at(d, o, 8, e) <= u64::MAX,
{
    reveal_with_fuel(pow256, 9);
    assert forall|o: int| #[trigger] uint_at(d, o, 2, e) <= u16::MAX by {
        lemma_uint_at_bound(d, o, 2, e);
    }
    assert forall|o: int| #[trigger] uint_at(d, o, 4, e) <= u32::MAX by {
        lemma_uint_at_bound(d, o, 4, e);
    }
    assert forall|o: int| #[trigger] uint_at(d, o, 8, e) <= u64::MAX by {
        lemma_uint_at_bound(d, o, 8, e);
    }
}

/// Reads the `width`-byte unsigned integer at `off` in the byte order `endian`.
pub fn read_uint(data: &[u8], off: usize, width: usize, endian: Endian) -> (r: u64)
    requires
        off + width <= data@.len(),
        width <= 8,
    ensures
        r as nat == uint_at(data@, off as int, width as nat, endian),
{
    let ghost ds = digits(data@, off as int, width as nat, endian);
    let n = data.len();
    let mut acc: u64 = 0;
    let mut k: usize = 0;
    while k < width
        invariant
            k <= width,
            width <= 8,
            off + width <= n,
            n == data@.len(),
            ds == digits(data@, off as int, width as nat, endian),
            acc as nat == base256(ds.take(k as int)),
        decreases width - k,
    {
        let b = match endian {
            Endian::Big => data[off + k],
            Endian::Little => data[off + width - 1 - k],
        };
        proof {
            lemma_base256_bound(ds.take(k as int));
            lemma_pow256_mono(k as nat, 7);
            reveal_with_fuel(pow256, 8);
            assert(ds.take(k as int + 1).drop_last() =~= ds.take(k as int));
        }
        acc = acc * 256 + b as u64;
        k = k + 1;
    }
    proof {
        assert(ds.take(width as int) =~= ds);
    }
    acc
}

/// Reads the two-byte unsigned integer at `off`.
pub fn read_u16(data: &[u8], off: usize, endian: Endian) -> (r: u16)
    requires
        off + 2 <= data@.len(),
    ensures
        r as nat == uint_at(data@, off as int, 2, endian),
{
    let v = read_uint(data, off, 2, endian);
    proof {
        lemma_uint_at_bound(data@, off as int, 2, endian);
        reveal_with_fuel(pow256, 3);
    }
    v as u16
}

/// Reads the four-byte unsigned integer at `off`.
pub fn read_u32(data: &[u8], off: usize, endian: Endian) -> (r: u32)
    requires
        off + 4 <= data@.len(),
    ensures
        r as nat == uint_at(data@, off as int, 4, endian),
{
    let v = read_uint(data, off, 4, endian);
    proof {
        lemma_uint_at_bound(data@, off as int, 4, endian);
        reveal_with_fuel(pow256, 5);
    }
    v as u32
}

/// Reads the eight-byte unsigned integer at `off`.
pub fn read_u64(data: &[u8], off: usize, endian: Endian) -> (r: u64)
    requires
        off + 8 <= data@.len(),
    ensures
        r as nat == uint_at(data@, off as int, 8, endian),
{
    read_uint(data, off, 8, endian)
}

/// Width in bytes of an address, offset or size field.
pub open spec fn word_width(wide: bool) -> nat {
    if wide {
        8
    } else {
        4
    }
}

/// Reads an address, offset or size field: four bytes in the 32-bit layout,
/// eight in the 64-bit one, widened to 64 bits.
pub fn read_word(data: &[u8], off: usize, fmt: Format) -> (r: u64)
    requires
        off + word_width(fmt.wide) <= data@.len(),
    ensures
        r as nat == uint_at(data@, off as int, word_width(fmt.wide), fmt.endian),
{
    if fmt.wide {
        read_u64(data, off, fmt.endian)
    } else {
        read_u32(data, off, fmt.endian) as u64
    }
}

/// A copy of `data`.
pub fn copy_all(data: &[u8]) -> (r: Vec<u8>)
    ensures
        r@ == data@,
{
    let mut v: Vec<u8> = Vec::new();
    let mut i: usize = 0;
    while i < data.len()
        invariant
            i <= data@.len(),
            v@ == data@.take(i as int),
        decreases data@.len() - i,
    {
        v.push(data[i]);
        i = i + 1;
        assert(v@ =~= data@.take(i as int));
    }
    assert(data@.take(i as int) =~= data@);
    v
}

/// `data[start..end]`, when that range lies inside `data`.
pub open spec fn bytes_in(data: Seq<u8>, start: int, end: int) -> Option<Seq<u8>> {
    if 0 <= start <= end <= data.len() {
        Some(data.subrange(start, end))
    } else {
        None
    }
}

/// Copies `len` bytes from `start`; `TruncatedRead` when they run past the
/// end of `data`.
pub fn copy_bytes(data: &[u8], start: u64, len: u64) -> (r: Result<Vec<u8>, DecodeError>)
    ensures
        r is Ok <==> bytes_in(data@, start as int, start + len) is Some,
        r matches Ok(v) ==> v@ == bytes_in(data@, start as int, start + len)->0,
        r is Err ==> r == Err::<Vec<u8>, DecodeError>(DecodeError::TruncatedRead),
{
    let n = data.len();
    if start > n as u64 || len > n as u64 - start {
        return Err(DecodeError::TruncatedRead);
    }
    let s = start as usize;
    let e = s + len as usize;
    let mut v: Vec<u8> = Vec::new();
    let mut i: usize = s;
    while i < e
        invariant
            s <= i <= e,
            e <= n,
            n == data@.len(),
            v@ == data@.subrange(s as int, i as int),
        decreases e - i,
    {
        v.push(data[i]);
        i = i + 1;
        assert(v@ =~= data@.subrange(s as int, i as int));
    }
    Ok(v)
}

} // verus!
