//! Names in string tables, and decimal numerals.

use vstd::prelude::*;

verus! {

/// The bytes of `t` up to, not including, the first NUL; all of `t` when it
/// holds none.
pub open spec fn run_to_nul(t: Seq<u8>) -> Seq<u8>
    decreases t.len(),
{
    if t.len() == 0 || t[0] == 0 {
        Seq::empty()
    } else {
        seq![t[0]] + run_to_nul(t.drop_first())
    }
}

/// Each byte read as the character with that code point.
pub open spec fn latin1(b: Seq<u8>) -> Seq<char> {
    Seq::new(b.len(), |k: int| b[k] as char)
}

/// The name that starts at byte `index` of string table `t`; `None` when
/// `index` lies beyond the end of the table.
pub open spec fn string_at(t: Seq<u8>, index: int) -> Option<Seq<char>> {
    if 0 <= index <= t.len() {
        Some(latin1(run_to_nul(t.skip(index))))
    } else {
        None
    }
}

/// Relies on `String::push`: appends one character.
#[verifier::external_body]
pub(crate) fn push_char(s: &mut String, c: char)
    ensures
        final(s)@ == old(s)@.push(c),
{
    s.push(c)
}

/// Resolves the name at byte `index` of string table `table`: the bytes
/// from there to the next NUL, or to the end of the table when no NUL
/// follows. `None` only when `index` lies beyond the end of the table.
pub fn resolve_string(table: &[u8], index: usize) -> (r: Option<String>)
    ensures
        r is Some <==> index <= table@.len(),
        r matches Some(s) ==> string_at(table@, index as int) == Some(s@),
{
    if index > table.len() {
        return None;
    }
    let mut s = String::new();
    let mut i: usize = index;
    while i < table.len() && table[i] != 0
        invariant
            index <= i <= table@.len(),
            latin1(run_to_nul(table@.skip(index as int))) == s@ + latin1(
                run_to_nul(table@.skip(i as int)),
            ),
        decreases table@.len() - i,
    {
        proof {
            let t = table@.skip(i as int);
            assert(t.drop_first() =~= table@.skip(i as int + 1));
            assert(latin1(run_to_nul(t)) =~= seq![table@[i as int] as char] + latin1(
                run_to_nul(t.drop_first()),
            ));
        }
        push_char(&mut s, table[i] as char);
        i = i + 1;
        assert(s@ + latin1(run_to_nul(table@.skip(i as int))) =~= latin1(
            run_to_nul(table@.skip(index as int)),
        ));
    }
    proof {
        assert(run_to_nul(table@.skip(i as int)) =~= Seq::<u8>::empty());
        assert(s@ =~= latin1(run_to_nul(table@.skip(index as int))));
    }
    Some(s)
}

/// Resolving a name is a function of the table and the index alone: two
/// resolutions of the same pair give the same name.
pub proof fn lemma_resolve_idempotent(t: Seq<u8>, index: int, a: Option<Seq<char>>, b: Option<Seq<char>>)
    requires
        a == string_at(t, index),
        b == string_at(t, index),
    ensures
        a == b,
{
}

/// Number of digits of the decimal numeral of `n`.
pub open spec fn num_digits(n: nat) -> nat
    decreases n,
{
    if n < 10 {
        1
    } else {
        1 + num_digits(n / 10)
    }
}

/// The character of decimal digit `d`.
pub open spec fn digit_char(d: nat) -> char {
    if d == 0 {
        '0'
    } else if d == 1 {
        '1'
    } else if d == 2 {
        '2'
    } else if d == 3 {
        '3'
    } else if d == 4 {
        '4'
    } else if d == 5 {
        '5'
    } else if d == 6 {
        '6'
    } else if d == 7 {
        '7'
    } else if d == 8 {
        '8'
    } else {
        '9'
    }
}

/// The decimal numeral of `n`, without leading zeros.
pub open spec fn decimal(n: nat) -> Seq<char>
    decreases n,
{
    if n < 10 {
        seq![digit_char(n)]
    } else {
        decimal(n / 10).push(digit_char(n % 10))
    }
}

fn digit_str(d: u64) -> (r: &'static str)
    requires
        d < 10,
    ensures
        r@ == seq![digit_char(d as nat)],
{
    proof {
        reveal_strlit("0");
        reveal_strlit("1");
        reveal_strlit("2");
        reveal_strlit("3");
        reveal_strlit("4");
        reveal_strlit("5");
        reveal_strlit("6");
        reveal_strlit("7");
        reveal_strlit("8");
        reveal_strlit("9");
    }
    let r = match d {
        0 => "0",
        1 => "1",
        2 => "2",
        3 => "3",
        4 => "4",
        5 => "5",
        6 => "6",
        7 => "7",
        8 => "8",
        _ => "9",
    };
    assert(r@ =~= seq![digit_char(d as nat)]);
    r
}

/// Appends the decimal numeral of `n` to `s`.
pub fn push_decimal(s: &mut String, n: u64)
    ensures
        final(s)@ == old(s)@ + decimal(n as nat),
    decreases n,
{
    if n >= 10 {
        push_decimal(s, n / 10);
    }
    s.append(digit_str(n % 10));
}

/// The decimal numeral of `n`.
pub fn decimal_string(n: u64) -> (r: String)
    ensures
        r@ == decimal(n as nat),
{
    let mut s = String::new();
    push_decimal(&mut s, n);
    assert(s@ =~= decimal(n as nat));
    s
}

} // verus!
