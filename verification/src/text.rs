//! Text helpers: decimal rendering of counts and joining of relative paths.
//!
//! Paths are Unix paths: `/` separates their components and a path that starts with `/`
//! is absolute. The library targets Unix-like systems; on Windows, where
//! `std::path::Path::join` puts a backslash between components and knows drive prefixes, the
//! joined paths would differ from the platform's own.
use vstd::prelude::*;

verus! {

/// The character of a decimal digit.
pub open spec fn digit_char(d: nat) -> char {
    if d == 0 {
        '0'
    } else if d == 1 {
        '1'
    } else if d == 2 {
        '2'
    } else if d == 3 {
        '3'
    } else if d == 4 {
        '4'
    } else if d == 5 {
        '5'
    } else if d == 6 {
        '6'
    } else if d == 7 {
        '7'
    } else if d == 8 {
        '8'
    } else {
        '9'
    }
}

/// The decimal notation of a natural number, without leading zeros.
pub open spec fn decimal(n: nat) -> Seq<char>
    decreases n,
{
    if n < 10 {
        seq![digit_char(n)]
    } else {
        decimal(n / 10).push(digit_char(n % 10))
    }
}

fn digit_str(d: usize) -> (s: &'static str)
    requires
        d < 10,
    ensures
        s@ == seq![digit_char(d as nat)],
{
    if d == 0 {
        proof { reveal_strlit("0"); }
        assert("0"@ =~= seq!['0']);
        "0"
    } else if d == 1 {
        proof { reveal_strlit("1"); }
        assert("1"@ =~= seq!['1']);
        "1"
    } else if d == 2 {
        proof { reveal_strlit("2"); }
        assert("2"@ =~= seq!['2']);
        "2"
    } else if d == 3 {
        proof { reveal_strlit("3"); }
        assert("3"@ =~= seq!['3']);
        "3"
    } else if d == 4 {
        proof { reveal_strlit("4"); }
        assert("4"@ =~= seq!['4']);
        "4"
    } else if d == 5 {
        proof { reveal_strlit("5"); }
        assert("5"@ =~= seq!['5']);
        "5"
    } else if d == 6 {
        proof { reveal_strlit("6"); }
        assert("6"@ =~= seq!['6']);
        "6"
    } else if d == 7 {
        proof { reveal_strlit("7"); }
        assert("7"@ =~= seq!['7']);
        "7"
    } else if d == 8 {
        proof { reveal_strlit("8"); }
        assert("8"@ =~= seq!['8']);
        "8"
    } else {
        proof { reveal_strlit("9"); }
        assert("9"@ =~= seq!['9']);
        "9"
    }
}

/// Renders `n` in decimal, as `format!("{}", n)` does.
pub fn decimal_string(n: usize) -> (s: String)
    ensures
        s@ == decimal(n as nat),
    decreases n,
{
    let digit = digit_str(n % 10);
    if n < 10 {
        String::from_str(digit)
    } else {
        let mut s = decimal_string(n / 10);
        s.append(digit);
        s
    }
}

/// The path that joining the relative or absolute path `rel` onto `base` names, with
/// `/` as separator: an absolute `rel` replaces `base`; otherwise a separator is put
/// between them unless `base` is empty or already ends with one.
pub open spec fn joined(base: Seq<char>, rel: Seq<char>) -> Seq<char> {
    if rel.len() > 0 && rel[0] == '/' {
        rel
    } else if base.len() == 0 || base.last() == '/' {
        base + rel
    } else {
        base + seq!['/'] + rel
    }
}

/// Joins `rel` onto `base` the way `std::path::Path::join` does on Unix.
pub fn join_path(base: &str, rel: &str) -> (p: String)
    ensures
        p@ == joined(base@, rel@),
{
    let rel_len = rel.unicode_len();
    if rel_len > 0 && rel.get_char(0) == '/' {
        return String::from_str(rel);
    }
    let base_len = base.unicode_len();
    let mut p = String::from_str(base);
    if base_len > 0 && base.get_char(base_len - 1) != '/' {
        proof { reveal_strlit("/"); }
        assert("/"@ =~= seq!['/']);
        p.append("/");
    }
    p.append(rel);
    p
}

/// The bytes of ASCII text.
pub open spec fn ascii_bytes(s: Seq<char>) -> Seq<u8> {
    s.map_values(|c: char| c as u8)
}

/// `joined`, on the bytes of operating-system strings (`/` is the byte 47).
pub open spec fn joined_bytes(base: Seq<u8>, rel: Seq<u8>) -> Seq<u8> {
    if rel.len() > 0 && rel[0] == 47u8 {
        rel
    } else if base.len() == 0 || base.last() == 47u8 {
        base + rel
    } else {
        base + seq![47u8] + rel
    }
}

fn append_bytes(p: &mut Vec<u8>, b: &[u8])
    ensures
        final(p)@ == old(p)@ + b@,
{
    let n = b.len();
    let ghost start = p@;
    for i in 0..n
        invariant
            n == b@.len(),
            p@ == start + b@.take(i as int),
    {
        p.push(b[i]);
        assert(p@ =~= start + b@.take(i + 1));
    }
    assert(b@.take(n as int) =~= b@);
}

/// Joins `rel` onto `base`, both the bytes of operating-system strings, the way
/// `std::path::Path::join` does on Unix (see `joined_bytes`).
pub fn join_bytes(base: &[u8], rel: &[u8]) -> (p: Vec<u8>)
    ensures
        p@ == joined_bytes(base@, rel@),
{
    let mut p: Vec<u8> = Vec::new();
    if rel.len() > 0 && rel[0] == 47u8 {
        append_bytes(&mut p, rel);
        assert(p@ =~= rel@);
        return p;
    }
    append_bytes(&mut p, base);
    if base.len() > 0 && base[base.len() - 1] != 47u8 {
        p.push(47u8);
    }
    append_bytes(&mut p, rel);
    p
}

/// A path with a separator after it, unless it is empty or already ends in one: what a
/// relative path is put after when joined onto it.
pub open spec fn with_separator(base: Seq<char>) -> Seq<char> {
    if base.len() > 0 && base.last() != '/' {
        base.push('/')
    } else {
        base
    }
}

/// Joining puts a relative path after the base and exactly one separator, whatever
/// character the relative path starts with, and an absolute path replaces the base.
pub proof fn law_join_separates_components(base: Seq<char>, rel: Seq<char>)
    ensures
        !(rel.len() > 0 && rel[0] == '/') ==> joined(base, rel) == with_separator(base) + rel,
        !(rel.len() > 0 && rel[0] == '/') && base.len() > 0 && base.last() != '/' ==> joined(base, rel)
            == base + seq!['/'] + rel,
        rel.len() > 0 && rel[0] == '/' ==> joined(base, rel) == rel,
{
    assert(base.push('/') =~= base + seq!['/']);
}

/// `law_join_separates_components`, on the bytes of operating-system strings.
pub proof fn law_join_bytes_separates_components(base: Seq<u8>, rel: Seq<u8>)
    ensures
        !(rel.len() > 0 && rel[0] == 47u8) && base.len() > 0 && base.last() != 47u8 ==> joined_bytes(
            base,
            rel,
        ) == base + seq![47u8] + rel,
        !(rel.len() > 0 && rel[0] == 47u8) && (base.len() == 0 || base.last() == 47u8)
            ==> joined_bytes(base, rel) == base + rel,
        rel.len() > 0 && rel[0] == 47u8 ==> joined_bytes(base, rel) == rel,
{
}

/// The number that a string of decimal digits reads as.
pub open spec fn digits_value(s: Seq<char>) -> int
    decreases s.len(),
{
    if s.len() == 0 {
        0
    } else {
        digits_value(s.drop_last()) * 10 + (s.last() as int - '0' as int)
    }
}

proof fn lemma_digit_char_value(d: nat)
    requires
        d < 10,
    ensures
        digit_char(d) as int - '0' as int == d,
        '0' <= digit_char(d) <= '9',
{
    assert('0' as int == 48);
    assert('1' as int == 49);
    assert('2' as int == 50);
    assert('3' as int == 51);
    assert('4' as int == 52);
    assert('5' as int == 53);
    assert('6' as int == 54);
    assert('7' as int == 55);
    assert('8' as int == 56);
    assert('9' as int == 57);
}

/// The decimal notation of a number is digits only, reads back as the number, and has
/// no leading zero (but for zero itself).
pub proof fn law_decimal_reads_back(n: nat)
    ensures
        decimal(n).len() > 0,
        forall|i: int| 0 <= i < decimal(n).len() ==> '0' <= #[trigger] decimal(n)[i] <= '9',
        digits_value(decimal(n)) == n,
        decimal(n)[0] == '0' ==> n == 0,
    decreases n,
{
    let d = decimal(n);
    if n >= 10 {
        law_decimal_reads_back(n / 10);
        lemma_digit_char_value(n % 10);
        assert(d.drop_last() =~= decimal(n / 10));
        assert(d[0] == decimal(n / 10)[0]);
        assert(digits_value(d) == digits_value(decimal(n / 10)) * 10 + (n % 10));
    } else {
        lemma_digit_char_value(n);
        assert(d.drop_last() =~= Seq::<char>::empty());
        assert(digits_value(d) == digits_value(d.drop_last()) * 10 + (d.last() as int - '0' as int));
    }
}

} // verus!
