//! Verified string utilities: equality, substring search, decimal
//! rendering and parsing, and whitespace trimming. Everything the engine
//! needs to build command lines and classify transport output.

use vstd::prelude::*;
use vstd::string::StrSliceExecFns;
use vstd::string::StringExecFns;

verus! {

/// `n` occurs somewhere inside `h`.
pub open spec fn contains_seq(h: Seq<char>, n: Seq<char>) -> bool {
    exists|i: int| 0 <= i && i + n.len() <= h.len() && #[trigger] h.subrange(i, i + n.len()) == n
}

/// Character equality of two string slices.
pub fn str_eq(a: &str, b: &str) -> (r: bool)
    ensures
        r == (a@ == b@),
{
    let alen: usize = a.unicode_len();
    let blen: usize = b.unicode_len();
    if alen != blen {
        return false;
    }
    let mut i: usize = 0;
    while i < alen
        invariant
            i <= alen,
            alen == a@.len(),
            alen == b@.len(),
            forall|k: int| 0 <= k < i ==> a@[k] == b@[k],
        decreases alen - i,
    {
        if a.get_char(i) != b.get_char(i) {
            return false;
        }
        i = i + 1;
    }
    proof {
        assert(a@ =~= b@);
    }
    true
}

/// `n` matches `h` at offset `i`.
fn match_at(h: &str, n: &str, i: usize) -> (r: bool)
    requires
        i + n@.len() <= h@.len(),
    ensures
        r == (h@.subrange(i as int, i + n@.len()) == n@),
{
    let hlen: usize = h.unicode_len();
    let nlen: usize = n.unicode_len();
    let mut j: usize = 0;
    while j < nlen
        invariant
            j <= nlen,
            nlen == n@.len(),
            hlen == h@.len(),
            i + nlen <= hlen,
            forall|t: int| 0 <= t < j ==> h@[i + t] == n@[t],
        decreases nlen - j,
    {
        if h.get_char(i + j) != n.get_char(j) {
            proof {
                assert(h@.subrange(i as int, i + n@.len())[j as int] == h@[i + j]);
            }
            return false;
        }
        j = j + 1;
    }
    proof {
        assert(h@.subrange(i as int, i + n@.len()) =~= n@);
    }
    true
}

/// Substring search: does `h` contain `n`?
pub fn contains_sub(h: &str, n: &str) -> (r: bool)
    ensures
        r == contains_seq(h@, n@),
{
    let hlen: usize = h.unicode_len();
    let nlen: usize = n.unicode_len();
    if nlen > hlen {
        return false;
    }
    if nlen == 0 {
        proof {
            assert(contains_seq(h@, n@)) by {
                assert(h@.subrange(0, 0 + n@.len() as int) =~= n@);
            }
        }
        return true;
    }
    let bound: usize = hlen - nlen;
    let mut i: usize = 0;
    while i <= bound
        invariant
            hlen == h@.len(),
            nlen == n@.len(),
            1 <= nlen <= hlen,
            bound == hlen - nlen,
            i <= bound + 1,
            forall|k: int| 0 <= k < i ==> #[trigger] h@.subrange(k, k + n@.len()) != n@,
        decreases bound + 1 - i,
    {
        if match_at(h, n, i) {
            proof {
                assert(0 <= i as int && i as int + n@.len() <= h@.len() && h@.subrange(
                    i as int,
                    i as int + n@.len(),
                ) == n@);
            }
            return true;
        }
        i = i + 1;
    }
    false
}

/// The character for one decimal digit.
pub open spec fn dec_digit_char(d: nat) -> char
    recommends
        d < 10,
{
    if d == 0 {
        '0'
    } else if d == 1 {
        '1'
    } else if d == 2 {
        '2'
    } else if d == 3 {
        '3'
    } else if d == 4 {
        '4'
    } else if d == 5 {
        '5'
    } else if d == 6 {
        '6'
    } else if d == 7 {
        '7'
    } else if d == 8 {
        '8'
    } else {
        '9'
    }
}

/// Decimal rendering of a natural number, most significant digit first,
/// without leading zeros (`spec_dec(0) == seq!['0']`).
pub open spec fn spec_dec(n: nat) -> Seq<char>
    decreases n,
{
    if n < 10 {
        seq![dec_digit_char(n)]
    } else {
        spec_dec(n / 10).push(dec_digit_char(n % 10))
    }
}

/// The one-character string for a decimal digit.
fn digit_str(d: u16) -> (r: &'static str)
    requires
        d < 10,
    ensures
        r@ == seq![dec_digit_char(d as nat)],
{
    proof {
        reveal_strlit("0");
        reveal_strlit("1");
        reveal_strlit("2");
        reveal_strlit("3");
        reveal_strlit("4");
        reveal_strlit("5");
        reveal_strlit("6");
        reveal_strlit("7");
        reveal_strlit("8");
        reveal_strlit("9");
    }
    let r: &'static str = match d {
        0 => "0",
        1 => "1",
        2 => "2",
        3 => "3",
        4 => "4",
        5 => "5",
        6 => "6",
        7 => "7",
        8 => "8",
        _ => "9",
    };
    proof {
        assert(r@ =~= seq![dec_digit_char(d as nat)]);
    }
    r
}

/// Append the decimal rendering of `n` to `s`.
pub fn push_u16_dec(s: &mut String, n: u16)
    ensures
        final(s)@ == old(s)@ + spec_dec(n as nat),
    decreases n,
{
    if n >= 10 {
        proof {
            assert(n / 10 < n);
        }
        push_u16_dec(s, n / 10);
    }
    let ds: &str = digit_str(n % 10);
    s.append(ds);
    proof {
        if n >= 10 {
            assert(spec_dec(n as nat) == spec_dec(n as nat / 10).push(
                dec_digit_char(n as nat % 10),
            ));
            assert(old(s)@ + spec_dec(n as nat / 10) + ds@ =~= old(s)@ + spec_dec(n as nat));
        } else {
            assert(old(s)@ + ds@ =~= old(s)@ + spec_dec(n as nat));
        }
    }
}

/// The decimal rendering of `n` as an owned string.
pub fn u16_to_dec(n: u16) -> (r: String)
    ensures
        r@ == spec_dec(n as nat),
{
    let mut s = String::new();
    push_u16_dec(&mut s, n);
    proof {
        assert(Seq::<char>::empty() + spec_dec(n as nat) =~= spec_dec(n as nat));
    }
    s
}

/// An ASCII decimal digit.
pub open spec fn is_digit_char(c: char) -> bool {
    48 <= c as u32 <= 57
}

/// Numeric value of a decimal digit character.
pub open spec fn digit_val(c: char) -> nat
    recommends
        is_digit_char(c),
{
    (c as u32 - 48) as nat
}

/// Every character is an ASCII decimal digit.
pub open spec fn all_digits(s: Seq<char>) -> bool {
    forall|i: int| 0 <= i < s.len() ==> is_digit_char(#[trigger] s[i])
}

/// The numeric value of a digit string, most significant digit first.
pub open spec fn dec_value(s: Seq<char>) -> nat
    decreases s.len(),
{
    if s.len() == 0 {
        0
    } else {
        dec_value(s.drop_last()) * 10 + digit_val(s.last())
    }
}

/// The value a string parses to as a `u8`: zero unless the whole string is
/// decimal digits whose value fits.
pub open spec fn parse_u8_spec(s: Seq<char>) -> u8 {
    if s.len() > 0 && all_digits(s) && dec_value(s) <= 255 {
        dec_value(s) as u8
    } else {
        0
    }
}

/// Extending a digit string never decreases its value.
proof fn lemma_dec_value_prefix(s: Seq<char>, j: int)
    requires
        0 <= j <= s.len(),
    ensures
        dec_value(s.take(j)) <= dec_value(s),
    decreases s.len() - j,
{
    if j < s.len() {
        lemma_dec_value_prefix(s, j + 1);
        assert(s.take(j + 1).drop_last() =~= s.take(j));
        assert(dec_value(s.take(j + 1)) == dec_value(s.take(j)) * 10 + digit_val(s.take(j + 1).last()));
    } else {
        assert(s.take(j) =~= s);
    }
}

/// Parse a `u8` from a string of decimal digits, yielding 0 on any failure
/// (empty input, a non-digit character, or overflow).
pub fn parse_u8_digits(s: &str) -> (r: u8)
    ensures
        r == parse_u8_spec(s@),
{
    let len: usize = s.unicode_len();
    if len == 0 {
        return 0;
    }
    let mut i: usize = 0;
    let mut acc: u32 = 0;
    while i < len
        invariant
            0 < len,
            len == s@.len(),
            i <= len,
            acc <= 255,
            forall|k: int| 0 <= k < i ==> is_digit_char(#[trigger] s@[k]),
            acc == dec_value(s@.take(i as int)),
        decreases len - i,
    {
        let c: char = s.get_char(i);
        let cv: u32 = c as u32;
        if cv < 48 || cv > 57 {
            proof {
                assert(!is_digit_char(s@[i as int]));
                assert(!all_digits(s@));
            }
            return 0;
        }
        let d: u32 = cv - 48;
        let next: u32 = acc * 10 + d;
        proof {
            assert(s@.take(i as int + 1).drop_last() =~= s@.take(i as int));
            assert(s@.take(i as int + 1).last() == s@[i as int]);
            assert(dec_value(s@.take(i as int + 1)) == dec_value(s@.take(i as int)) * 10
                + digit_val(s@[i as int]));
        }
        if next > 255 {
            proof {
                if all_digits(s@) && dec_value(s@) <= 255 {
                    lemma_dec_value_prefix(s@, i as int + 1);
                    assert(false);
                }
            }
            return 0;
        }
        acc = next;
        i = i + 1;
    }
    proof {
        assert(s@.take(len as int) =~= s@);
        assert(all_digits(s@));
    }
    acc as u8
}

/// A character with the Unicode white-space property, the set the standard
/// library's `str::trim` removes.
pub open spec fn is_space_char(c: char) -> bool {
    let v = c as u32;
    (9 <= v <= 13) || v == 32 || v == 0x85 || v == 0xA0 || v == 0x1680 || (0x2000 <= v <= 0x200A)
        || v == 0x2028 || v == 0x2029 || v == 0x202F || v == 0x205F || v == 0x3000
}

/// Executable white-space test.
fn is_space(c: char) -> (r: bool)
    ensures
        r == is_space_char(c),
{
    let v: u32 = c as u32;
    (9 <= v && v <= 13) || v == 32 || v == 0x85 || v == 0xA0 || v == 0x1680 || (0x2000 <= v && v
        <= 0x200A) || v == 0x2028 || v == 0x2029 || v == 0x202F || v == 0x205F || v == 0x3000
}

/// The string with leading white space removed.
pub open spec fn spec_trim_start(s: Seq<char>) -> Seq<char>
    decreases s.len(),
{
    if s.len() > 0 && is_space_char(s[0]) {
        spec_trim_start(s.drop_first())
    } else {
        s
    }
}

/// The string with trailing white space removed.
pub open spec fn spec_trim_end(s: Seq<char>) -> Seq<char>
    decreases s.len(),
{
    if s.len() > 0 && is_space_char(s.last()) {
        spec_trim_end(s.drop_last())
    } else {
        s
    }
}

/// The string with white space removed from both ends.
pub open spec fn spec_trim(s: Seq<char>) -> Seq<char> {
    spec_trim_end(spec_trim_start(s))
}

proof fn lemma_trim_start_skip(s: Seq<char>, k: int)
    requires
        0 <= k <= s.len(),
        forall|t: int| 0 <= t < k ==> is_space_char(#[trigger] s[t]),
    ensures
        spec_trim_start(s) == spec_trim_start(s.skip(k)),
    decreases k,
{
    if k > 0 {
        assert(is_space_char(s[0]));
        let rest = s.drop_first();
        assert(forall|t: int| 0 <= t < k - 1 ==> is_space_char(#[trigger] rest[t]));
        lemma_trim_start_skip(rest, k - 1);
        assert(rest.skip(k - 1) =~= s.skip(k));
    } else {
        assert(s.skip(0) =~= s);
    }
}

proof fn lemma_trim_end_take(s: Seq<char>, k: int)
    requires
        0 <= k <= s.len(),
        forall|t: int| k <= t < s.len() ==> is_space_char(#[trigger] s[t]),
    ensures
        spec_trim_end(s) == spec_trim_end(s.take(k)),
    decreases s.len() - k,
{
    if k < s.len() {
        assert(is_space_char(s.last()));
        let rest = s.drop_last();
        assert(forall|t: int| k <= t < rest.len() ==> is_space_char(#[trigger] rest[t]));
        lemma_trim_end_take(rest, k);
        assert(rest.take(k) =~= s.take(k));
    } else {
        assert(s.take(k) =~= s);
    }
}

/// Index of the first character that is not white space (the length if all
/// characters are).
fn first_non_space(s: &str) -> (i: usize)
    ensures
        i <= s@.len(),
        forall|t: int| 0 <= t < i ==> is_space_char(#[trigger] s@[t]),
        i < s@.len() ==> !is_space_char(s@[i as int]),
{
    let len: usize = s.unicode_len();
    let mut i: usize = 0;
    while i < len
        invariant
            i <= len,
            len == s@.len(),
            forall|t: int| 0 <= t < i ==> is_space_char(#[trigger] s@[t]),
        decreases len - i,
    {
        if !is_space(s.get_char(i)) {
            return i;
        }
        i = i + 1;
    }
    i
}

/// One past the last character at or after `start` that is not white space
/// (`start` if there is none).
fn scan_back_non_space(s: &str, start: usize) -> (e: usize)
    requires
        start <= s@.len(),
    ensures
        start <= e <= s@.len(),
        forall|t: int| e <= t < s@.len() ==> is_space_char(#[trigger] s@[t]),
        e > start ==> !is_space_char(s@[e - 1]),
{
    let len: usize = s.unicode_len();
    let mut e: usize = len;
    while e > start
        invariant
            start <= e <= len,
            len == s@.len(),
            forall|t: int| e <= t < len ==> is_space_char(#[trigger] s@[t]),
        decreases e,
    {
        if !is_space(s.get_char(e - 1)) {
            return e;
        }
        e = e - 1;
    }
    e
}

/// Copy of `s` with white space removed from both ends, as `str::trim`
/// would produce.
pub fn trim_str(s: &str) -> (r: String)
    ensures
        r@ == spec_trim(s@),
{
    let start: usize = first_non_space(s);
    let end: usize = scan_back_non_space(s, start);
    let sub: &str = s.substring_char(start, end);
    proof {
        lemma_trim_start_skip(s@, start as int);
        let u = s@.skip(start as int);
        if start < s@.len() {
            assert(u[0] == s@[start as int]);
            assert(!is_space_char(u[0]));
        }
        assert(spec_trim_start(s@) == u);
        assert(forall|t: int|
            end - start <= t < u.len() ==> is_space_char(#[trigger] u[t]) && u[t] == s@[t
                + start]) by {
            assert(forall|t: int| end - start <= t < u.len() ==> #[trigger] u[t] == s@[t + start]);
        }
        lemma_trim_end_take(u, end as int - start as int);
        let v = u.take(end as int - start as int);
        assert(v =~= s@.subrange(start as int, end as int));
        if end > start {
            assert(v.last() == s@[end - 1]);
            assert(!is_space_char(v.last()));
        }
        assert(spec_trim_end(v) == v);
        assert(spec_trim(s@) == s@.subrange(start as int, end as int));
    }
    String::from_str(sub)
}

} // verus!
