//! Character-level helpers on strings, each with an exact contract.

use vstd::prelude::*;
use vstd::string::*;
use vstd::utf8::{decode_utf8, valid_utf8};

verus! {

/// ASCII lower-casing of one character; other characters are unchanged.
pub open spec fn ascii_lower(c: char) -> char {
    if 'A' <= c && c <= 'Z' {
        ((c as u32) + 32) as char
    } else {
        c
    }
}

/// ASCII lower-casing of a whole character sequence.
pub open spec fn ascii_lower_seq(s: Seq<char>) -> Seq<char> {
    s.map_values(|c: char| ascii_lower(c))
}

/// The decimal digit character for `d` (`0 <= d < 10`).
pub open spec fn digit_char(d: nat) -> char {
    (48 + d) as char
}

/// Decimal notation of a natural number, most significant digit first.
pub open spec fn decimal(n: nat) -> Seq<char>
    decreases n,
{
    if n < 10 {
        seq![digit_char(n)]
    } else {
        decimal(n / 10).push(digit_char(n % 10))
    }
}

/// Decimal notation of an integer, with a leading `-` when it is negative.
pub open spec fn signed_decimal(n: int) -> Seq<char> {
    if n < 0 {
        seq!['-'] + decimal((-n) as nat)
    } else {
        decimal(n as nat)
    }
}

/// The lower-case hexadecimal digit character for `d` (`0 <= d < 16`).
pub open spec fn hex_digit(d: int) -> char {
    if d < 10 {
        (48 + d) as char
    } else {
        (87 + d) as char
    }
}

/// The lowest `width` hexadecimal digits of `x`, most significant first.
pub open spec fn hex_fixed(x: int, width: nat) -> Seq<char>
    decreases width,
{
    if width == 0 {
        seq![]
    } else {
        hex_fixed(x / 16, (width - 1) as nat).push(hex_digit(x % 16))
    }
}

/// `s` without its trailing run of `c` characters.
pub open spec fn trim_end_char(s: Seq<char>, c: char) -> Seq<char>
    decreases s.len(),
{
    if s.len() > 0 && s.last() == c {
        trim_end_char(s.drop_last(), c)
    } else {
        s
    }
}

/// The first `n` characters of `s`, or all of `s` when it is shorter.
pub open spec fn prefix_chars(s: Seq<char>, n: nat) -> Seq<char> {
    if s.len() <= n {
        s
    } else {
        s.take(n as int)
    }
}

/// Appends one character to a string.
#[verifier::external_body]
pub(crate) fn push_char(s: &mut String, c: char)
    ensures
        final(s)@ == old(s)@.push(c),
{
    s.push(c);
}

/// What `String::from_utf8_lossy` makes of `bytes`: their UTF-8 decoding
/// with each invalid sequence replaced by U+FFFD.
pub uninterp spec fn utf8_lossy(bytes: Seq<u8>) -> Seq<char>;

/// `String::from_utf8_lossy(bytes)` as an owned string; valid UTF-8 comes
/// out decoded unchanged.
#[verifier::external_body]
pub(crate) fn text_from_bytes_lossy(bytes: &[u8]) -> (res: String)
    ensures
        res@ == utf8_lossy(bytes@),
        valid_utf8(bytes@) ==> res@ == decode_utf8(bytes@),
{
    String::from_utf8_lossy(bytes).into_owned()
}

/// The characters of `s`, in order.
pub fn chars_of(s: &str) -> (res: Vec<char>)
    ensures
        res@ == s@,
{
    let mut res: Vec<char> = Vec::new();
    for c in it: s.chars()
        invariant
            it.seq() == s@,
            res@ == s@.take(it.index() as int),
    {
        proof {
            assert(s@.take(it.index() + 1) == s@.take(it.index() as int).push(c));
        }
        res.push(c);
    }
    proof {
        assert(s@.take(s@.len() as int) == s@);
    }
    res
}

/// Whether two strings hold the same characters.
pub fn str_eq(a: &str, b: &str) -> (res: bool)
    ensures
        res == (a@ == b@),
{
    let ca = chars_of(a);
    let cb = chars_of(b);
    if ca.len() != cb.len() {
        return false;
    }
    let mut i: usize = 0;
    while i < ca.len()
        invariant
            ca@ == a@,
            cb@ == b@,
            ca.len() == cb.len(),
            i <= ca.len(),
            forall|j: int| 0 <= j < i ==> ca@[j] == cb@[j],
        decreases ca.len() - i,
    {
        if ca[i] != cb[i] {
            return false;
        }
        i = i + 1;
    }
    assert(a@ =~= b@);
    true
}

/// Copy of `s` with every ASCII capital letter turned into its small letter.
pub fn to_ascii_lower(s: &str) -> (res: String)
    ensures
        res@ == ascii_lower_seq(s@),
{
    let mut res = String::new();
    for c in it: s.chars()
        invariant
            it.seq() == s@,
            res@ == ascii_lower_seq(s@.take(it.index() as int)),
    {
        let l = if 'A' <= c && c <= 'Z' {
            ((c as u8) + 32) as char
        } else {
            c
        };
        proof {
            assert(s@.take(it.index() + 1) == s@.take(it.index() as int).push(c));
        }
        push_char(&mut res, l);
    }
    proof {
        assert(s@.take(s@.len() as int) == s@);
    }
    res
}

/// Appends the decimal notation of `n` to `s`.
pub fn push_decimal(s: &mut String, n: u64)
    ensures
        final(s)@ == old(s)@ + decimal(n as nat),
    decreases n,
{
    if n >= 10 {
        push_decimal(s, n / 10);
    }
    let d = (n % 10) as u8;
    push_char(s, (48u8 + d) as char);
    proof {
        if n >= 10 {
            assert(old(s)@ + decimal(n as nat) =~= (old(s)@ + decimal((n / 10) as nat)).push(
                digit_char((n % 10) as nat),
            ));
        } else {
            assert(old(s)@ + decimal(n as nat) =~= old(s)@.push(digit_char(n as nat)));
        }
    }
}

/// Appends the decimal notation of `n` to `s`, with a `-` when it is negative.
pub fn push_signed_decimal(s: &mut String, n: i64)
    ensures
        final(s)@ == old(s)@ + signed_decimal(n as int),
{
    if n < 0 {
        push_char(s, '-');
        let m: u64 = (-(n as i128)) as u64;
        push_decimal(s, m);
        assert(old(s)@ + signed_decimal(n as int) =~= old(s)@.push('-') + decimal(m as nat));
    } else {
        push_decimal(s, n as u64);
    }
}

/// A copy of the first `n` characters of `s` (all of `s` when shorter).
pub fn take_chars(s: &str, n: usize) -> (res: String)
    ensures
        res@ == prefix_chars(s@, n as nat),
{
    let cs = chars_of(s);
    let mut res = String::new();
    let mut i: usize = 0;
    while i < cs.len() && i < n
        invariant
            cs@ == s@,
            i <= cs.len(),
            i <= n,
            res@ == s@.take(i as int),
        decreases cs.len() - i,
    {
        proof {
            assert(s@.take(i + 1) == s@.take(i as int).push(s@[i as int]));
        }
        push_char(&mut res, cs[i]);
        i = i + 1;
    }
    proof {
        if s@.len() <= n {
            assert(s@.take(s@.len() as int) == s@);
        }
    }
    res
}

/// A copy of `s` without its trailing run of `c` characters.
pub fn trim_end(s: &str, c: char) -> (res: String)
    ensures
        res@ == trim_end_char(s@, c),
{
    let cs = chars_of(s);
    let mut end: usize = cs.len();
    assert(s@.take(end as int) == s@);
    while end > 0 && cs[end - 1] == c
        invariant
            cs@ == s@,
            end <= cs.len(),
            trim_end_char(s@, c) == trim_end_char(s@.take(end as int), c),
        decreases end,
    {
        proof {
            assert(s@.take(end as int).drop_last() == s@.take(end - 1));
        }
        end = end - 1;
    }
    let mut res = String::new();
    let mut i: usize = 0;
    while i < end
        invariant
            cs@ == s@,
            end <= cs.len(),
            i <= end,
            res@ == s@.take(i as int),
        decreases end - i,
    {
        proof {
            assert(s@.take(i + 1) == s@.take(i as int).push(s@[i as int]));
        }
        push_char(&mut res, cs[i]);
        i = i + 1;
    }
    proof {
        assert(s@.take(0) == s@.take(end as int).take(0));
        if end == cs.len() {
            assert(s@.take(end as int) == s@);
        }
    }
    res
}

} // verus!
