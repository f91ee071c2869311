//! Text helpers over `char` sequences: whitespace, trimming, prefixes,
//! decimal and hexadecimal rendering, and UTF-8 conversion.

use vstd::prelude::*;
use vstd::string::*;
use vstd::utf8::*;

verus! {

/// The Unicode `White_Space` property, which is what `char::is_whitespace` tests.
pub open spec fn is_space_char(c: char) -> bool {
    let u = c as u32;
    (0x09 <= u <= 0x0D) || u == 0x20 || u == 0x85 || u == 0xA0 || u == 0x1680
        || (0x2000 <= u <= 0x200A) || u == 0x2028 || u == 0x2029 || u == 0x202F
        || u == 0x205F || u == 0x3000
}

/// Executable whitespace test.
pub fn is_space(c: char) -> (b: bool)
    ensures
        b == is_space_char(c),
{
    let u = c as u32;
    (0x09 <= u && u <= 0x0D) || u == 0x20 || u == 0x85 || u == 0xA0 || u == 0x1680
        || (0x2000 <= u && u <= 0x200A) || u == 0x2028 || u == 0x2029 || u == 0x202F
        || u == 0x205F || u == 0x3000
}

/// The characters of a string slice, in order.
pub fn chars_of(s: &str) -> (v: Vec<char>)
    ensures
        v@ == s@,
{
    let mut v: Vec<char> = Vec::new();
    for c in it: s.chars()
        invariant
            v@ == it.seq().take(it.index() as int),
    {
        v.push(c);
    }
    v
}


/// Drops leading whitespace.
pub open spec fn trim_start_seq(s: Seq<char>) -> Seq<char>
    decreases s.len(),
{
    if s.len() > 0 && is_space_char(s[0]) {
        trim_start_seq(s.drop_first())
    } else {
        s
    }
}

/// Drops trailing whitespace.
pub open spec fn trim_end_seq(s: Seq<char>) -> Seq<char>
    decreases s.len(),
{
    if s.len() > 0 && is_space_char(s.last()) {
        trim_end_seq(s.drop_last())
    } else {
        s
    }
}

/// Drops whitespace at both ends, as `str::trim` does.
pub open spec fn trim_seq(s: Seq<char>) -> Seq<char> {
    trim_end_seq(trim_start_seq(s))
}

/// How many leading characters `trim_start_seq` drops, all of them whitespace.
proof fn trim_start_count(s: Seq<char>) -> (i: int)
    ensures
        0 <= i <= s.len(),
        trim_start_seq(s) == s.subrange(i, s.len() as int),
        forall|k: int| 0 <= k < i ==> is_space_char(#[trigger] s[k]),
        i < s.len() ==> !is_space_char(s[i]),
    decreases s.len(),
{
    if s.len() > 0 && is_space_char(s[0]) {
        let t = s.drop_first();
        let j = trim_start_count(t);
        assert(t.subrange(j, t.len() as int) =~= s.subrange(j + 1, s.len() as int));
        assert forall|k: int| 0 <= k < j + 1 implies is_space_char(#[trigger] s[k]) by {
            if k > 0 {
                assert(s[k] == t[k - 1]);
            }
        }
        if j + 1 < s.len() {
            assert(s[j + 1] == t[j]);
        }
        j + 1
    } else {
        assert(s.subrange(0, s.len() as int) =~= s);
        0
    }
}

/// Where `trim_end_seq` cuts: everything after the cut is whitespace.
proof fn trim_end_count(s: Seq<char>) -> (j: int)
    ensures
        0 <= j <= s.len(),
        trim_end_seq(s) == s.subrange(0, j),
        forall|k: int| j <= k < s.len() ==> is_space_char(#[trigger] s[k]),
        j > 0 ==> !is_space_char(s[j - 1]),
    decreases s.len(),
{
    if s.len() > 0 && is_space_char(s.last()) {
        let t = s.drop_last();
        let j = trim_end_count(t);
        assert(t.subrange(0, j) =~= s.subrange(0, j));
        assert forall|k: int| j <= k < s.len() implies is_space_char(#[trigger] s[k]) by {
            if k < s.len() - 1 {
                assert(s[k] == t[k]);
            }
        }
        if j > 0 {
            assert(s[j - 1] == t[j - 1]);
        }
        j
    } else {
        assert(s.subrange(0, s.len() as int) =~= s);
        s.len() as int
    }
}

/// Trimming keeps a run of the text, `s[i..j]`, and drops only whitespace
/// before and after it; the run, unless empty, starts and ends with a
/// character that is not whitespace.
pub proof fn lemma_trim_shape(s: Seq<char>)
    ensures
        exists|i: int, j: int|
            0 <= i <= j <= s.len() && trim_seq(s) == s.subrange(i, j) && (forall|k: int|
                0 <= k < i ==> is_space_char(#[trigger] s[k])) && (forall|k: int|
                j <= k < s.len() ==> is_space_char(#[trigger] s[k])) && (i < j ==> !is_space_char(s[i])
                && !is_space_char(s[j - 1])),
{
    let i = trim_start_count(s);
    let t = s.subrange(i, s.len() as int);
    let n = trim_end_count(t);
    let j = i + n;
    assert(t.subrange(0, n) =~= s.subrange(i, j));
    assert forall|k: int| j <= k < s.len() implies is_space_char(#[trigger] s[k]) by {
        assert(s[k] == t[k - i]);
    }
    if i < j {
        assert(s[j - 1] == t[n - 1]);
    }
    assert(0 <= i <= j <= s.len() && trim_seq(s) == s.subrange(i, j) && (forall|k: int|
        0 <= k < i ==> is_space_char(#[trigger] s[k])) && (forall|k: int|
        j <= k < s.len() ==> is_space_char(#[trigger] s[k])) && (i < j ==> !is_space_char(s[i])
        && !is_space_char(s[j - 1])));
}

/// Trimming keeps a text whose first and last characters are not whitespace.
pub proof fn lemma_trim_unpadded(s: Seq<char>)
    requires
        s.len() > 0,
        !is_space_char(s[0]),
        !is_space_char(s.last()),
    ensures
        trim_seq(s) == s,
{
}

/// Trimming a text followed by a line break gives the text back, when its
/// first and last characters are not whitespace.
pub proof fn lemma_trim_line(s: Seq<char>)
    requires
        s.len() > 0,
        !is_space_char(s[0]),
        !is_space_char(s.last()),
    ensures
        trim_seq(s + "\n"@) == s,
{
    reveal_strlit("\n");
    let t = s + "\n"@;
    assert(t[0] == s[0]);
    assert(trim_start_seq(t) == t);
    assert(t.last() == '\n');
    assert(t.drop_last() =~= s);
    assert(trim_end_seq(t) == trim_end_seq(s));
}

/// `s` begins with `p`.
pub open spec fn has_prefix(s: Seq<char>, p: Seq<char>) -> bool {
    p.len() <= s.len() && s.subrange(0, p.len() as int) == p
}

/// `p` occurs somewhere inside `s`.
pub open spec fn has_infix(s: Seq<char>, p: Seq<char>) -> bool {
    exists|i: int| 0 <= i <= s.len() - p.len() && #[trigger] s.subrange(i, i + p.len()) == p
}

/// The string with surrounding whitespace removed.
pub fn trim_text(s: &str) -> (r: &str)
    ensures
        r@ == trim_seq(s@),
{
    let v = chars_of(s);
    let len = v.len();
    let mut i: usize = 0;
    assert(s@.subrange(0, len as int) =~= s@);
    while i < len && is_space(v[i])
        invariant
            i <= len,
            len == s@.len(),
            v@ == s@,
            trim_start_seq(s@) == trim_start_seq(s@.subrange(i as int, len as int)),
        decreases len - i,
    {
        assert(s@.subrange(i as int, len as int).drop_first() =~= s@.subrange(i + 1, len as int));
        i = i + 1;
    }
    assert(trim_start_seq(s@.subrange(i as int, len as int)) == s@.subrange(i as int, len as int));
    let mut j: usize = len;
    while j > i && is_space(v[j - 1])
        invariant
            i <= j <= len,
            len == s@.len(),
            v@ == s@,
            trim_end_seq(s@.subrange(i as int, len as int)) == trim_end_seq(
                s@.subrange(i as int, j as int),
            ),
        decreases j,
    {
        assert(s@.subrange(i as int, j as int).drop_last() =~= s@.subrange(i as int, j - 1));
        j = j - 1;
    }
    assert(trim_end_seq(s@.subrange(i as int, j as int)) == s@.subrange(i as int, j as int));
    s.substring_char(i, j)
}

/// Whether `s` begins with `p`.
pub fn starts_with_text(s: &str, p: &str) -> (b: bool)
    ensures
        b == has_prefix(s@, p@),
{
    let sv = chars_of(s);
    let pv = chars_of(p);
    if pv.len() > sv.len() {
        return false;
    }
    let mut i: usize = 0;
    while i < pv.len()
        invariant
            i <= pv@.len() <= sv@.len(),
            sv@ == s@,
            pv@ == p@,
            sv@.subrange(0, i as int) == pv@.subrange(0, i as int),
        decreases pv@.len() - i,
    {
        if sv[i] != pv[i] {
            assert(sv@.subrange(0, pv@.len() as int)[i as int] != pv@[i as int]);
            return false;
        }
        assert(sv@.subrange(0, i + 1) =~= sv@.subrange(0, i as int).push(sv@[i as int]));
        assert(pv@.subrange(0, i + 1) =~= pv@.subrange(0, i as int).push(pv@[i as int]));
        i = i + 1;
    }
    assert(pv@.subrange(0, pv@.len() as int) =~= pv@);
    true
}

/// Whether `pv` occurs in `sv` at position `at`.
fn occurs_at(sv: &Vec<char>, pv: &Vec<char>, at: usize) -> (b: bool)
    requires
        at + pv@.len() <= sv@.len(),
    ensures
        b == (sv@.subrange(at as int, at + pv@.len()) == pv@),
{
    let n = sv.len();
    let mut k: usize = 0;
    while k < pv.len()
        invariant
            k <= pv@.len(),
            n == sv@.len(),
            at + pv@.len() <= sv@.len(),
            forall|m: int| 0 <= m < k ==> sv@[at + m] == pv@[m],
        decreases pv@.len() - k,
    {
        if sv[at + k] != pv[k] {
            assert(sv@.subrange(at as int, at + pv@.len())[k as int] != pv@[k as int]);
            return false;
        }
        k = k + 1;
    }
    assert(sv@.subrange(at as int, at + pv@.len()) =~= pv@);
    true
}

/// Whether `p` occurs somewhere in `s`.
pub fn contains_text(s: &str, p: &str) -> (b: bool)
    ensures
        b == has_infix(s@, p@),
{
    let sv = chars_of(s);
    let pv = chars_of(p);
    if pv.len() > sv.len() {
        return false;
    }
    let last = sv.len() - pv.len();
    let mut i: usize = 0;
    while i <= last
        invariant
            last + pv@.len() == sv@.len(),
            sv@ == s@,
            pv@ == p@,
            forall|m: int| 0 <= m < i ==> #[trigger] sv@.subrange(m, m + pv@.len()) != pv@,
        decreases last + 1 - i,
    {
        if occurs_at(&sv, &pv, i) {
            return true;
        }
        if i == last {
            return false;
        }
        i = i + 1;
    }
    false
}

/// The decimal digit character for `d < 10`.
pub open spec fn digit_char(d: nat) -> char {
    (48 + d) as char
}

/// Decimal rendering of a natural number, most significant digit first.
pub open spec fn decimal_seq(n: nat) -> Seq<char>
    decreases n,
{
    if n < 10 {
        seq![digit_char(n)]
    } else {
        decimal_seq(n / 10).push(digit_char(n % 10))
    }
}

/// The upper-case hexadecimal digit for `d < 16`.
pub open spec fn hex_digit_char(d: nat) -> char {
    if d < 10 {
        (48 + d) as char
    } else {
        (55 + d) as char
    }
}

/// `v` as four upper-case hexadecimal digits, zero-padded (the `{:04X}` format).
pub open spec fn hex4_seq(v: nat) -> Seq<char> {
    seq![
        hex_digit_char((v / 4096) % 16),
        hex_digit_char((v / 256) % 16),
        hex_digit_char((v / 16) % 16),
        hex_digit_char(v % 16),
    ]
}

/// Appends one character to a string.
#[verifier::external_body]
pub(crate) fn push_char(s: &mut String, c: char)
    ensures
        final(s)@ == old(s)@.push(c),
{
    s.push(c);
}

/// Removes and returns the last character of a string, if any.
#[verifier::external_body]
pub(crate) fn pop_char(s: &mut String) -> (r: Option<char>)
    ensures
        old(s)@.len() == 0 ==> r is None && final(s)@ == old(s)@,
        old(s)@.len() > 0 ==> r == Some(old(s)@.last()) && final(s)@ == old(s)@.drop_last(),
{
    s.pop()
}

/// Decodes UTF-8 bytes into a string; `None` when they are not valid UTF-8.
#[verifier::external_body]
pub(crate) fn utf8_to_string(bytes: Vec<u8>) -> (r: Option<String>)
    ensures
        r is Some <==> valid_utf8(bytes@),
        r matches Some(s) ==> s@ == decode_utf8(bytes@),
{
    String::from_utf8(bytes).ok()
}

/// Appends the decimal rendering of `n`.
pub fn push_decimal(s: &mut String, n: u64)
    ensures
        final(s)@ == old(s)@ + decimal_seq(n as nat),
    decreases n,
{
    if n >= 10 {
        push_decimal(s, n / 10);
    }
    let d = (n % 10) as u8;
    push_char(s, (48u8 + d) as char);
    assert(final(s)@ =~= old(s)@ + decimal_seq(n as nat));
}

/// The decimal rendering of `n` (the `{}` format of an unsigned integer).
pub fn decimal_text(n: u64) -> (r: String)
    ensures
        r@ == decimal_seq(n as nat),
{
    let mut s = String::new();
    push_decimal(&mut s, n);
    assert(s@ =~= decimal_seq(n as nat));
    s
}

/// Appends the hexadecimal digit for `d`.
fn push_hex_digit(s: &mut String, d: u16)
    requires
        d < 16,
    ensures
        final(s)@ == old(s)@.push(hex_digit_char(d as nat)),
{
    let b = d as u8;
    if b < 10 {
        push_char(s, (48u8 + b) as char);
    } else {
        push_char(s, (55u8 + b) as char);
    }
}

/// Appends `v` as four zero-padded upper-case hexadecimal digits.
pub fn push_hex4(s: &mut String, v: u16)
    ensures
        final(s)@ == old(s)@ + hex4_seq(v as nat),
{
    push_hex_digit(s, (v / 4096) % 16);
    push_hex_digit(s, (v / 256) % 16);
    push_hex_digit(s, (v / 16) % 16);
    push_hex_digit(s, v % 16);
    assert(final(s)@ =~= old(s)@ + hex4_seq(v as nat));
}

/// Appends every character of `t`.
pub fn push_text(s: &mut String, t: &str)
    ensures
        final(s)@ == old(s)@ + t@,
{
    s.append(t);
}

/// Whether two strings hold the same characters.
pub fn same_text(a: &str, b: &str) -> (r: bool)
    ensures
        r == (a@ == b@),
{
    String::from_str(a) == String::from_str(b)
}

} // verus!
