//! Small verified text utilities shared by the configuration parser and the
//! hotkey formatters: character access into strings, ASCII case folding,
//! trimming, splitting, and decimal/hexadecimal digits.

use vstd::prelude::*;
use vstd::string::StrSliceExecFns;

verus! {

/// The whitespace the trimmer removes.
pub open spec fn is_space_char(c: char) -> bool {
    c == ' ' || c == '\t' || c == '\r' || c == '\n'
}

pub fn is_space(c: char) -> (r: bool)
    ensures
        r == is_space_char(c),
{
    c == ' ' || c == '\t' || c == '\r' || c == '\n'
}

/// Relies on String::push: appends exactly the one character `c`.
#[verifier::external_body]
pub(crate) fn push_char(s: &mut String, c: char)
    ensures
        final(s)@ == old(s)@.push(c),
{
    s.push(c);
}

/// The characters of `s`, in order, as a vector.
pub fn chars_of(s: &str) -> (r: Vec<char>)
    ensures
        r@ == s@,
{
    let n = s.unicode_len();
    let mut r: Vec<char> = Vec::new();
    let mut i: usize = 0;
    while i < n
        invariant
            i <= n,
            n == s@.len(),
            r@ =~= s@.take(i as int),
        decreases n - i,
    {
        let c = s.get_char(i);
        r.push(c);
        proof {
            assert(s@.take(i + 1) =~= s@.take(i as int).push(s@[i as int]));
        }
        i = i + 1;
    }
    proof {
        assert(s@.take(n as int) =~= s@);
    }
    r
}

/// Whether the characters of `v` are exactly those of `s`.
pub fn eq_str(v: &Vec<char>, s: &str) -> (r: bool)
    ensures
        r == (v@ == s@),
{
    let n = s.unicode_len();
    if v.len() != n {
        return false;
    }
    let mut i: usize = 0;
    while i < n
        invariant
            i <= n,
            n == s@.len(),
            v@.len() == n,
            forall|k: int| 0 <= k < i ==> v@[k] == s@[k],
        decreases n - i,
    {
        if v[i] != s.get_char(i) {
            return false;
        }
        i = i + 1;
    }
    proof {
        assert(v@ =~= s@);
    }
    true
}

/// `s` with its leading whitespace removed.
pub open spec fn spec_trim_start(s: Seq<char>) -> Seq<char>
    decreases s.len(),
{
    if s.len() == 0 {
        s
    } else if is_space_char(s.first()) {
        spec_trim_start(s.drop_first())
    } else {
        s
    }
}

/// `s` with its trailing whitespace removed.
pub open spec fn spec_trim_end(s: Seq<char>) -> Seq<char>
    decreases s.len(),
{
    if s.len() == 0 {
        s
    } else if is_space_char(s.last()) {
        spec_trim_end(s.drop_last())
    } else {
        s
    }
}

/// `s` with whitespace removed from both ends.
pub open spec fn spec_trim(s: Seq<char>) -> Seq<char> {
    spec_trim_end(spec_trim_start(s))
}

/// A copy of `v` with whitespace removed from both ends.
pub fn trimmed(v: &Vec<char>) -> (r: Vec<char>)
    ensures
        r@ == spec_trim(v@),
{
    let n = v.len();
    proof {
        assert(v@.subrange(0, n as int) =~= v@);
    }
    let mut a: usize = 0;
    while a < n && is_space(v[a])
        invariant
            a <= n,
            n == v@.len(),
            spec_trim_start(v@) == spec_trim_start(v@.subrange(a as int, n as int)),
        decreases n - a,
    {
        proof {
            assert(v@.subrange(a as int, n as int).drop_first() =~= v@.subrange(a + 1, n as int));
        }
        a = a + 1;
    }
    proof {
        assert(spec_trim_start(v@) == v@.subrange(a as int, n as int));
    }
    let mut b: usize = n;
    while b > a && is_space(v[b - 1])
        invariant
            a <= b <= n,
            n == v@.len(),
            spec_trim_end(v@.subrange(a as int, n as int)) == spec_trim_end(
                v@.subrange(a as int, b as int),
            ),
        decreases b,
    {
        proof {
            assert(v@.subrange(a as int, b as int).drop_last() =~= v@.subrange(a as int, b - 1));
        }
        b = b - 1;
    }
    proof {
        assert(spec_trim_end(v@.subrange(a as int, b as int)) == v@.subrange(a as int, b as int));
    }
    let mut r: Vec<char> = Vec::new();
    let mut j: usize = a;
    while j < b
        invariant
            a <= j <= b <= n,
            n == v@.len(),
            r@ =~= v@.subrange(a as int, j as int),
        decreases b - j,
    {
        r.push(v[j]);
        proof {
            assert(v@.subrange(a as int, j + 1) =~= v@.subrange(a as int, j as int).push(
                v@[j as int],
            ));
        }
        j = j + 1;
    }
    proof {
        assert(r@ == spec_trim(v@));
    }
    r
}

/// ASCII case folding of one character: a lower-case letter becomes the
/// corresponding capital, everything else is untouched.
pub open spec fn spec_upper_char(c: char) -> char {
    if 0x61 <= c as u32 && c as u32 <= 0x7A {
        ((c as u32 - 0x20) as u8) as char
    } else {
        c
    }
}

/// ASCII case folding of a whole string.
pub open spec fn spec_upper(s: Seq<char>) -> Seq<char> {
    s.map(|i: int, c: char| spec_upper_char(c))
}

/// A copy of `v` with every ASCII lower-case letter capitalised.
pub fn to_upper(v: &Vec<char>) -> (r: Vec<char>)
    ensures
        r@ == spec_upper(v@),
{
    let mut r: Vec<char> = Vec::new();
    let mut i: usize = 0;
    while i < v.len()
        invariant
            i <= v@.len(),
            r@.len() == i,
            forall|k: int| 0 <= k < i ==> r@[k] == spec_upper_char(#[trigger] v@[k]),
        decreases v@.len() - i,
    {
        let c = v[i];
        let u = c as u32;
        if 0x61 <= u && u <= 0x7A {
            r.push(((u - 0x20) as u8) as char);
        } else {
            r.push(c);
        }
        i = i + 1;
    }
    proof {
        assert(r@ =~= spec_upper(v@));
    }
    r
}

/// The pieces of `s` between occurrences of `sep`: always at least one
/// piece, with an empty piece between two adjacent separators and at either
/// end where a separator touches it.
pub open spec fn spec_split(s: Seq<char>, sep: char) -> Seq<Seq<char>>
    decreases s.len(),
{
    if s.len() == 0 {
        seq![Seq::<char>::empty()]
    } else {
        let r = spec_split(s.drop_last(), sep);
        if s.last() == sep {
            r.push(Seq::empty())
        } else {
            r.update(r.len() - 1, r.last().push(s.last()))
        }
    }
}

pub proof fn lemma_split_nonempty(s: Seq<char>, sep: char)
    ensures
        spec_split(s, sep).len() >= 1,
    decreases s.len(),
{
    if s.len() > 0 {
        lemma_split_nonempty(s.drop_last(), sep);
    }
}

/// The pieces of `v` between occurrences of `sep`.
pub fn split_chars(v: &Vec<char>, sep: char) -> (parts: Vec<Vec<char>>)
    ensures
        parts.deep_view() == spec_split(v@, sep),
        parts@.len() >= 1,
{
    let mut parts: Vec<Vec<char>> = Vec::new();
    parts.push(Vec::new());
    proof {
        assert(v@.take(0) =~= Seq::<char>::empty());
        assert(parts.deep_view() =~~= spec_split(v@.take(0), sep));
    }
    let mut i: usize = 0;
    while i < v.len()
        invariant
            i <= v@.len(),
            parts@.len() >= 1,
            parts.deep_view() =~~= spec_split(v@.take(i as int), sep),
        decreases v@.len() - i,
    {
        let ghost prev = parts.deep_view();
        proof {
            assert(v@.take(i + 1).drop_last() =~= v@.take(i as int));
            assert(v@.take(i + 1).last() == v@[i as int]);
            lemma_split_nonempty(v@.take(i as int), sep);
        }
        if v[i] == sep {
            parts.push(Vec::new());
            proof {
                assert(parts.deep_view() =~~= prev.push(Seq::empty()));
            }
        } else {
            let mut lastv = parts.pop().unwrap();
            lastv.push(v[i]);
            parts.push(lastv);
            proof {
                assert(parts.deep_view() =~~= prev.update(
                    prev.len() - 1,
                    prev.last().push(v@[i as int]),
                ));
            }
        }
        proof {
            assert(parts.deep_view() =~~= spec_split(v@.take(i + 1), sep));
        }
        i = i + 1;
    }
    proof {
        assert(v@.take(v@.len() as int) =~= v@);
    }
    parts
}

/// Where `sep` first occurs in `s`: the part before it and the part after
/// it, or nothing where `s` holds no `sep` at all.
pub open spec fn spec_split_once(s: Seq<char>, sep: char) -> Option<(Seq<char>, Seq<char>)>
    decreases s.len(),
{
    if s.len() == 0 {
        None
    } else if s.first() == sep {
        Some((Seq::<char>::empty(), s.drop_first()))
    } else {
        match spec_split_once(s.drop_first(), sep) {
            None => None,
            Some(p) => Some((seq![s.first()] + p.0, p.1)),
        }
    }
}

proof fn lemma_split_once_at(s: Seq<char>, sep: char, k: int)
    requires
        0 <= k <= s.len(),
        forall|j: int| 0 <= j < k ==> s[j] != sep,
        k < s.len() ==> s[k] == sep,
    ensures
        k == s.len() ==> spec_split_once(s, sep) is None,
        k < s.len() ==> spec_split_once(s, sep) == Some((s.take(k), s.skip(k + 1))),
    decreases s.len(),
{
    if s.len() == 0 {
    } else if s.first() == sep {
        assert(k == 0);
        assert(s.take(0) =~= Seq::<char>::empty());
        assert(s.skip(1) =~= s.drop_first());
    } else {
        assert(k >= 1);
        lemma_split_once_at(s.drop_first(), sep, k - 1);
        if k < s.len() {
            assert(seq![s.first()] + s.drop_first().take(k - 1) =~= s.take(k));
            assert(s.drop_first().skip(k) =~= s.skip(k + 1));
        }
    }
}

/// Splits `v` at the first occurrence of `sep`, into the part before it and
/// the part after it; `None` where `v` holds no `sep`.
pub fn split_once_char(v: &Vec<char>, sep: char) -> (r: Option<(Vec<char>, Vec<char>)>)
    ensures
        (r is Some) == (spec_split_once(v@, sep) is Some),
        r is Some ==> spec_split_once(v@, sep) == Some(((r->0).0@, (r->0).1@)),
{
    let n = v.len();
    let mut k: usize = 0;
    while k < n && v[k] != sep
        invariant
            k <= n,
            n == v@.len(),
            forall|j: int| 0 <= j < k ==> v@[j] != sep,
        decreases n - k,
    {
        k = k + 1;
    }
    proof {
        lemma_split_once_at(v@, sep, k as int);
    }
    if k == n {
        return None;
    }
    let mut before: Vec<char> = Vec::new();
    let mut j: usize = 0;
    while j < k
        invariant
            j <= k <= n,
            n == v@.len(),
            before@ =~= v@.take(j as int),
        decreases k - j,
    {
        before.push(v[j]);
        proof {
            assert(v@.take(j + 1) =~= v@.take(j as int).push(v@[j as int]));
        }
        j = j + 1;
    }
    let mut after: Vec<char> = Vec::new();
    let mut m: usize = k + 1;
    while m < n
        invariant
            k + 1 <= m <= n,
            n == v@.len(),
            after@ =~= v@.subrange(k + 1, m as int),
        decreases n - m,
    {
        after.push(v[m]);
        proof {
            assert(v@.subrange(k + 1, m + 1) =~= v@.subrange(k + 1, m as int).push(v@[m as int]));
        }
        m = m + 1;
    }
    proof {
        assert(after@ =~= v@.skip(k + 1));
        assert(before@ =~= v@.take(k as int));
    }
    Some((before, after))
}

/// A decimal digit.
pub open spec fn is_digit_char(c: char) -> bool {
    0x30 <= c as u32 && c as u32 <= 0x39
}

/// Whether `s` consists of decimal digits only.
pub open spec fn all_digits(s: Seq<char>) -> bool {
    forall|i: int| 0 <= i < s.len() ==> is_digit_char(#[trigger] s[i])
}

/// The number an all-digit string denotes.
pub open spec fn digits_val(s: Seq<char>) -> int
    decreases s.len(),
{
    if s.len() == 0 {
        0
    } else {
        digits_val(s.drop_last()) * 10 + (s.last() as u32 - 0x30)
    }
}

/// The character for the decimal digit `d`.
pub open spec fn dec_digit_char(d: int) -> char {
    (0x30 + d) as char
}

/// The decimal numeral of `n`, most significant digit first.
pub open spec fn spec_dec(n: int) -> Seq<char>
    decreases n,
{
    if n < 10 {
        seq![dec_digit_char(if n >= 0 { n } else { 0 })]
    } else {
        spec_dec(n / 10).push(dec_digit_char(n % 10))
    }
}

/// Appends the decimal numeral of `n` to `out`.
pub fn push_dec(out: &mut String, n: u32)
    ensures
        final(out)@ == old(out)@ + spec_dec(n as int),
    decreases n,
{
    if n < 10 {
        push_char(out, ((0x30 + n) as u8) as char);
    } else {
        push_dec(out, n / 10);
        push_char(out, ((0x30 + n % 10) as u8) as char);
    }
}

/// The character for the hexadecimal digit `d`, upper case.
pub open spec fn hex_digit_char(d: int) -> char {
    if d < 10 {
        (0x30 + d) as char
    } else {
        (0x41 + (d - 10)) as char
    }
}

/// The hexadecimal numeral of `n`, upper case, most significant digit
/// first.
pub open spec fn spec_hex(n: int) -> Seq<char>
    decreases n,
{
    if n < 16 {
        seq![hex_digit_char(if n >= 0 { n } else { 0 })]
    } else {
        spec_hex(n / 16).push(hex_digit_char(n % 16))
    }
}

/// The hexadecimal numeral of `n`, zero-padded on the left to at least two
/// digits.
pub open spec fn spec_hex_pad2(n: int) -> Seq<char> {
    if n < 16 {
        seq!['0'] + spec_hex(n)
    } else {
        spec_hex(n)
    }
}

fn push_hex_digit(out: &mut String, d: u32)
    requires
        d < 16,
    ensures
        final(out)@ == old(out)@.push(hex_digit_char(d as int)),
{
    if d < 10 {
        push_char(out, ((0x30 + d) as u8) as char);
    } else {
        push_char(out, ((0x41 + (d - 10)) as u8) as char);
    }
}

fn push_hex(out: &mut String, n: u32)
    ensures
        final(out)@ == old(out)@ + spec_hex(n as int),
    decreases n,
{
    if n < 16 {
        push_hex_digit(out, n);
    } else {
        push_hex(out, n / 16);
        push_hex_digit(out, n % 16);
    }
}

/// Appends the hexadecimal numeral of `n`, zero-padded to at least two
/// digits, to `out`.
pub fn push_hex_pad2(out: &mut String, n: u32)
    ensures
        final(out)@ == old(out)@ + spec_hex_pad2(n as int),
{
    if n < 16 {
        push_char(out, '0');
    }
    push_hex(out, n);
}

/// The UTF-16 code units of one character.
pub open spec fn spec_utf16_char(c: char) -> Seq<u16> {
    if (c as u32) < 0x10000 {
        seq![c as u16]
    } else {
        seq![
            (0xD800 + ((c as u32 - 0x10000) / 0x400)) as u16,
            (0xDC00 + ((c as u32 - 0x10000) % 0x400)) as u16,
        ]
    }
}

/// The UTF-16 encoding of a character sequence.
pub open spec fn spec_utf16(s: Seq<char>) -> Seq<u16>
    decreases s.len(),
{
    if s.len() == 0 {
        Seq::empty()
    } else {
        spec_utf16(s.drop_last()) + spec_utf16_char(s.last())
    }
}

/// The UTF-16 encoding of `s` with a terminating zero unit, as the platform
/// expects its wide strings.
pub fn wide_str(s: &str) -> (r: Vec<u16>)
    ensures
        r@ == spec_utf16(s@) + seq![0u16],
{
    let n = s.unicode_len();
    let mut r: Vec<u16> = Vec::new();
    let mut i: usize = 0;
    while i < n
        invariant
            i <= n,
            n == s@.len(),
            r@ =~= spec_utf16(s@.take(i as int)),
        decreases n - i,
    {
        proof {
            assert(s@.take(i + 1).drop_last() =~= s@.take(i as int));
            assert(s@.take(i + 1).last() == s@[i as int]);
        }
        let c = s.get_char(i);
        let u = c as u32;
        if u < 0x10000 {
            r.push(u as u16);
        } else {
            r.push((0xD800 + ((u - 0x10000) / 0x400)) as u16);
            r.push((0xDC00 + ((u - 0x10000) % 0x400)) as u16);
        }
        i = i + 1;
    }
    proof {
        assert(s@.take(n as int) =~= s@);
    }
    r.push(0);
    r
}

} // verus!
