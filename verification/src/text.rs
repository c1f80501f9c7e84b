//! Character and text utilities: whitespace trimming, ASCII case folding,
//! digit handling, and conversions between `String` and `Vec<char>`.
//!
//! Buffers that are edited character by character are kept as `Vec<char>`;
//! these helpers move between that representation and `String` at the
//! boundaries.

use vstd::prelude::*;

verus! {

/// The whitespace characters this library recognises: space, tab, and the
/// two line-break characters.
pub open spec fn is_space(c: char) -> bool {
    c == ' ' || c == '\t' || c == '\n' || c == '\r'
}

/// Executable form of `is_space`.
pub fn is_space_char(c: char) -> (r: bool)
    ensures
        r == is_space(c),
{
    c == ' ' || c == '\t' || c == '\n' || c == '\r'
}

/// `s` with leading whitespace removed.
pub open spec fn trim_front(s: Seq<char>) -> Seq<char>
    decreases s.len(),
{
    if s.len() > 0 && is_space(s[0]) {
        trim_front(s.drop_first())
    } else {
        s
    }
}

/// `s` with trailing whitespace removed.
pub open spec fn trim_back(s: Seq<char>) -> Seq<char>
    decreases s.len(),
{
    if s.len() > 0 && is_space(s[s.len() - 1]) {
        trim_back(s.drop_last())
    } else {
        s
    }
}

/// `s` with whitespace removed at both ends.
pub open spec fn trimmed(s: Seq<char>) -> Seq<char> {
    trim_back(trim_front(s))
}

/// Whether `s` has no visible content at all.
pub open spec fn is_blank(s: Seq<char>) -> bool {
    trimmed(s).len() == 0
}

proof fn lemma_trim_front_skip(s: Seq<char>, i: int)
    requires
        0 <= i <= s.len(),
        forall|k: int| 0 <= k < i ==> is_space(s[k]),
    ensures
        trim_front(s) == trim_front(s.subrange(i, s.len() as int)),
    decreases i,
{
    if i > 0 {
        assert(s.subrange(0, s.len() as int) == s);
        assert(trim_front(s) == trim_front(s.drop_first()));
        let t = s.drop_first();
        lemma_trim_front_skip(t, i - 1);
        assert(t.subrange(i - 1, t.len() as int) == s.subrange(i, s.len() as int));
    } else {
        assert(s.subrange(0, s.len() as int) == s);
    }
}

proof fn lemma_trim_back_skip(s: Seq<char>, j: int)
    requires
        0 <= j <= s.len(),
        forall|k: int| j <= k < s.len() ==> is_space(s[k]),
    ensures
        trim_back(s) == trim_back(s.subrange(0, j)),
    decreases s.len() - j,
{
    if j < s.len() {
        assert(trim_back(s) == trim_back(s.drop_last()));
        let t = s.drop_last();
        lemma_trim_back_skip(t, j);
        assert(t.subrange(0, j) == s.subrange(0, j));
    } else {
        assert(s.subrange(0, s.len() as int) == s);
    }
}

/// Removes whitespace from both ends of a character buffer.
pub fn trim_chars(v: &Vec<char>) -> (r: Vec<char>)
    ensures
        r@ == trimmed(v@),
{
    let len = v.len();
    let mut i: usize = 0;
    while i < len && is_space_char(v[i])
        invariant
            0 <= i <= len,
            len == v.len(),
            forall|k: int| 0 <= k < i ==> is_space(v@[k]),
        decreases len - i,
    {
        i += 1;
    }
    proof {
        lemma_trim_front_skip(v@, i as int);
    }
    let mut j: usize = len;
    while j > i && is_space_char(v[j - 1])
        invariant
            i <= j <= len,
            len == v.len(),
            forall|k: int| j <= k < len ==> is_space(v@[k]),
        decreases j,
    {
        j -= 1;
    }
    let ghost front = v@.subrange(i as int, len as int);
    proof {
        assert(forall|k: int| j - i <= k < front.len() ==> is_space(front[k]));
        lemma_trim_back_skip(front, j - i);
        if j > i {
            assert(front.subrange(0, j - i)[0] == v@[i as int]);
            assert(front.subrange(0, j - i).last() == v@[j - 1]);
        }
        assert(front.subrange(0, j - i) == v@.subrange(i as int, j as int));
    }
    let mut r: Vec<char> = Vec::new();
    let mut k: usize = i;
    while k < j
        invariant
            i <= k <= j <= len,
            len == v.len(),
            r@ == v@.subrange(i as int, k as int),
        decreases j - k,
    {
        r.push(v[k]);
        proof {
            assert(v@.subrange(i as int, k + 1 as int)
                == v@.subrange(i as int, k as int).push(v@[k as int]));
        }
        k += 1;
    }
    proof {
        if j > i {
            assert(!is_space(v@.subrange(i as int, j as int)[0]));
            assert(!is_space(v@.subrange(i as int, j as int).last()));
        }
        assert(trimmed(v@) == v@.subrange(i as int, j as int));
    }
    r
}

/// ASCII lower-casing of one character: `A`..`Z` map to `a`..`z`, every
/// other character stays as it is.
pub open spec fn lower_char(c: char) -> char {
    if 'A' <= c && c <= 'Z' {
        ((c as u32 + 32) as u8) as char
    } else {
        c
    }
}

/// Executable ASCII lower-casing of one character.
pub fn to_lower_char(c: char) -> (r: char)
    ensures
        r == lower_char(c),
{
    if 'A' <= c && c <= 'Z' {
        let x: u32 = c as u32;
        ((x + 32) as u8) as char
    } else {
        c
    }
}

/// ASCII lower-casing of a whole sequence.
pub open spec fn lower_seq(s: Seq<char>) -> Seq<char> {
    s.map_values(|c: char| lower_char(c))
}

/// Lower-cases a character buffer.
pub fn to_lower_chars(v: &Vec<char>) -> (r: Vec<char>)
    ensures
        r@ == lower_seq(v@),
{
    let mut r: Vec<char> = Vec::new();
    let mut k: usize = 0;
    while k < v.len()
        invariant
            0 <= k <= v.len(),
            r@ == lower_seq(v@.subrange(0, k as int)),
        decreases v.len() - k,
    {
        r.push(to_lower_char(v[k]));
        proof {
            assert(lower_seq(v@.subrange(0, k + 1 as int))
                =~= lower_seq(v@.subrange(0, k as int)).push(lower_char(v@[k as int])));
        }
        k += 1;
    }
    proof {
        assert(v@.subrange(0, v@.len() as int) == v@);
    }
    r
}

/// Whether `c` is a decimal digit.
pub open spec fn is_digit(c: char) -> bool {
    '0' <= c && c <= '9'
}

/// The numeric value of a digit character.
pub open spec fn digit_val(c: char) -> int {
    c as u32 - '0' as u32
}

/// Executable digit test.
pub fn is_digit_char(c: char) -> (r: bool)
    ensures
        r == is_digit(c),
{
    '0' <= c && c <= '9'
}

/// Numeric value of a digit character.
pub fn digit_value(c: char) -> (r: u32)
    requires
        is_digit(c),
    ensures
        r == digit_val(c),
{
    c as u32 - '0' as u32
}

/// The character for a digit value.
pub open spec fn digit_char(d: int) -> char {
    (('0' as u32 + d) as u8) as char
}

/// Executable digit-to-character conversion.
pub fn char_of_digit(d: u32) -> (r: char)
    requires
        d < 10,
    ensures
        r == digit_char(d as int),
{
    (('0' as u32 + d) as u8) as char
}

/// Relies on `String::push` from std: appends one character to the string.
#[verifier::external_body]
pub(crate) fn push_char(s: &mut String, c: char)
    ensures
        final(s)@ == old(s)@.push(c),
{
    s.push(c);
}

/// Builds a `String` holding exactly the characters of `v`.
pub fn chars_to_string(v: &Vec<char>) -> (r: String)
    ensures
        r@ == v@,
{
    let mut r: String = String::new();
    let mut k: usize = 0;
    while k < v.len()
        invariant
            0 <= k <= v.len(),
            r@ == v@.subrange(0, k as int),
        decreases v.len() - k,
    {
        push_char(&mut r, v[k]);
        proof {
            assert(v@.subrange(0, k + 1 as int)
                == v@.subrange(0, k as int).push(v@[k as int]));
        }
        k += 1;
    }
    proof {
        assert(v@.subrange(0, v@.len() as int) == v@);
    }
    r
}

/// Unpacks a string slice into a character buffer.
pub fn string_to_chars(s: &str) -> (r: Vec<char>)
    ensures
        r@ == s@,
{
    let n = s.unicode_len();
    let mut r: Vec<char> = Vec::new();
    let mut k: usize = 0;
    while k < n
        invariant
            0 <= k <= n,
            n == s@.len(),
            r@ == s@.subrange(0, k as int),
        decreases n - k,
    {
        r.push(s.get_char(k));
        proof {
            assert(s@.subrange(0, k + 1 as int)
                == s@.subrange(0, k as int).push(s@[k as int]));
        }
        k += 1;
    }
    proof {
        assert(s@.subrange(0, s@.len() as int) == s@);
    }
    r
}

/// The decimal digit string of `n`, most significant digit first.
pub open spec fn dec_digits(n: int) -> Seq<char>
    decreases n,
{
    if n <= 0 {
        Seq::<char>::empty()
    } else {
        dec_digits(n / 10).push(digit_char(n % 10))
    }
}

/// The decimal rendering of a non-negative number: `"0"` for zero, the plain
/// digit string otherwise.
pub open spec fn dec_str(n: int) -> Seq<char> {
    if n == 0 {
        seq!['0']
    } else {
        dec_digits(n)
    }
}

/// The decimal rendering of a possibly negative number: a minus sign
/// followed by the digits of the magnitude.
pub open spec fn int_str(n: int) -> Seq<char> {
    if n < 0 {
        seq!['-'] + dec_str(-n)
    } else {
        dec_str(n)
    }
}

/// Renders `n` in decimal, appending to `out`.
pub fn append_u64(out: &mut Vec<char>, n: u64)
    ensures
        final(out)@ == old(out)@ + dec_str(n as int),
{
    if n == 0 {
        out.push('0');
        proof {
            assert(old(out)@.push('0') =~= old(out)@ + dec_str(0));
        }
        return;
    }
    let mut rev: Vec<char> = Vec::new();
    let mut m: u64 = n;
    while m > 0
        invariant
            0 <= m <= n,
            dec_digits(n as int) == dec_digits(m as int) + rev@.reverse(),
        decreases m,
    {
        let ghost pre = rev@;
        rev.push(char_of_digit((m % 10) as u32));
        proof {
            assert(rev@.reverse() =~= seq![digit_char(m as int % 10)] + pre.reverse());
            assert(dec_digits(m as int) == dec_digits(m as int / 10).push(
                digit_char(m as int % 10)));
            assert(dec_digits(m as int / 10).push(digit_char(m as int % 10)) + pre.reverse()
                =~= dec_digits(m as int / 10) + (seq![digit_char(m as int % 10)] + pre.reverse()));
        }
        m = m / 10;
    }
    proof {
        assert(dec_digits(0) + rev@.reverse() =~= rev@.reverse());
    }
    let mut k: usize = rev.len();
    while k > 0
        invariant
            0 <= k <= rev.len(),
            out@ == old(out)@ + rev@.subrange(k as int, rev@.len() as int).reverse(),
        decreases k,
    {
        k -= 1;
        out.push(rev[k]);
        proof {
            let tail = rev@.subrange(k as int, rev@.len() as int);
            let tail2 = rev@.subrange(k + 1 as int, rev@.len() as int);
            assert(tail.reverse() =~= tail2.reverse().push(rev@[k as int]));
        }
    }
    proof {
        assert(rev@.subrange(0, rev@.len() as int) == rev@);
        assert(dec_str(n as int) == rev@.reverse());
    }
}

/// Renders `n` in decimal, appending to `out`.
pub fn append_u32(out: &mut Vec<char>, n: u32)
    ensures
        final(out)@ == old(out)@ + dec_str(n as int),
{
    append_u64(out, n as u64);
}

/// Whether a character buffer spells exactly the string slice `s`.
pub fn chars_equal_str(v: &Vec<char>, s: &str) -> (r: bool)
    ensures
        r == (v@ == s@),
{
    let n = s.unicode_len();
    if v.len() != n {
        proof {
            assert(v@.len() != s@.len());
        }
        return false;
    }
    let mut k: usize = 0;
    while k < n
        invariant
            0 <= k <= n,
            n == s@.len(),
            n == v@.len(),
            forall|i: int| 0 <= i < k ==> v@[i] == s@[i],
        decreases n - k,
    {
        if v[k] != s.get_char(k) {
            return false;
        }
        k += 1;
    }
    proof {
        assert(v@ =~= s@);
    }
    true
}

/// Appends every character of `v` to `out`.
pub fn append_chars(out: &mut Vec<char>, v: &Vec<char>)
    ensures
        final(out)@ == old(out)@ + v@,
{
    let mut k: usize = 0;
    while k < v.len()
        invariant
            0 <= k <= v.len(),
            out@ == old(out)@ + v@.subrange(0, k as int),
        decreases v.len() - k,
    {
        out.push(v[k]);
        proof {
            assert(old(out)@ + v@.subrange(0, k + 1 as int)
                =~= (old(out)@ + v@.subrange(0, k as int)).push(v@[k as int]));
        }
        k += 1;
    }
    proof {
        assert(v@.subrange(0, v@.len() as int) == v@);
    }
}

/// Appends every character of the string slice `s` to `out`.
pub fn append_str(out: &mut Vec<char>, s: &str)
    ensures
        final(out)@ == old(out)@ + s@,
{
    let n = s.unicode_len();
    let mut k: usize = 0;
    while k < n
        invariant
            0 <= k <= n,
            n == s@.len(),
            out@ == old(out)@ + s@.subrange(0, k as int),
        decreases n - k,
    {
        out.push(s.get_char(k));
        proof {
            assert(old(out)@ + s@.subrange(0, k + 1 as int)
                =~= (old(out)@ + s@.subrange(0, k as int)).push(s@[k as int]));
        }
        k += 1;
    }
    proof {
        assert(s@.subrange(0, s@.len() as int) == s@);
    }
}

/// Renders `n` in decimal, with a minus sign when negative, appending to `out`.
pub fn append_i64(out: &mut Vec<char>, n: i64)
    ensures
        final(out)@ == old(out)@ + int_str(n as int),
{
    if n < 0 {
        out.push('-');
        let mag: u64 = ((-(n + 1)) as u64) + 1;
        let ghost mid = out@;
        append_u64(out, mag);
        proof {
            assert(mid == old(out)@.push('-'));
            assert(old(out)@.push('-') + dec_str(mag as int)
                =~= old(out)@ + (seq!['-'] + dec_str(-(n as int))));
        }
    } else {
        append_u64(out, n as u64);
    }
}

} // verus!
