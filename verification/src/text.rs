//! Verified text helpers: decimal rendering of integers, ASCII case
//! folding, substring containment, Unicode white-space trimming, and
//! decimal parsing.
//!
//! These back the query builder (placeholder numbering, numeric literals),
//! the pager (page numbers in links) and the input checks (trimmed titles).

use vstd::prelude::*;

verus! {

/// Relies on std's `String::push`: appends exactly the given character.
#[verifier::external_body]
pub fn push_char(s: &mut String, c: char)
    ensures
        final(s)@ == old(s)@.push(c),
{
    s.push(c);
}

pub open spec fn spec_digit(d: int) -> char {
    if d == 0 {
        '0'
    } else if d == 1 {
        '1'
    } else if d == 2 {
        '2'
    } else if d == 3 {
        '3'
    } else if d == 4 {
        '4'
    } else if d == 5 {
        '5'
    } else if d == 6 {
        '6'
    } else if d == 7 {
        '7'
    } else if d == 8 {
        '8'
    } else {
        '9'
    }
}

/// The usual base-ten rendering of a non-negative integer, most
/// significant digit first, with no leading zeros (except for zero itself).
pub open spec fn spec_dec(n: int) -> Seq<char>
    decreases n,
{
    if n < 10 {
        seq![spec_digit(n)]
    } else {
        spec_dec(n / 10).push(spec_digit(n % 10))
    }
}

fn digit_str(d: u64) -> (r: &'static str)
    requires
        d < 10,
    ensures
        r@ =~= seq![spec_digit(d as int)],
{
    if d == 0 {
        proof {
            reveal_strlit("0");
        }
        "0"
    } else if d == 1 {
        proof {
            reveal_strlit("1");
        }
        "1"
    } else if d == 2 {
        proof {
            reveal_strlit("2");
        }
        "2"
    } else if d == 3 {
        proof {
            reveal_strlit("3");
        }
        "3"
    } else if d == 4 {
        proof {
            reveal_strlit("4");
        }
        "4"
    } else if d == 5 {
        proof {
            reveal_strlit("5");
        }
        "5"
    } else if d == 6 {
        proof {
            reveal_strlit("6");
        }
        "6"
    } else if d == 7 {
        proof {
            reveal_strlit("7");
        }
        "7"
    } else if d == 8 {
        proof {
            reveal_strlit("8");
        }
        "8"
    } else {
        proof {
            reveal_strlit("9");
        }
        "9"
    }
}

/// Base-ten rendering of a `u64`.
pub fn dec_u64(n: u64) -> (r: String)
    ensures
        r@ =~= spec_dec(n as int),
    decreases n,
{
    if n < 10 {
        let mut s = String::new();
        s.append(digit_str(n));
        s
    } else {
        let mut s = dec_u64(n / 10);
        s.append(digit_str(n % 10));
        s
    }
}

/// Base-ten rendering of an `i64`, with a leading minus sign when negative.
pub open spec fn spec_dec_int(n: int) -> Seq<char> {
    if n < 0 {
        seq!['-'] + spec_dec(-n)
    } else {
        spec_dec(n)
    }
}

pub fn dec_i64(n: i64) -> (r: String)
    ensures
        r@ =~= spec_dec_int(n as int),
{
    if n < 0 {
        let m: u64 = (-(n as i128)) as u64;
        let mut s = String::new();
        proof {
            reveal_strlit("-");
        }
        s.append("-");
        let d = dec_u64(m);
        s.append(d.as_str());
        s
    } else {
        dec_u64(n as u64)
    }
}

/// ASCII upper-case letters fold to lower case; every other character —
/// including non-ASCII letters — is kept as it is.  The case folding the
/// searches are built on is therefore exact for ASCII and verbatim
/// beyond it.
pub open spec fn ascii_lower_char(c: char) -> char {
    if 'A' <= c && c <= 'Z' {
        ((c as u8) + 32) as char
    } else {
        c
    }
}

pub open spec fn ascii_lower_seq(s: Seq<char>) -> Seq<char> {
    s.map_values(|c: char| ascii_lower_char(c))
}

fn ascii_lower_char_exec(c: char) -> (r: char)
    ensures
        r == ascii_lower_char(c),
{
    if 'A' <= c && c <= 'Z' {
        let b: u8 = c as u8;
        (b + 32) as char
    } else {
        c
    }
}

/// ASCII-only case folding of a string; non-ASCII characters pass
/// through unchanged.
pub fn ascii_lower_str(s: &str) -> (r: String)
    ensures
        r@ =~= ascii_lower_seq(s@),
{
    let len = s.unicode_len();
    let mut out = String::new();
    let mut i: usize = 0;
    while i < len
        invariant
            len == s@.len(),
            i <= len,
            out@ =~= ascii_lower_seq(s@.take(i as int)),
        decreases len - i,
    {
        let c = s.get_char(i);
        let l = ascii_lower_char_exec(c);
        push_char(&mut out, l);
        proof {
            assert(s@.take(i + 1) =~= s@.take(i as int).push(s@[i as int]));
            assert(ascii_lower_seq(s@.take(i + 1)) =~= ascii_lower_seq(s@.take(i as int)).push(
                ascii_lower_char(s@[i as int]),
            ));
        }
        i = i + 1;
    }
    proof {
        assert(s@.take(len as int) =~= s@);
    }
    out
}

/// The needle occurs in the haystack starting at position `i`.
pub open spec fn matches_at(h: Seq<char>, n: Seq<char>, i: int) -> bool {
    0 <= i && i + n.len() <= h.len() && h.subrange(i, i + n.len()) =~= n
}

/// The needle occurs somewhere in the haystack.
pub open spec fn contains_seq(h: Seq<char>, n: Seq<char>) -> bool {
    exists|i: int| matches_at(h, n, i)
}

fn matches_at_exec(h: &str, n: &str, i: usize) -> (b: bool)
    requires
        i + n@.len() <= h@.len(),
    ensures
        b == matches_at(h@, n@, i as int),
{
    let hlen = h.unicode_len();
    let nlen = n.unicode_len();
    let mut j: usize = 0;
    while j < nlen
        invariant
            hlen == h@.len(),
            nlen == n@.len(),
            i + nlen <= h@.len(),
            j <= nlen,
            forall|k: int| 0 <= k < j ==> h@[i + k] == n@[k],
        decreases nlen - j,
    {
        if h.get_char(i + j) != n.get_char(j) {
            proof {
                assert(h@.subrange(i as int, i + n@.len())[j as int] == h@[i + j]);
            }
            return false;
        }
        j = j + 1;
    }
    proof {
        assert(h@.subrange(i as int, i + n@.len()) =~= n@);
    }
    true
}

/// Substring search.
pub fn contains_str(h: &str, n: &str) -> (b: bool)
    ensures
        b == contains_seq(h@, n@),
{
    let hlen = h.unicode_len();
    let nlen = n.unicode_len();
    if nlen > hlen {
        proof {
            assert(forall|i: int| !matches_at(h@, n@, i));
        }
        return false;
    }
    let mut i: usize = 0;
    while i <= hlen - nlen
        invariant
            hlen == h@.len(),
            nlen == n@.len(),
            nlen <= hlen,
            i <= hlen - nlen + 1,
            forall|k: int| 0 <= k < i ==> !matches_at(h@, n@, k),
        decreases hlen - nlen - i + 1,
    {
        if matches_at_exec(h, n, i) {
            return true;
        }
        i = i + 1;
    }
    proof {
        assert(forall|k: int| matches_at(h@, n@, k) ==> 0 <= k <= hlen - nlen);
    }
    false
}

/// The Unicode white-space set, as the standard library's trimming
/// recognizes it: the ASCII spacing characters, next line, no-break
/// space, the Ogham space mark, the typographic spaces, the line and
/// paragraph separators, and the narrow, mathematical and ideographic
/// spaces.
pub open spec fn is_space(c: char) -> bool {
    ||| c == ' '
    ||| ('\u{0009}' <= c && c <= '\u{000D}')
    ||| c == '\u{0085}'
    ||| c == '\u{00A0}'
    ||| c == '\u{1680}'
    ||| ('\u{2000}' <= c && c <= '\u{200A}')
    ||| c == '\u{2028}'
    ||| c == '\u{2029}'
    ||| c == '\u{202F}'
    ||| c == '\u{205F}'
    ||| c == '\u{3000}'
}

pub open spec fn trim_start_seq(s: Seq<char>) -> Seq<char>
    decreases s.len(),
{
    if s.len() == 0 {
        s
    } else if is_space(s[0]) {
        trim_start_seq(s.skip(1))
    } else {
        s
    }
}

pub open spec fn trim_end_seq(s: Seq<char>) -> Seq<char>
    decreases s.len(),
{
    if s.len() == 0 {
        s
    } else if is_space(s.last()) {
        trim_end_seq(s.take(s.len() - 1))
    } else {
        s
    }
}

/// The string with Unicode white space removed from both ends.
pub open spec fn trim_seq(s: Seq<char>) -> Seq<char> {
    trim_end_seq(trim_start_seq(s))
}

proof fn lemma_trim_start_subrange(s: Seq<char>, i: int)
    requires
        0 <= i <= s.len(),
        forall|k: int| 0 <= k < i ==> is_space(s[k]),
    ensures
        trim_start_seq(s) == trim_start_seq(s.skip(i)),
    decreases i,
{
    if i > 0 {
        assert(s.skip(1).skip(i - 1) =~= s.skip(i));
        lemma_trim_start_subrange(s.skip(1), i - 1);
    } else {
        assert(s.skip(0) =~= s);
    }
}

proof fn lemma_trim_start_done(s: Seq<char>)
    requires
        s.len() == 0 || !is_space(s[0]),
    ensures
        trim_start_seq(s) == s,
{
}

proof fn lemma_trim_end_subrange(s: Seq<char>, i: int)
    requires
        0 <= i <= s.len(),
        forall|k: int| i <= k < s.len() ==> is_space(s[k]),
    ensures
        trim_end_seq(s) == trim_end_seq(s.take(i)),
    decreases s.len() - i,
{
    if i < s.len() {
        assert(s.take(s.len() - 1).take(i) =~= s.take(i));
        lemma_trim_end_subrange(s.take(s.len() - 1), i);
    } else {
        assert(s.take(i) =~= s);
    }
}

fn is_space_exec(c: char) -> (b: bool)
    ensures
        b == is_space(c),
{
    c == ' ' || ('\u{0009}' <= c && c <= '\u{000D}') || c == '\u{0085}' || c == '\u{00A0}'
        || c == '\u{1680}' || ('\u{2000}' <= c && c <= '\u{200A}') || c == '\u{2028}'
        || c == '\u{2029}' || c == '\u{202F}' || c == '\u{205F}' || c == '\u{3000}'
}

/// Trims Unicode white space from both ends of a string.
pub fn trim_str(s: &str) -> (r: String)
    ensures
        r@ =~= trim_seq(s@),
{
    let len = s.unicode_len();
    let mut start: usize = 0;
    while start < len && is_space_exec(s.get_char(start))
        invariant
            len == s@.len(),
            start <= len,
            forall|k: int| 0 <= k < start ==> is_space(s@[k]),
        decreases len - start,
    {
        start = start + 1;
    }
    proof {
        lemma_trim_start_subrange(s@, start as int);
        lemma_trim_start_done(s@.skip(start as int));
    }
    if start == len {
        proof {
            assert(s@.skip(start as int) =~= Seq::<char>::empty());
        }
        return String::new();
    }
    let mut end: usize = len;
    while end > start && is_space_exec(s.get_char(end - 1))
        invariant
            len == s@.len(),
            start < len,
            !is_space(s@[start as int]),
            start <= end <= len,
            forall|k: int| end <= k < len ==> is_space(s@[k]),
        decreases end,
    {
        end = end - 1;
    }
    proof {
        let tail = s@.skip(start as int);
        lemma_trim_end_subrange(tail, end - start);
        assert(tail.take(end - start) =~= s@.subrange(start as int, end as int));
        assert(trim_end_seq(s@.subrange(start as int, end as int)) == s@.subrange(
            start as int,
            end as int,
        ));
    }
    let piece = s.substring_char(start, end);
    let mut out = String::new();
    out.append(piece);
    out
}

/// Convenience form over `String`.
pub fn trim_string(s: &String) -> (r: String)
    ensures
        r@ =~= trim_seq(s@),
{
    trim_str(s.as_str())
}

/// A decimal digit.
pub open spec fn is_digit(c: char) -> bool {
    '0' <= c && c <= '9'
}

pub open spec fn all_digits(s: Seq<char>) -> bool {
    forall|i: int| 0 <= i < s.len() ==> is_digit(s[i])
}

/// The number a digit string denotes, most significant digit first.
pub open spec fn digits_val(s: Seq<char>) -> int
    decreases s.len(),
{
    if s.len() == 0 {
        0
    } else {
        digits_val(s.take(s.len() - 1)) * 10 + (s.last() as int - '0' as int)
    }
}

/// The digits of a decimal rendering: everything after an optional
/// leading plus sign.
pub open spec fn sign_stripped(s: Seq<char>) -> Seq<char> {
    if s.len() > 0 && s[0] == '+' {
        s.skip(1)
    } else {
        s
    }
}

/// What parsing a decimal `u16` yields: after an optional leading plus
/// sign, the denoted number of a non-empty all-digit string that fits;
/// nothing otherwise.
pub open spec fn spec_parse_u16(s: Seq<char>) -> Option<u16> {
    let ds = sign_stripped(s);
    if ds.len() > 0 && all_digits(ds) && digits_val(ds) <= 65535 {
        Some(digits_val(ds) as u16)
    } else {
        None
    }
}

proof fn lemma_digits_val_nonneg(s: Seq<char>)
    requires
        all_digits(s),
    ensures
        digits_val(s) >= 0,
    decreases s.len(),
{
    if s.len() > 0 {
        assert(forall|i: int| 0 <= i < s.take(s.len() - 1).len() ==> is_digit(
            #[trigger] s.take(s.len() - 1)[i],
        ));
        lemma_digits_val_nonneg(s.take(s.len() - 1));
    }
}

proof fn lemma_digits_prefix(s: Seq<char>, j: int)
    requires
        all_digits(s),
        0 <= j <= s.len(),
    ensures
        digits_val(s) >= digits_val(s.take(j)),
    decreases s.len() - j,
{
    if j < s.len() {
        assert(s.take(j + 1).take(j) =~= s.take(j));
        assert(s.take(j + 1).last() == s[j]);
        assert(forall|i: int| 0 <= i < s.take(j).len() ==> is_digit(#[trigger] s.take(j)[i]));
        lemma_digits_val_nonneg(s.take(j));
        assert(digits_val(s.take(j + 1)) >= digits_val(s.take(j)));
        lemma_digits_prefix(s, j + 1);
    } else {
        assert(s.take(j) =~= s);
    }
}

/// Parses a decimal `u16`, accepting exactly the non-empty all-digit
/// strings — an optional leading plus sign allowed — whose value fits.
pub fn parse_u16(s: &str) -> (r: Option<u16>)
    ensures
        r == spec_parse_u16(s@),
{
    let len = s.unicode_len();
    let start: usize = if len > 0 && s.get_char(0) == '+' {
        1
    } else {
        0
    };
    let ghost ds = sign_stripped(s@);
    proof {
        assert(ds =~= s@.skip(start as int));
    }
    if len == start {
        return None;
    }
    let mut acc: u32 = 0;
    let mut i: usize = start;
    while i < len
        invariant
            len == s@.len(),
            start <= len,
            ds == sign_stripped(s@),
            ds == s@.skip(start as int),
            start <= i <= len,
            acc <= 65535,
            acc == digits_val(ds.take(i - start)),
            forall|k: int| 0 <= k < i - start ==> is_digit(ds[k]),
        decreases len - i,
    {
        let c = s.get_char(i);
        proof {
            assert(ds[i - start] == s@[i as int]);
        }
        if c < '0' || c > '9' {
            proof {
                assert(!is_digit(ds[i - start]));
                assert(!all_digits(ds));
                assert(spec_parse_u16(s@) is None);
            }
            return None;
        }
        let d: u32 = (c as u32) - 48;
        proof {
            assert(ds.take(i - start + 1).take(i - start) =~= ds.take(i - start));
            assert(ds.take(i - start + 1).last() == ds[i - start]);
        }
        acc = acc * 10 + d;
        i = i + 1;
        if acc > 65535 {
            proof {
                if all_digits(ds) {
                    lemma_digits_prefix(ds, i - start);
                    assert(digits_val(ds) > 65535);
                }
                assert(spec_parse_u16(s@) is None);
            }
            return None;
        }
    }
    proof {
        assert(ds.take(len - start) =~= ds);
    }
    Some(acc as u16)
}

/// What percent-encoding a string yields: a fixed function of the
/// string alone.
pub uninterp spec fn url_encoded(s: Seq<char>) -> Seq<char>;

/// Relies on urlencoding::encode: percent-encodes everything outside the
/// unreserved set, a fixed function of the string alone.
#[verifier::external_body]
pub(crate) fn encode_url(s: &str) -> (r: String)
    ensures
        r@ == url_encoded(s@),
{
    urlencoding::encode(s).into_owned()
}

} // verus!
