//! Verified text helpers: substring search, decimal parsing and formatting,
//! and ASCII-case-folded suffix tests.
//!
//! The management service exposes most scalar data as text (resource
//! subtypes, addresses, media paths), so the orchestration needs a small set
//! of exactly specified string operations.

use vstd::prelude::*;
use vstd::string::StrSliceExecFns;
use vstd::string::StringExecFns;

verus! {

// ---------------------------------------------------------------------------
// Substring search
// ---------------------------------------------------------------------------

/// The pattern `p` occurs in `s` starting at index `i`.
pub open spec fn is_substring_at(s: Seq<char>, p: Seq<char>, i: int) -> bool {
    0 <= i && i + p.len() <= s.len() && s.subrange(i, i + p.len()) == p
}

/// The pattern `p` occurs somewhere in `s`.
pub open spec fn contains_seq(s: Seq<char>, p: Seq<char>) -> bool {
    exists|i: int| is_substring_at(s, p, i)
}

/// Whether `p` occurs in `s` at position `i`, by direct comparison.
fn matches_at(s: &str, p: &str, i: usize, n: usize, m: usize) -> (r: bool)
    requires
        n == s@.len(),
        m == p@.len(),
        i + m <= n,
    ensures
        r == is_substring_at(s@, p@, i as int),
{
    let mut j: usize = 0;
    while j < m
        invariant
            n == s@.len(),
            m == p@.len(),
            i + m <= n,
            j <= m,
            forall|t: int| 0 <= t < j ==> s@[i + t] == p@[t],
        decreases m - j,
    {
        let sc = s.get_char(i + j);
        let pc = p.get_char(j);
        if sc != pc {
            proof {
                assert(s@.subrange(i as int, i + m)[j as int] == s@[i + j]);
                assert(s@.subrange(i as int, i + m) != p@);
            }
            return false;
        }
        j += 1;
    }
    proof {
        assert(s@.subrange(i as int, i + m) =~= p@);
    }
    true
}

/// Substring test over character sequences.
pub fn str_contains(s: &str, p: &str) -> (r: bool)
    ensures
        r == contains_seq(s@, p@),
{
    let n = s.unicode_len();
    let m = p.unicode_len();
    if m > n {
        proof {
            assert(forall|i: int| !is_substring_at(s@, p@, i));
        }
        return false;
    }
    let last = n - m;
    let mut i: usize = 0;
    loop
        invariant
            n == s@.len(),
            m == p@.len(),
            m <= n,
            last == n - m,
            i <= last,
            forall|k: int| 0 <= k < i ==> !is_substring_at(s@, p@, k),
        decreases last - i,
    {
        if matches_at(s, p, i, n, m) {
            proof {
                assert(is_substring_at(s@, p@, i as int));
            }
            return true;
        }
        if i >= last {
            proof {
                assert(forall|k: int| 0 <= k <= last ==> !is_substring_at(s@, p@, k));
                assert(forall|k: int| !is_substring_at(s@, p@, k));
            }
            return false;
        }
        i += 1;
    }
}

// ---------------------------------------------------------------------------
// Decimal digits: parsing
// ---------------------------------------------------------------------------

/// `c` is an ASCII decimal digit.
pub open spec fn is_dec_digit(c: char) -> bool {
    48 <= c as int && c as int <= 57
}

/// Numeric value of a decimal digit.
pub open spec fn dec_val(c: char) -> int {
    c as int - 48
}

/// Every character of `s` is a decimal digit.
pub open spec fn all_dec_digits(s: Seq<char>) -> bool {
    forall|i: int| 0 <= i < s.len() ==> is_dec_digit(#[trigger] s[i])
}

/// Value of `s` read as a decimal numeral (most significant digit first).
pub open spec fn dec_value(s: Seq<char>) -> int
    decreases s.len(),
{
    if s.len() == 0 {
        0
    } else {
        dec_value(s.drop_last()) * 10 + dec_val(s.last())
    }
}

/// A longer digit prefix never has a smaller value.
proof fn lemma_dec_value_prefix_le(s: Seq<char>, i: int, j: int)
    requires
        0 <= i <= j <= s.len(),
        all_dec_digits(s),
    ensures
        dec_value(s.subrange(0, i)) <= dec_value(s.subrange(0, j)),
    decreases j - i,
{
    if i < j {
        lemma_dec_value_prefix_le(s, i, j - 1);
        let pre = s.subrange(0, j);
        assert(pre.drop_last() =~= s.subrange(0, j - 1));
        assert(is_dec_digit(s[j - 1]));
        assert(all_dec_digits(s.subrange(0, j - 1)));
        lemma_dec_value_nonneg(s.subrange(0, j - 1));
    }
}

proof fn lemma_dec_value_nonneg(s: Seq<char>)
    requires
        all_dec_digits(s),
    ensures
        dec_value(s) >= 0,
    decreases s.len(),
{
    if s.len() > 0 {
        assert(all_dec_digits(s.drop_last())) by {
            assert(forall|i: int|
                0 <= i < s.len() - 1 ==> is_dec_digit(#[trigger] s.drop_last()[i]));
        }
        lemma_dec_value_nonneg(s.drop_last());
    }
}

/// Parse a nonempty, all-digit string as a `u32`; every other input,
/// including a numeral too large for `u32`, yields `None`.
pub fn parse_u32(s: &str) -> (r: Option<u32>)
    ensures
        match r {
            Some(v) => s@.len() > 0 && all_dec_digits(s@) && v as int == dec_value(s@),
            None => s@.len() == 0 || !all_dec_digits(s@) || dec_value(s@) > u32::MAX as int,
        },
{
    let n = s.unicode_len();
    if n == 0 {
        return None;
    }
    let mut acc: u32 = 0;
    let mut i: usize = 0;
    while i < n
        invariant
            n == s@.len(),
            0 < n,
            i <= n,
            all_dec_digits(s@.subrange(0, i as int)),
            acc as int == dec_value(s@.subrange(0, i as int)),
        decreases n - i,
    {
        let c = s.get_char(i);
        let code = c as u32;
        if code < 48 || code > 57 {
            proof {
                assert(!is_dec_digit(s@[i as int]));
            }
            return None;
        }
        let d = code - 48;
        proof {
            assert(s@.subrange(0, i + 1).drop_last() =~= s@.subrange(0, i as int));
            assert(s@.subrange(0, i + 1).last() == s@[i as int]);
            assert(is_dec_digit(s@[i as int]));
            assert(all_dec_digits(s@.subrange(0, i + 1)));
            assert(dec_value(s@.subrange(0, i + 1))
                == dec_value(s@.subrange(0, i as int)) * 10 + dec_val(s@[i as int]));
        }
        let wide: u64 = (acc as u64) * 10 + (d as u64);
        if wide > u32::MAX as u64 {
            proof {
                lemma_dec_value_prefix_le_total(s@, i + 1);
            }
            return None;
        }
        acc = wide as u32;
        i += 1;
    }
    proof {
        assert(s@.subrange(0, n as int) =~= s@);
    }
    Some(acc)
}

/// If the numeral formed by the first `i` characters already exceeds what a
/// prefix can reach, the full string's value is at least as large — provided
/// the whole string is made of digits.  Stated so the parser can stop early.
proof fn lemma_dec_value_prefix_le_total(s: Seq<char>, i: int)
    requires
        0 <= i <= s.len(),
    ensures
        all_dec_digits(s) ==> dec_value(s.subrange(0, i)) <= dec_value(s),
{
    if all_dec_digits(s) {
        lemma_dec_value_prefix_le(s, i, s.len() as int);
        assert(s.subrange(0, s.len() as int) =~= s);
    }
}

/// Value of `s` read as a decimal `u32`, with zero for anything that does
/// not parse: the empty string, a non-digit character, or a numeral too
/// large.
pub open spec fn dec_value_or_zero(s: Seq<char>) -> int {
    if s.len() > 0 && all_dec_digits(s) && dec_value(s) <= u32::MAX as int {
        dec_value(s)
    } else {
        0
    }
}

/// Parse a decimal `u32`, defaulting to zero when the text does not parse.
pub fn parse_u32_or_zero(s: &str) -> (r: u32)
    ensures
        r as int == dec_value_or_zero(s@),
{
    match parse_u32(s) {
        Some(v) => v,
        None => 0,
    }
}

/// Parse a nonempty, all-digit string as a `u64`; every other input,
/// including a numeral too large for `u64`, yields `None`.  The management
/// service reports 64-bit quantities as text, so this parse sits on the
/// read path of every such property.
pub fn parse_u64(s: &str) -> (r: Option<u64>)
    ensures
        match r {
            Some(v) => s@.len() > 0 && all_dec_digits(s@) && v as int == dec_value(s@),
            None => s@.len() == 0 || !all_dec_digits(s@) || dec_value(s@) > u64::MAX as int,
        },
{
    let n = s.unicode_len();
    if n == 0 {
        return None;
    }
    let mut acc: u64 = 0;
    let mut i: usize = 0;
    while i < n
        invariant
            n == s@.len(),
            0 < n,
            i <= n,
            all_dec_digits(s@.subrange(0, i as int)),
            acc as int == dec_value(s@.subrange(0, i as int)),
        decreases n - i,
    {
        let c = s.get_char(i);
        let code = c as u32;
        if code < 48 || code > 57 {
            proof {
                assert(!is_dec_digit(s@[i as int]));
            }
            return None;
        }
        let d = code - 48;
        proof {
            assert(s@.subrange(0, i + 1).drop_last() =~= s@.subrange(0, i as int));
            assert(s@.subrange(0, i + 1).last() == s@[i as int]);
            assert(is_dec_digit(s@[i as int]));
            assert(all_dec_digits(s@.subrange(0, i + 1)));
            assert(dec_value(s@.subrange(0, i + 1))
                == dec_value(s@.subrange(0, i as int)) * 10 + dec_val(s@[i as int]));
        }
        let wide: u128 = (acc as u128) * 10 + (d as u128);
        if wide > u64::MAX as u128 {
            proof {
                lemma_dec_value_prefix_le_total(s@, i + 1);
            }
            return None;
        }
        acc = wide as u64;
        i += 1;
    }
    proof {
        assert(s@.subrange(0, n as int) =~= s@);
    }
    Some(acc)
}

/// Character-wise string equality.
pub fn str_eq(a: &str, b: &str) -> (r: bool)
    ensures
        r == (a@ == b@),
{
    let n = a.unicode_len();
    let m = b.unicode_len();
    if n != m {
        return false;
    }
    let mut i: usize = 0;
    while i < n
        invariant
            n == a@.len(),
            n == b@.len(),
            i <= n,
            forall|k: int| 0 <= k < i ==> a@[k] == b@[k],
        decreases n - i,
    {
        if a.get_char(i) != b.get_char(i) {
            return false;
        }
        i += 1;
    }
    proof {
        assert(a@ =~= b@);
    }
    true
}

// ---------------------------------------------------------------------------
// Decimal digits: formatting
// ---------------------------------------------------------------------------

/// Character for the digit `d`.
pub open spec fn digit_char(d: int) -> char {
    if d == 0 { '0' }
    else if d == 1 { '1' }
    else if d == 2 { '2' }
    else if d == 3 { '3' }
    else if d == 4 { '4' }
    else if d == 5 { '5' }
    else if d == 6 { '6' }
    else if d == 7 { '7' }
    else if d == 8 { '8' }
    else { '9' }
}

/// Decimal numeral of `n`, most significant digit first, no leading zeros.
pub open spec fn dec_string(n: int) -> Seq<char>
    decreases n,
{
    if n < 10 {
        seq![digit_char(n)]
    } else {
        dec_string(n / 10).push(digit_char(n % 10))
    }
}

/// One decimal digit as a string slice.
fn digit_str(d: u64) -> (r: &'static str)
    requires
        d < 10,
    ensures
        r@ =~= seq![digit_char(d as int)],
{
    proof {
        reveal_strlit("0");
        reveal_strlit("1");
        reveal_strlit("2");
        reveal_strlit("3");
        reveal_strlit("4");
        reveal_strlit("5");
        reveal_strlit("6");
        reveal_strlit("7");
        reveal_strlit("8");
        reveal_strlit("9");
    }
    if d == 0 { "0" }
    else if d == 1 { "1" }
    else if d == 2 { "2" }
    else if d == 3 { "3" }
    else if d == 4 { "4" }
    else if d == 5 { "5" }
    else if d == 6 { "6" }
    else if d == 7 { "7" }
    else if d == 8 { "8" }
    else { "9" }
}

/// Format `n` as its decimal numeral.
pub fn u64_to_dec_string(n: u64) -> (s: String)
    ensures
        s@ == dec_string(n as int),
    decreases n,
{
    if n < 10 {
        String::from_str(digit_str(n))
    } else {
        assert(n / 10 < n);
        let mut s = u64_to_dec_string(n / 10);
        s.append(digit_str(n % 10));
        proof {
            assert(s@ =~= dec_string((n / 10) as int).push(digit_char((n % 10) as int)));
        }
        s
    }
}

/// Format `n` as its decimal numeral.
pub fn u32_to_dec_string(n: u32) -> (s: String)
    ensures
        s@ == dec_string(n as int),
{
    u64_to_dec_string(n as u64)
}

// ---------------------------------------------------------------------------
// Hexadecimal digits and MAC address text
// ---------------------------------------------------------------------------

/// `c` is an ASCII hexadecimal digit.
pub open spec fn is_hex_digit(c: char) -> bool {
    (48 <= c as int && c as int <= 57) || (65 <= c as int && c as int <= 70) || (97 <= c as int
        && c as int <= 102)
}

/// Numeric value of a hexadecimal digit.
pub open spec fn hex_val(c: char) -> int {
    if 48 <= c as int && c as int <= 57 {
        c as int - 48
    } else if 65 <= c as int && c as int <= 70 {
        c as int - 55
    } else {
        c as int - 87
    }
}

/// `c` is one of the separators accepted inside a MAC address.
pub open spec fn is_mac_separator(c: char) -> bool {
    c == ':' || c == '-'
}

/// Number of non-separator characters in `s`.
pub open spec fn non_separator_count(s: Seq<char>) -> int
    decreases s.len(),
{
    if s.len() == 0 {
        0
    } else {
        non_separator_count(s.drop_last()) + if is_mac_separator(s.last()) {
            0int
        } else {
            1int
        }
    }
}

/// Every non-separator character of `s` is a hexadecimal digit.
pub open spec fn non_separators_hex(s: Seq<char>) -> bool {
    forall|i: int|
        0 <= i < s.len() && !is_mac_separator(#[trigger] s[i]) ==> is_hex_digit(s[i])
}

/// `s` spells a MAC address: exactly 12 hexadecimal digits, with colon or
/// dash separators permitted anywhere.
pub open spec fn valid_mac_string(s: Seq<char>) -> bool {
    non_separator_count(s) == 12 && non_separators_hex(s)
}

/// Check whether `s` spells a MAC address.
pub fn is_valid_mac_string(s: &str) -> (r: bool)
    ensures
        r == valid_mac_string(s@),
{
    let n = s.unicode_len();
    let mut count: usize = 0;
    let mut i: usize = 0;
    while i < n
        invariant
            n == s@.len(),
            i <= n,
            count <= i,
            count as int == non_separator_count(s@.subrange(0, i as int)),
            non_separators_hex(s@.subrange(0, i as int)),
        decreases n - i,
    {
        let c = s.get_char(i);
        let code = c as u32;
        proof {
            assert(s@.subrange(0, i + 1).drop_last() =~= s@.subrange(0, i as int));
            assert(s@.subrange(0, i + 1).last() == s@[i as int]);
        }
        if c == ':' || c == '-' {
            // separator: skipped
        } else if (48 <= code && code <= 57) || (65 <= code && code <= 70) || (97 <= code && code
            <= 102) {
            count += 1;
        } else {
            proof {
                assert(!is_mac_separator(s@[i as int]) && !is_hex_digit(s@[i as int]));
            }
            return false;
        }
        i += 1;
    }
    proof {
        assert(s@.subrange(0, n as int) =~= s@);
    }
    count == 12
}

// ---------------------------------------------------------------------------
// Reserved name characters
// ---------------------------------------------------------------------------

/// `c` is one of the path-reserved characters that entity names must not
/// contain.
pub open spec fn is_reserved_name_char(c: char) -> bool {
    c == '\\' || c == '/' || c == ':' || c == '*' || c == '?' || c == '"' || c == '<' || c == '>'
        || c == '|'
}

/// Some character of `s` is path-reserved.
pub open spec fn has_reserved_name_char(s: Seq<char>) -> bool {
    exists|i: int| 0 <= i < s.len() && is_reserved_name_char(#[trigger] s[i])
}

/// Scan for path-reserved characters.
pub fn contains_reserved_name_char(s: &str) -> (r: bool)
    ensures
        r == has_reserved_name_char(s@),
{
    let n = s.unicode_len();
    let mut i: usize = 0;
    while i < n
        invariant
            n == s@.len(),
            i <= n,
            forall|k: int| 0 <= k < i ==> !is_reserved_name_char(#[trigger] s@[k]),
        decreases n - i,
    {
        let c = s.get_char(i);
        if c == '\\' || c == '/' || c == ':' || c == '*' || c == '?' || c == '"' || c == '<'
            || c == '>' || c == '|' {
            return true;
        }
        i += 1;
    }
    false
}

// ---------------------------------------------------------------------------
// ASCII case folding
// ---------------------------------------------------------------------------

/// `c` equals `l` up to ASCII case: either they are the same character, or
/// `c` is an ASCII upper-case letter whose lower-case form is `l`.
pub open spec fn folds_to(c: char, l: char) -> bool {
    c == l || (65 <= c as int && c as int <= 90 && c as int + 32 == l as int)
}

/// `s` ends with `suffix` when upper-case ASCII letters in `s` are folded to
/// lower case.  `suffix` is expected to be given already in lower case.
pub open spec fn ends_with_fold(s: Seq<char>, suffix: Seq<char>) -> bool {
    s.len() >= suffix.len()
        && forall|j: int| 0 <= j < suffix.len()
            ==> folds_to(s[s.len() - suffix.len() + j], #[trigger] suffix[j])
}

/// Case-folded suffix test: does `s`, lower-cased in its ASCII range, end
/// with `suffix`?
pub fn ends_with_ignore_ascii_case(s: &str, suffix: &str) -> (r: bool)
    ensures
        r == ends_with_fold(s@, suffix@),
{
    let n = s.unicode_len();
    let m = suffix.unicode_len();
    if m > n {
        return false;
    }
    let base = n - m;
    let mut j: usize = 0;
    while j < m
        invariant
            n == s@.len(),
            m == suffix@.len(),
            m <= n,
            base == n - m,
            j <= m,
            forall|t: int| 0 <= t < j ==> folds_to(s@[base + t], #[trigger] suffix@[t]),
        decreases m - j,
    {
        let c = s.get_char(base + j);
        let l = suffix.get_char(j);
        let cv = c as u32;
        let lv = l as u32;
        let ok = if c == l {
            true
        } else {
            65 <= cv && cv <= 90 && cv + 32 == lv
        };
        if !ok {
            return false;
        }
        j += 1;
    }
    true
}

} // verus!
