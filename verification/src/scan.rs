//! Character-level scanning primitives.
//!
//! The grammar is stated over `Seq<char>`. Every scanner here comes in two
//! forms: a spec function that says where a run ends or whether a literal
//! occurs, and an executable twin proved to return exactly that.

use vstd::prelude::*;

verus! {

// ---------------------------------------------------------------------------
// Character classes
// ---------------------------------------------------------------------------

pub open spec fn is_digit(c: char) -> bool {
    48 <= c as u32 && c as u32 <= 57
}

/// Numeric value of a decimal digit character.
pub open spec fn digit_val(c: char) -> int {
    c as u32 - 48
}

pub open spec fn is_space_char(c: char) -> bool {
    c == ' ' || c == '\t'
}

pub open spec fn is_alpha(c: char) -> bool {
    (65 <= c as u32 && c as u32 <= 90) || (97 <= c as u32 && c as u32 <= 122)
}

pub open spec fn is_hex_digit(c: char) -> bool {
    is_digit(c) || (65 <= c as u32 && c as u32 <= 70) || (97 <= c as u32 && c as u32 <= 102)
}

/// Characters accepted inside a vehicle name.
pub open spec fn is_name_char(c: char) -> bool {
    is_alpha(c) || is_digit(c) || c == ' ' || c == '#' || c == '&' || c == '\''
        || c == '(' || c == ')' || c == ',' || c == '-' || c == '.' || c == '/' || c == '_'
}

/// Characters accepted inside a modification name.
pub open spec fn is_mod_name_char(c: char) -> bool {
    is_alpha(c) || is_digit(c) || c == ' '
}

// ---------------------------------------------------------------------------
// Runs
// ---------------------------------------------------------------------------

/// First position at or after `i` holding no decimal digit.
pub open spec fn digits_end(s: Seq<char>, i: int) -> int
    decreases s.len() - i when 0 <= i <= s.len()
{
    if i < s.len() && is_digit(s[i]) {
        digits_end(s, i + 1)
    } else {
        i
    }
}

/// Value of the decimal digits `s[i..j)`, read most significant first.
pub open spec fn digits_value(s: Seq<char>, i: int, j: int) -> int
    decreases j - i when i <= j
{
    if i < j {
        digits_value(s, i, j - 1) * 10 + digit_val(s[j - 1])
    } else {
        0
    }
}

/// First position at or after `i` holding neither a space nor a tab.
pub open spec fn spaces_end(s: Seq<char>, i: int) -> int
    decreases s.len() - i when 0 <= i <= s.len()
{
    if i < s.len() && is_space_char(s[i]) {
        spaces_end(s, i + 1)
    } else {
        i
    }
}

pub open spec fn alpha_end(s: Seq<char>, i: int) -> int
    decreases s.len() - i when 0 <= i <= s.len()
{
    if i < s.len() && is_alpha(s[i]) {
        alpha_end(s, i + 1)
    } else {
        i
    }
}

pub open spec fn hex_end(s: Seq<char>, i: int) -> int
    decreases s.len() - i when 0 <= i <= s.len()
{
    if i < s.len() && is_hex_digit(s[i]) {
        hex_end(s, i + 1)
    } else {
        i
    }
}

pub open spec fn name_end(s: Seq<char>, i: int) -> int
    decreases s.len() - i when 0 <= i <= s.len()
{
    if i < s.len() && is_name_char(s[i]) {
        name_end(s, i + 1)
    } else {
        i
    }
}

pub open spec fn mod_name_end(s: Seq<char>, i: int) -> int
    decreases s.len() - i when 0 <= i <= s.len()
{
    if i < s.len() && is_mod_name_char(s[i]) {
        mod_name_end(s, i + 1)
    } else {
        i
    }
}

// ---------------------------------------------------------------------------
// Literals
// ---------------------------------------------------------------------------

/// The literal `lit` occurs in `s` starting at `i`.
pub open spec fn has_lit(s: Seq<char>, i: int, lit: Seq<char>) -> bool {
    0 <= i && i + lit.len() <= s.len() && s.subrange(i, i + lit.len()) =~= lit
}

/// Consume the literal `lit` at `i`: the position after it, or failure.
pub open spec fn spec_match_lit(s: Seq<char>, i: int, lit: Seq<char>) -> Option<int> {
    if has_lit(s, i, lit) {
        Some(i + lit.len())
    } else {
        None
    }
}

/// Position of the first occurrence of `lit` at or after `i`.
pub open spec fn find_lit(s: Seq<char>, i: int, lit: Seq<char>) -> Option<int>
    decreases s.len() - i when 0 <= i
{
    if i + lit.len() > s.len() {
        None
    } else if s.subrange(i, i + lit.len()) =~= lit {
        Some(i)
    } else {
        find_lit(s, i + 1, lit)
    }
}

/// A line terminator: `"\n"` or `"\r\n"`.
pub open spec fn spec_line_ending(s: Seq<char>, i: int) -> Option<int> {
    if 0 <= i && i < s.len() && s[i] == '\n' {
        Some(i + 1)
    } else if 0 <= i && i + 1 < s.len() && s[i] == '\r' && s[i + 1] == '\n' {
        Some(i + 2)
    } else {
        None
    }
}

// ---------------------------------------------------------------------------
// Numbers
// ---------------------------------------------------------------------------

/// An unsigned decimal number: one or more digits whose value fits in `u32`.
pub open spec fn spec_parse_u32(s: Seq<char>, i: int) -> Option<(u32, int)> {
    let j = digits_end(s, i);
    if j == i || digits_value(s, i, j) > u32::MAX {
        None
    } else {
        Some((digits_value(s, i, j) as u32, j))
    }
}

/// As `spec_parse_u32`, with the value bounded by `u8`.
pub open spec fn spec_parse_u8(s: Seq<char>, i: int) -> Option<(u8, int)> {
    let j = digits_end(s, i);
    if j == i || digits_value(s, i, j) > u8::MAX {
        None
    } else {
        Some((digits_value(s, i, j) as u8, j))
    }
}

pub proof fn lemma_digits_value_nonneg(s: Seq<char>, i: int, j: int)
    requires
        i <= j,
        forall|k: int| i <= k < j ==> is_digit(#[trigger] s[k]),
    ensures
        digits_value(s, i, j) >= 0,
    decreases j - i,
{
    if i < j {
        lemma_digits_value_nonneg(s, i, j - 1);
    }
}

// ---------------------------------------------------------------------------
// Executable twins
// ---------------------------------------------------------------------------

pub fn is_digit_exec(c: char) -> (r: bool)
    ensures
        r == is_digit(c),
{
    let u = c as u32;
    48 <= u && u <= 57
}

fn is_space_exec(c: char) -> (r: bool)
    ensures
        r == is_space_char(c),
{
    c == ' ' || c == '\t'
}

fn is_alpha_exec(c: char) -> (r: bool)
    ensures
        r == is_alpha(c),
{
    let u = c as u32;
    (65 <= u && u <= 90) || (97 <= u && u <= 122)
}

fn is_hex_exec(c: char) -> (r: bool)
    ensures
        r == is_hex_digit(c),
{
    let u = c as u32;
    (48 <= u && u <= 57) || (65 <= u && u <= 70) || (97 <= u && u <= 102)
}

pub fn is_name_char_exec(c: char) -> (r: bool)
    ensures
        r == is_name_char(c),
{
    is_alpha_exec(c) || is_digit_exec(c) || c == ' ' || c == '#' || c == '&' || c == '\''
        || c == '(' || c == ')' || c == ',' || c == '-' || c == '.' || c == '/' || c == '_'
}

fn is_mod_name_char_exec(c: char) -> (r: bool)
    ensures
        r == is_mod_name_char(c),
{
    is_alpha_exec(c) || is_digit_exec(c) || c == ' '
}

/// The characters of `s`, in order, as a vector.
pub fn chars_of(s: &str) -> (v: Vec<char>)
    ensures
        v@ == s@,
{
    let n = s.unicode_len();
    let mut v: Vec<char> = Vec::new();
    let mut k: usize = 0;
    while k < n
        invariant
            k <= n,
            n == s@.len(),
            v@ =~= s@.subrange(0, k as int),
        decreases n - k,
    {
        v.push(s.get_char(k));
        k += 1;
    }
    proof {
        assert(v@ =~= s@);
    }
    v
}

/// Relies on `String::from_iter` over `char`: collecting characters yields a
/// string holding exactly those characters in order.
#[verifier::external_body]
fn chars_to_string(v: &[char]) -> (r: String)
    ensures
        r@ == v@,
{
    v.iter().collect()
}

/// The characters `s[a..b)` as a `String`.
pub fn string_of_range(s: &[char], a: usize, b: usize) -> (r: String)
    requires
        a <= b <= s@.len(),
    ensures
        r@ == s@.subrange(a as int, b as int),
{
    let mut v: Vec<char> = Vec::new();
    let mut k = a;
    while k < b
        invariant
            a <= k <= b <= s@.len(),
            v@ =~= s@.subrange(a as int, k as int),
        decreases b - k,
    {
        v.push(s[k]);
        k += 1;
    }
    chars_to_string(v.as_slice())
}

pub fn digits_end_at(s: &[char], i: usize) -> (r: usize)
    requires
        i <= s@.len(),
    ensures
        r as int == digits_end(s@, i as int),
        i <= r <= s@.len(),
        forall|k: int| i <= k < r ==> is_digit(#[trigger] s@[k]),
{
    let n = s.len();
    let mut j = i;
    while j < n && is_digit_exec(s[j])
        invariant
            i <= j <= n,
            n == s@.len(),
            digits_end(s@, i as int) == digits_end(s@, j as int),
            forall|k: int| i <= k < j ==> is_digit(#[trigger] s@[k]),
        decreases n - j,
    {
        j += 1;
    }
    j
}

pub fn spaces_end_at(s: &[char], i: usize) -> (r: usize)
    requires
        i <= s@.len(),
    ensures
        r as int == spaces_end(s@, i as int),
        i <= r <= s@.len(),
{
    let n = s.len();
    let mut j = i;
    while j < n && is_space_exec(s[j])
        invariant
            i <= j <= n,
            n == s@.len(),
            spaces_end(s@, i as int) == spaces_end(s@, j as int),
        decreases n - j,
    {
        j += 1;
    }
    j
}

pub fn alpha_end_at(s: &[char], i: usize) -> (r: usize)
    requires
        i <= s@.len(),
    ensures
        r as int == alpha_end(s@, i as int),
        i <= r <= s@.len(),
{
    let n = s.len();
    let mut j = i;
    while j < n && is_alpha_exec(s[j])
        invariant
            i <= j <= n,
            n == s@.len(),
            alpha_end(s@, i as int) == alpha_end(s@, j as int),
        decreases n - j,
    {
        j += 1;
    }
    j
}

pub fn hex_end_at(s: &[char], i: usize) -> (r: usize)
    requires
        i <= s@.len(),
    ensures
        r as int == hex_end(s@, i as int),
        i <= r <= s@.len(),
{
    let n = s.len();
    let mut j = i;
    while j < n && is_hex_exec(s[j])
        invariant
            i <= j <= n,
            n == s@.len(),
            hex_end(s@, i as int) == hex_end(s@, j as int),
        decreases n - j,
    {
        j += 1;
    }
    j
}

pub fn name_end_at(s: &[char], i: usize) -> (r: usize)
    requires
        i <= s@.len(),
    ensures
        r as int == name_end(s@, i as int),
        i <= r <= s@.len(),
{
    let n = s.len();
    let mut j = i;
    while j < n && is_name_char_exec(s[j])
        invariant
            i <= j <= n,
            n == s@.len(),
            name_end(s@, i as int) == name_end(s@, j as int),
        decreases n - j,
    {
        j += 1;
    }
    j
}

pub fn mod_name_end_at(s: &[char], i: usize) -> (r: usize)
    requires
        i <= s@.len(),
    ensures
        r as int == mod_name_end(s@, i as int),
        i <= r <= s@.len(),
{
    let n = s.len();
    let mut j = i;
    while j < n && is_mod_name_char_exec(s[j])
        invariant
            i <= j <= n,
            n == s@.len(),
            mod_name_end(s@, i as int) == mod_name_end(s@, j as int),
        decreases n - j,
    {
        j += 1;
    }
    j
}

/// Consume `lit` at position `i`.
pub fn match_lit(s: &[char], i: usize, lit: &str) -> (r: Option<usize>)
    requires
        i <= s@.len(),
    ensures
        match r {
            Some(j) => spec_match_lit(s@, i as int, lit@) == Some(j as int) && i <= j <= s@.len(),
            None => spec_match_lit(s@, i as int, lit@) is None,
        },
{
    let n = s.len();
    let m = lit.unicode_len();
    if m > n - i {
        return None;
    }
    let mut k: usize = 0;
    while k < m
        invariant
            k <= m,
            i + m <= n,
            n == s@.len(),
            m == lit@.len(),
            forall|q: int| 0 <= q < k ==> s@[i + q] == lit@[q],
        decreases m - k,
    {
        if s[i + k] != lit.get_char(k) {
            proof {
                assert(s@.subrange(i as int, i + lit@.len())[k as int] == s@[i + k]);
                assert(!has_lit(s@, i as int, lit@));
            }
            return None;
        }
        k += 1;
    }
    proof {
        assert(s@.subrange(i as int, i + lit@.len()) =~= lit@);
    }
    Some(i + m)
}

/// First occurrence of `lit` at or after `i`.
pub fn find_lit_at(s: &[char], i: usize, lit: &str) -> (r: Option<usize>)
    requires
        i <= s@.len(),
    ensures
        match r {
            Some(p) => find_lit(s@, i as int, lit@) == Some(p as int) && i <= p
                && p + lit@.len() <= s@.len(),
            None => find_lit(s@, i as int, lit@) is None,
        },
{
    let n = s.len();
    let m = lit.unicode_len();
    let mut p = i;
    while m <= n - p
        invariant
            i <= p,
            p <= n,
            n == s@.len(),
            m == lit@.len(),
            find_lit(s@, i as int, lit@) == find_lit(s@, p as int, lit@),
        decreases n - p,
    {
        match match_lit(s, p, lit) {
            Some(_) => {
                return Some(p);
            },
            None => {
                proof {
                    assert(!(s@.subrange(p as int, p + lit@.len()) =~= lit@));
                }
            },
        }
        p += 1;
    }
    None
}

/// Core decimal scan: end of the digit run, its value, and an overflow flag.
fn scan_number(s: &[char], i: usize) -> (r: (usize, u64, bool))
    requires
        i <= s@.len(),
    ensures
        r.0 as int == digits_end(s@, i as int),
        i <= r.0 <= s@.len(),
        r.2 == (digits_value(s@, i as int, r.0 as int) > u32::MAX),
        !r.2 ==> r.1 == digits_value(s@, i as int, r.0 as int),
{
    let n = s.len();
    let mut j = i;
    let mut acc: u64 = 0;
    let mut over = false;
    while j < n && is_digit_exec(s[j])
        invariant
            i <= j <= n,
            n == s@.len(),
            digits_end(s@, i as int) == digits_end(s@, j as int),
            forall|k: int| i <= k < j ==> is_digit(#[trigger] s@[k]),
            over == (digits_value(s@, i as int, j as int) > u32::MAX),
            !over ==> acc == digits_value(s@, i as int, j as int),
            !over ==> acc <= u32::MAX,
        decreases n - j,
    {
        let d = (s[j] as u32 - 48) as u64;
        proof {
            lemma_digits_value_nonneg(s@, i as int, j as int);
            assert(digits_value(s@, i as int, j + 1) == digits_value(s@, i as int, j as int) * 10
                + digit_val(s@[j as int]));
        }
        if over {
            proof {
                let v = digits_value(s@, i as int, j as int);
                assert(v * 10 + digit_val(s@[j as int]) > u32::MAX) by {
                    assert(v * 10 >= v + 9 * v);
                };
            }
        } else {
            let next = acc * 10 + d;
            if next > u32::MAX as u64 {
                over = true;
            } else {
                acc = next;
            }
        }
        j += 1;
    }
    (j, acc, over)
}

pub fn parse_u32_at(s: &[char], i: usize) -> (r: Option<(u32, usize)>)
    requires
        i <= s@.len(),
    ensures
        match r {
            Some((v, j)) => spec_parse_u32(s@, i as int) == Some((v, j as int))
                && i < j <= s@.len(),
            None => spec_parse_u32(s@, i as int) is None,
        },
{
    let (j, val, over) = scan_number(s, i);
    if j == i || over {
        None
    } else {
        Some((val as u32, j))
    }
}

pub fn parse_u8_at(s: &[char], i: usize) -> (r: Option<(u8, usize)>)
    requires
        i <= s@.len(),
    ensures
        match r {
            Some((v, j)) => spec_parse_u8(s@, i as int) == Some((v, j as int))
                && i < j <= s@.len(),
            None => spec_parse_u8(s@, i as int) is None,
        },
{
    let (j, val, over) = scan_number(s, i);
    if j == i || over || val > u8::MAX as u64 {
        None
    } else {
        Some((val as u8, j))
    }
}

/// Consume a line terminator at `i`.
pub fn line_ending_at(s: &[char], i: usize) -> (r: Option<usize>)
    requires
        i <= s@.len(),
    ensures
        match r {
            Some(j) => spec_line_ending(s@, i as int) == Some(j as int) && i < j <= s@.len(),
            None => spec_line_ending(s@, i as int) is None,
        },
{
    let n = s.len();
    if i < n && s[i] == '\n' {
        Some(i + 1)
    } else if i < n && s[i] == '\r' && i + 1 < n && s[i + 1] == '\n' {
        Some(i + 2)
    } else {
        None
    }
}

} // verus!
