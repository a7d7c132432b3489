use vstd::prelude::*;

use vstd::string::{StrSliceExecFns, StringExecFns};

use crate::PlannerError;

verus! {

/// Whether a character is a decimal digit.
pub open spec fn is_digit(c: char) -> bool {
    48 <= c as int <= 57
}

/// The value of a digit character.
pub open spec fn digit_val(c: char) -> int {
    c as int - 48
}

/// Whether the pattern occurs in the text at a position.
pub open spec fn pattern_at(s: Seq<char>, pat: Seq<char>, i: nat) -> bool {
    i + pat.len() <= s.len() && s.subrange(i as int, i as int + pat.len() as int) == pat
}

/// The first position at or after `from` where the pattern occurs.
pub open spec fn find_pattern(s: Seq<char>, pat: Seq<char>, from: nat) -> Option<nat>
    decreases s.len() - from,
    via find_pattern_decreases
{
    if from + pat.len() > s.len() {
        None
    } else if pattern_at(s, pat, from) {
        Some(from)
    } else {
        find_pattern(s, pat, from + 1)
    }
}

#[via_fn]
proof fn find_pattern_decreases(s: Seq<char>, pat: Seq<char>, from: nat) {
    if pat.len() == 0 && from <= s.len() {
        assert(s.subrange(from as int, from as int) =~= pat);
    }
}

/// The marker that introduces a named field's value in the flat screen
/// markup.
pub open spec fn field_marker(name: Seq<char>) -> Seq<char> {
    "<name>"@ + name + "</name><value>"@
}

/// The number of consecutive digit characters at a position.
pub open spec fn digits_run(s: Seq<char>, p: nat) -> nat
    decreases s.len() - p,
{
    if p < s.len() && is_digit(s[p as int]) {
        1 + digits_run(s, p + 1)
    } else {
        0
    }
}

/// The value of the `k` digit characters starting at a position.
pub open spec fn digits_value(s: Seq<char>, p: nat, k: nat) -> int
    decreases k,
{
    if k == 0 {
        0
    } else {
        digits_value(s, p, (k - 1) as nat) * 10 + digit_val(s[p as int + k as int - 1])
    }
}

/// Powers of ten.
pub open spec fn pow10(k: nat) -> int
    decreases k,
{
    if k == 0 {
        1
    } else {
        10 * pow10((k - 1) as nat)
    }
}

/// The numeric reading, in tenths, written at a position of the markup: the
/// sentinel `---` reads as zero; otherwise an optional minus sign, up to nine
/// integer digits, and an optional fraction of which the first digit counts;
/// whatever follows (a unit suffix, the closing tag) is ignored. Nothing
/// readable means a malformed screen.
pub open spec fn parse_reading(s: Seq<char>, p: nat) -> Option<int> {
    if p + 3 <= s.len() && s.subrange(p as int, p as int + 3) == seq!['-', '-', '-'] {
        Some(0)
    } else {
        let q: nat = if p < s.len() && s[p as int] == '-' {
            p + 1
        } else {
            p
        };
        let sign: int = if q == p {
            1
        } else {
            -1
        };
        let k = digits_run(s, q);
        if k == 0 || k > 9 {
            None
        } else {
            let whole = digits_value(s, q, k);
            let after = q + k;
            let tenth: int = if after + 1 < s.len() && s[after as int] == '.' && is_digit(
                s[after as int + 1],
            ) {
                digit_val(s[after as int + 1])
            } else {
                0
            };
            Some(sign * (whole * 10 + tenth))
        }
    }
}

/// Whether the named field occurs in a screen's markup.
pub open spec fn field_present(text: Seq<char>, name: Seq<char>) -> bool {
    find_pattern(text, field_marker(name), 0) is Some
}

/// The reading of the named field's first occurrence, in tenths.
pub open spec fn reading_of(text: Seq<char>, name: Seq<char>) -> Option<int> {
    parse_reading(
        text,
        find_pattern(text, field_marker(name), 0)->Some_0 + field_marker(name).len(),
    )
}

/// Whether the pattern occurs in the text at a position, checked character by
/// character.
pub(crate) fn matches_at(s: &str, pat: &str, i: usize) -> (r: bool)
    ensures
        r == pattern_at(s@, pat@, i as nat),
{
    let n: usize = s.unicode_len();
    let m = pat.unicode_len();
    if m > n || i > n - m {
        return false;
    }
    let mut j: usize = 0;
    while j < m
        invariant
            0 <= j <= m,
            n == s@.len(),
            m == pat@.len(),
            i + m <= n,
            forall|jj: int| 0 <= jj < j ==> s@[i + jj] == pat@[jj],
        decreases m - j,
    {
        if s.get_char(i + j) != pat.get_char(j) {
            proof {
                let sub = s@.subrange(i as int, i as int + pat@.len() as int);
                assert(sub[j as int] != pat@[j as int]);
            }
            return false;
        }
        j = j + 1;
    }
    proof {
        assert(s@.subrange(i as int, i as int + pat@.len() as int) =~= pat@);
    }
    true
}

/// Finds the first occurrence of a pattern at or after a position.
fn find_pattern_at(s: &str, pat: &str, from: usize) -> (r: Option<usize>)
    requires
        from <= s@.len(),
    ensures
        (match r {
            Some(i) => find_pattern(s@, pat@, from as nat) == Some(i as nat) && i + pat@.len()
                <= s@.len(),
            None => find_pattern(s@, pat@, from as nat) is None,
        }),
{
    let n = s.unicode_len();
    let m = pat.unicode_len();
    if m == 0 {
        proof {
            assert(s@.subrange(from as int, from as int) =~= pat@);
        }
        return Some(from);
    }
    if m > n || from > n - m {
        return None;
    }
    let mut i = from;
    while i <= n - m
        invariant
            from <= i <= n - m + 1,
            1 <= m <= n,
            n == s@.len(),
            m == pat@.len(),
            find_pattern(s@, pat@, from as nat) == find_pattern(s@, pat@, i as nat),
        decreases n - i,
    {
        if matches_at(s, pat, i) {
            return Some(i);
        }
        i = i + 1;
    }
    None
}

/// A digit run fits in the remaining text.
proof fn lemma_digits_run_le(s: Seq<char>, p: nat)
    requires
        p <= s.len(),
    ensures
        digits_run(s, p) <= s.len() - p,
    decreases s.len() - p,
{
    if p < s.len() && is_digit(s[p as int]) {
        lemma_digits_run_le(s, p + 1);
    }
}

/// Every position inside a digit run holds a digit.
proof fn lemma_digits_run_digit_at(s: Seq<char>, p: nat, j: int)
    requires
        p <= j < p + digits_run(s, p),
    ensures
        j < s.len() && is_digit(s[j]),
    decreases j - p,
{
    if j > p {
        lemma_digits_run_digit_at(s, p + 1, j);
    }
}

/// The value of a digit run prefix is non-negative and below ten to its
/// length.
proof fn lemma_digits_value_bound(s: Seq<char>, p: nat, k: nat)
    requires
        k <= digits_run(s, p),
    ensures
        0 <= digits_value(s, p, k) < pow10(k),
    decreases k,
{
    if k > 0 {
        lemma_digits_value_bound(s, p, (k - 1) as nat);
        lemma_digits_run_digit_at(s, p, p as int + k as int - 1);
    }
}

/// Counts the consecutive digit characters at a position.
fn digits_run_at(s: &str, p: usize) -> (r: usize)
    requires
        p <= s@.len(),
    ensures
        r == digits_run(s@, p as nat),
    decreases s@.len() - p,
{
    proof {
        lemma_digits_run_le(s@, p as nat);
    }
    if p < s.unicode_len() {
        let c = s.get_char(p) as u32;
        if c >= 48 && c <= 57 {
            let rest = digits_run_at(s, p + 1);
            return rest + 1;
        }
    }
    0
}

/// Reads the value of `k` digit characters starting at a position.
fn digits_value_at(s: &str, p: usize, k: usize) -> (r: i64)
    requires
        p <= s@.len(),
        k <= 9,
        k <= digits_run(s@, p as nat),
    ensures
        r == digits_value(s@, p as nat, k as nat),
        0 <= r <= 999_999_999,
{
    proof {
        lemma_digits_run_le(s@, p as nat);
    }
    let n: usize = s.unicode_len();
    let mut j: usize = 0;
    let mut value: i64 = 0;
    while j < k
        invariant
            0 <= j <= k,
            k <= 9,
            n == s@.len(),
            k <= digits_run(s@, p as nat),
            p + k <= n,
            value == digits_value(s@, p as nat, j as nat),
            0 <= value < pow10(j as nat),
        decreases k - j,
    {
        proof {
            lemma_digits_run_digit_at(s@, p as nat, p as int + j);
            lemma_pow10_increases(j as nat, 8);
            assert(pow10(8) == 100_000_000) by {
                reveal_with_fuel(pow10, 9);
            }
        }
        let d = (s.get_char(p + j) as u32) as i64 - 48;
        value = value * 10 + d;
        j = j + 1;
    }
    proof {
        lemma_pow10_increases(k as nat, 9);
        assert(pow10(9) == 1_000_000_000) by {
            reveal_with_fuel(pow10, 10);
        }
    }
    value
}

/// Powers of ten do not shrink as the exponent grows.
proof fn lemma_pow10_increases(a: nat, b: nat)
    requires
        a <= b,
    ensures
        pow10(a) <= pow10(b),
    decreases b,
{
    if a < b {
        lemma_pow10_increases(a, (b - 1) as nat);
        assert(pow10((b - 1) as nat) >= 1) by {
            lemma_pow10_positive((b - 1) as nat);
        }
    }
}

/// Powers of ten are at least one.
proof fn lemma_pow10_positive(k: nat)
    ensures
        pow10(k) >= 1,
    decreases k,
{
    if k > 0 {
        lemma_pow10_positive((k - 1) as nat);
    }
}

/// Whether the sentinel `---` stands at a position.
fn sentinel_at(s: &str, p: usize) -> (r: bool)
    requires
        p <= s@.len(),
    ensures
        r == (p + 3 <= s@.len() && s@.subrange(p as int, p as int + 3) == seq!['-', '-', '-']),
{
    let n = s.unicode_len();
    if n < 3 || p > n - 3 {
        return false;
    }
    let c0 = s.get_char(p);
    let c1 = s.get_char(p + 1);
    let c2 = s.get_char(p + 2);
    if c0 == '-' && c1 == '-' && c2 == '-' {
        proof {
            assert(s@.subrange(p as int, p as int + 3) =~= seq!['-', '-', '-']);
        }
        true
    } else {
        proof {
            let sub = s@.subrange(p as int, p as int + 3);
            assert(sub[0] == c0 && sub[1] == c1 && sub[2] == c2);
        }
        false
    }
}

/// Extracts the numeric reading of a named field from a screen's flat
/// markup, in tenths of the displayed unit. The sentinel `---` reads as zero;
/// a missing field is an error, never a zero; a field whose value cannot be
/// read is a protocol violation.
pub fn read_value(item_name: &str, response: &str) -> (r: Result<i64, PlannerError>)
    ensures
        (match r {
            Ok(v) => field_present(response@, item_name@) && reading_of(response@, item_name@)
                == Some(v as int),
            Err(e) => (match e {
                PlannerError::FieldNotFound(n) => !field_present(response@, item_name@) && n@
                    == item_name@,
                PlannerError::ProtocolViolation => field_present(response@, item_name@)
                    && reading_of(response@, item_name@) is None,
                _ => false,
            }),
        }),
{
    let mut pat = String::from_str("<name>");
    pat.append(item_name);
    pat.append("</name><value>");
    proof {
        assert(pat@ =~= field_marker(item_name@));
    }
    let found = find_pattern_at(response, pat.as_str(), 0);
    let pos = match found {
        None => {
            return Err(PlannerError::FieldNotFound(String::from_str(item_name)));
        },
        Some(i) => i,
    };
    let n = response.unicode_len();
    let p = pos + pat.as_str().unicode_len();
    if sentinel_at(response, p) {
        return Ok(0);
    }
    let first_is_minus = p < n && response.get_char(p) == '-';
    let q = if first_is_minus {
        p + 1
    } else {
        p
    };
    let k = digits_run_at(response, q);
    if k == 0 || k > 9 {
        return Err(PlannerError::ProtocolViolation);
    }
    proof {
        lemma_digits_run_le(response@, q as nat);
    }
    let whole = digits_value_at(response, q, k);
    let after = q + k;
    let mut tenth: i64 = 0;
    if after < n && response.get_char(after) == '.' && after + 1 < n {
        let c = response.get_char(after + 1) as u32;
        if c >= 48 && c <= 57 {
            tenth = (c as i64) - 48;
        }
    }
    let magnitude = whole * 10 + tenth;
    let v = if first_is_minus {
        -magnitude
    } else {
        magnitude
    };
    proof {
        let text = response@;
        let name = item_name@;
        assert(pat@ == field_marker(name));
        assert(find_pattern(text, field_marker(name), 0) == Some(pos as nat));
        assert(field_present(text, name));
        assert(p as nat == pos as nat + field_marker(name).len());
        let sq: nat = if (p as nat) < text.len() && text[p as int] == '-' {
            p as nat + 1
        } else {
            p as nat
        };
        assert(sq == q as nat);
        assert(digits_run(text, sq) == k);
        assert(whole == digits_value(text, sq, k as nat));
        let safter = sq + k as nat;
        assert(safter == after as nat);
        let stenth: int = if safter + 1 < text.len() && text[safter as int] == '.' && is_digit(
            text[safter as int + 1],
        ) {
            digit_val(text[safter as int + 1])
        } else {
            0
        };
        assert(stenth == tenth as int);
        assert(!((p as nat) + 3 <= text.len() && text.subrange(p as int, p as int + 3) == seq![
            '-',
            '-',
            '-',
        ]));
        assert(!(digits_run(text, sq) == 0 || digits_run(text, sq) > 9));
        let ssign: int = if sq == p as nat {
            1
        } else {
            -1
        };
        let sval = digits_value(text, sq, digits_run(text, sq)) * 10 + stenth;
        assert(digits_value(text, sq, digits_run(text, sq)) == whole as int);
        assert(sval == (whole as int) * 10 + tenth as int);
        assert(sval == magnitude as int);
        if first_is_minus {
            assert(ssign == -1);
            assert(v as int == -(magnitude as int));
            assert(-(magnitude as int) == -1 * sval);
            assert(v as int == -1 * sval);
        } else {
            assert(ssign == 1);
            assert(v as int == 1 * sval);
        }
        assert(v as int == ssign * sval);
        assert(parse_reading(text, p as nat) == Some(v as int));
        assert(reading_of(text, name) == Some(v as int));
    }
    Ok(v)
}

} // verus!
