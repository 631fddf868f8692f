//! Character-level helpers shared by the formatting and projection logic:
//! zero-padded decimal rendering of small integers, and the syntax of plain
//! decimal number text.

use vstd::prelude::*;
use vstd::string::StrSliceExecFns;
use vstd::string::StringExecFns;

verus! {

/// The digit character for a value below ten.
pub open spec fn digit_char(d: int) -> char {
    if d == 0 {
        '0'
    } else if d == 1 {
        '1'
    } else if d == 2 {
        '2'
    } else if d == 3 {
        '3'
    } else if d == 4 {
        '4'
    } else if d == 5 {
        '5'
    } else if d == 6 {
        '6'
    } else if d == 7 {
        '7'
    } else if d == 8 {
        '8'
    } else {
        '9'
    }
}

/// Two-character, zero-padded text of a value below one hundred.
pub open spec fn two_digit_text(n: int) -> Seq<char> {
    seq![digit_char(n / 10), digit_char(n % 10)]
}

/// Four-character, zero-padded text of a value below ten thousand.
pub open spec fn four_digit_text(n: int) -> Seq<char> {
    seq![
        digit_char(n / 1000),
        digit_char((n / 100) % 10),
        digit_char((n / 10) % 10),
        digit_char(n % 10),
    ]
}

/// Appends the digit character for `d` to `s`.
pub fn push_digit(s: &mut String, d: u8)
    requires
        d < 10,
    ensures
        final(s)@ == old(s)@ + seq![digit_char(d as int)],
{
    if d == 0 {
        s.append("0");
        proof {
            reveal_strlit("0");
            assert(old(s)@ + "0"@ =~= old(s)@ + seq![digit_char(d as int)]);
        }
    } else if d == 1 {
        s.append("1");
        proof {
            reveal_strlit("1");
            assert(old(s)@ + "1"@ =~= old(s)@ + seq![digit_char(d as int)]);
        }
    } else if d == 2 {
        s.append("2");
        proof {
            reveal_strlit("2");
            assert(old(s)@ + "2"@ =~= old(s)@ + seq![digit_char(d as int)]);
        }
    } else if d == 3 {
        s.append("3");
        proof {
            reveal_strlit("3");
            assert(old(s)@ + "3"@ =~= old(s)@ + seq![digit_char(d as int)]);
        }
    } else if d == 4 {
        s.append("4");
        proof {
            reveal_strlit("4");
            assert(old(s)@ + "4"@ =~= old(s)@ + seq![digit_char(d as int)]);
        }
    } else if d == 5 {
        s.append("5");
        proof {
            reveal_strlit("5");
            assert(old(s)@ + "5"@ =~= old(s)@ + seq![digit_char(d as int)]);
        }
    } else if d == 6 {
        s.append("6");
        proof {
            reveal_strlit("6");
            assert(old(s)@ + "6"@ =~= old(s)@ + seq![digit_char(d as int)]);
        }
    } else if d == 7 {
        s.append("7");
        proof {
            reveal_strlit("7");
            assert(old(s)@ + "7"@ =~= old(s)@ + seq![digit_char(d as int)]);
        }
    } else if d == 8 {
        s.append("8");
        proof {
            reveal_strlit("8");
            assert(old(s)@ + "8"@ =~= old(s)@ + seq![digit_char(d as int)]);
        }
    } else {
        s.append("9");
        proof {
            reveal_strlit("9");
            assert(old(s)@ + "9"@ =~= old(s)@ + seq![digit_char(d as int)]);
        }
    }
}

/// Appends the two-digit, zero-padded text of `n` to `s`.
pub fn push_two_digits(s: &mut String, n: u8)
    requires
        n < 100,
    ensures
        final(s)@ == old(s)@ + two_digit_text(n as int),
{
    push_digit(s, n / 10);
    push_digit(s, n % 10);
    proof {
        assert(final(s)@ =~= old(s)@ + two_digit_text(n as int));
    }
}

/// Appends the four-digit, zero-padded text of `n` to `s`.
pub fn push_four_digits(s: &mut String, n: u16)
    requires
        n < 10000,
    ensures
        final(s)@ == old(s)@ + four_digit_text(n as int),
{
    push_digit(s, (n / 1000) as u8);
    push_digit(s, ((n / 100) % 10) as u8);
    push_digit(s, ((n / 10) % 10) as u8);
    push_digit(s, (n % 10) as u8);
    proof {
        assert(final(s)@ =~= old(s)@ + four_digit_text(n as int));
    }
}

/// Whether `c` is a decimal digit character.
pub open spec fn is_digit_char(c: char) -> bool {
    '0' <= c && c <= '9'
}

/// Whether every character of `s` in the index range `[from, to)` is a digit.
pub open spec fn all_digits_range(s: Seq<char>, from: int, to: int) -> bool {
    forall|i: int| from <= i < to ==> is_digit_char(s[i])
}

/// Whether the characters of `s` from index `b` onward form unsigned decimal
/// number text: at least one digit, with at most one point that has digits on
/// both sides.
pub open spec fn is_number_from(s: Seq<char>, b: int) -> bool {
    b < s.len() && (all_digits_range(s, b, s.len() as int) || (exists|p: int|
        b + 1 <= p < s.len() - 1 && s[p] == '.' && #[trigger] all_digits_range(s, b, p)
            && all_digits_range(s, p + 1, s.len() as int)))
}

/// Whether `s` is plain decimal number text: an optional leading minus sign,
/// then digits, optionally split by a single point with digits on both sides.
pub open spec fn is_decimal(s: Seq<char>) -> bool {
    if s.len() > 0 && s[0] == '-' {
        is_number_from(s, 1)
    } else {
        is_number_from(s, 0)
    }
}

/// The least index at or after `from` holding a non-digit character, or the
/// text's length when digits run to the end.
fn first_non_digit(s: &str, from: usize, n: usize) -> (q: usize)
    requires
        n == s@.len(),
        from <= n,
    ensures
        from <= q <= n,
        all_digits_range(s@, from as int, q as int),
        q < n ==> !is_digit_char(s@[q as int]),
{
    let mut q: usize = from;
    while q < n
        invariant
            from <= q <= n,
            n == s@.len(),
            all_digits_range(s@, from as int, q as int),
        decreases n - q,
    {
        let c = s.get_char(q);
        if !('0' <= c && c <= '9') {
            return q;
        }
        q = q + 1;
    }
    q
}

/// Decides whether `s` is plain decimal number text.
pub fn check_decimal(s: &str) -> (r: bool)
    ensures
        r == is_decimal(s@),
{
    let n = s.unicode_len();
    if n == 0 {
        return false;
    }
    let first = s.get_char(0);
    let b: usize = if first == '-' {
        1
    } else {
        0
    };
    if b >= n {
        return false;
    }
    let q = first_non_digit(s, b, n);
    if q == n {
        // Digits run from the first position to the end.
        return true;
    }
    if q == b {
        // The first position after any sign holds no digit.
        proof {
            lemma_no_digit_at_start(s@, b as int);
        }
        return false;
    }
    let c = s.get_char(q);
    if c != '.' {
        proof {
            lemma_stray_character(s@, b as int, q as int);
        }
        return false;
    }
    let q2 = first_non_digit(s, q + 1, n);
    if q2 == n && q2 > q + 1 {
        proof {
            assert(all_digits_range(s@, b as int, q as int));
            assert(is_number_from(s@, b as int));
        }
        return true;
    }
    proof {
        lemma_point_fails(s@, b as int, q as int, q2 as int);
    }
    false
}

/// Number text must open with a digit right after any sign.
proof fn lemma_no_digit_at_start(s: Seq<char>, b: int)
    requires
        0 <= b < s.len(),
        !is_digit_char(s[b]),
    ensures
        !is_number_from(s, b),
{
    if is_number_from(s, b) {
        if all_digits_range(s, b, s.len() as int) {
            assert(is_digit_char(s[b]));
        } else {
            let p = choose|p: int|
                b + 1 <= p < s.len() - 1 && s[p] == '.' && #[trigger] all_digits_range(s, b, p)
                    && all_digits_range(s, p + 1, s.len() as int);
            assert(is_digit_char(s[b]));
        }
    }
}

/// With the digit run from `b` ending at `q`, and `s[q]` neither a digit nor
/// a point, no point position can witness number text from `b`.
proof fn lemma_stray_character(s: Seq<char>, b: int, q: int)
    requires
        0 <= b < q < s.len(),
        all_digits_range(s, b, q),
        !is_digit_char(s[q]),
        s[q] != '.',
    ensures
        !is_number_from(s, b),
{
    if is_number_from(s, b) {
        if all_digits_range(s, b, s.len() as int) {
            assert(is_digit_char(s[q]));
        } else {
            let p = choose|p: int|
                b + 1 <= p < s.len() - 1 && s[p] == '.' && #[trigger] all_digits_range(s, b, p)
                    && all_digits_range(s, p + 1, s.len() as int);
            if p < q {
                assert(is_digit_char(s[p]));
            } else if p == q {
                assert(s[q] == '.');
            } else {
                assert(is_digit_char(s[q]));
            }
        }
    }
}

/// With the digit run from `b` ending at a point at `q`, and the digit run
/// after the point either empty or ending short of the end, no point
/// position can witness number text from `b`.
proof fn lemma_point_fails(s: Seq<char>, b: int, q: int, q2: int)
    requires
        0 <= b < q < s.len(),
        all_digits_range(s, b, q),
        !is_digit_char(s[q]),
        s[q] == '.',
        q + 1 <= q2 <= s.len(),
        all_digits_range(s, q + 1, q2),
        q2 < s.len() ==> !is_digit_char(s[q2]),
        q2 < s.len() || q2 == q + 1,
    ensures
        !is_number_from(s, b),
{
    if is_number_from(s, b) {
        if all_digits_range(s, b, s.len() as int) {
            assert(is_digit_char(s[q]));
        } else {
            let p = choose|p: int|
                b + 1 <= p < s.len() - 1 && s[p] == '.' && #[trigger] all_digits_range(s, b, p)
                    && all_digits_range(s, p + 1, s.len() as int);
            if p < q {
                assert(is_digit_char(s[p]));
            } else if p > q {
                assert(is_digit_char(s[q]));
            } else {
                // p == q: the witness needs a digit at q + 1 and digits up to
                // the end, while the run after the point stops at q2.
                if q2 < s.len() {
                    assert(is_digit_char(s[q2]));
                } else {
                    assert(q + 1 < s.len());
                    assert(is_digit_char(s[q + 1]));
                }
            }
        }
    }
}

} // verus!
