//! A conservative range guard for timestamp specifications. The evaluator's
//! own span arithmetic is checked, but the final datetime addition is not:
//! a specification whose parsed base time or summed offset comes near the
//! representable datetime range (about 262,000 years either side of the
//! epoch) makes that addition abort. The guard bounds, over the
//! whitespace-stripped input, every number the evaluator could feed into that
//! addition: the summed offset (each digit run times the largest unit
//! multiplier its following letters could name), the fractional-seconds
//! component, and every other plain number (which bounds the parsed year).
//! The caps leave the worst admissible sum far inside the representable
//! range. The price is that some extreme inputs the evaluator could itself
//! handle are refused too: years above 100,000 (its own bound is 262,142),
//! fractional-second components beyond about twelve days, and summed offsets
//! beyond about 126,000 years.

use vstd::prelude::*;

verus! {

/// Cap on the summed offset, in microseconds (about 126,000 years).
pub const OFFSET_TOTAL_CAP: u128 = 4_000_000_000_000_000_000;

/// Cap on a fractional-seconds component, in microseconds (about 12 days).
pub const FRACTION_CAP: u128 = 1_000_000_000_000;

/// Cap on any other plain number; in particular it bounds the parsed year.
pub const PLAIN_NUMBER_CAP: u128 = 100_000;

/// Numbers above this cannot be read into a 64-bit value anywhere in the
/// evaluator, so they end in a parse error before any arithmetic.
pub const SIGNED_64_LIMIT: u128 = 9_223_372_036_854_775_808;

/// The Unicode white-space property of the character, as the evaluator's
/// whitespace stripping sees it.
pub uninterp spec fn is_unicode_space(c: char) -> bool;

/// Relies on char::is_whitespace: the Unicode White_Space property, a
/// function of the character alone.
#[verifier::external_body]
fn char_is_space(c: char) -> (r: bool)
    ensures
        r == is_unicode_space(c),
{
    c.is_whitespace()
}

/// The input with every white-space character removed, as the evaluator
/// rewrites it before looking for offsets.
pub open spec fn strip_spaces(s: Seq<char>) -> Seq<char>
    decreases s.len(),
{
    if s.len() == 0 {
        Seq::<char>::empty()
    } else if is_unicode_space(s[0]) {
        strip_spaces(s.skip(1))
    } else {
        seq![s[0]] + strip_spaces(s.skip(1))
    }
}

/// An ASCII decimal digit, the only characters the evaluator gathers into
/// numbers.
pub open spec fn is_digit_char(c: char) -> bool {
    48 <= (c as u32) && (c as u32) <= 57
}

/// The numeric value of an ASCII digit.
pub open spec fn digit_val(c: char) -> nat {
    ((c as u32) - 48) as nat
}

/// The first position at or after `i` that does not hold a digit.
pub open spec fn run_end(t: Seq<char>, i: int) -> int
    decreases t.len() - i,
{
    if i < 0 || i >= t.len() || !is_digit_char(t[i]) {
        i
    } else {
        run_end(t, i + 1)
    }
}

/// The decimal value of the digits `t[i..j]`.
pub open spec fn run_value(t: Seq<char>, i: int, j: int) -> nat
    decreases j - i,
{
    if i >= j {
        0
    } else {
        run_value(t, i, j - 1) * 10 + digit_val(t[j - 1])
    }
}

/// The largest microsecond multiplier that a time unit starting at `t[j]`
/// could carry; zero where no unit starts with that character, in which case
/// the evaluator rejects the pair before any arithmetic. The letter after an
/// `m` separates the month units from the minute and millisecond family; the
/// code point 181 is the micro sign.
pub open spec fn head_mult(t: Seq<char>, j: int) -> nat {
    if j < 0 || j >= t.len() {
        0
    } else if t[j] == 'u' || (t[j] as u32) == 181 {
        1
    } else if t[j] == 's' {
        1_000_000
    } else if t[j] == 'm' {
        if j + 1 < t.len() && t[j + 1] == 'o' {
            2_629_800_000_000
        } else {
            60_000_000
        }
    } else if t[j] == 'h' {
        3_600_000_000
    } else if t[j] == 'd' {
        86_400_000_000
    } else if t[j] == 'w' {
        604_800_000_000
    } else if t[j] == 'M' {
        2_629_800_000_000
    } else if t[j] == 'y' {
        31_557_600_000_000
    } else {
        0
    }
}

/// Whether the digit run starting at `i` sits where the evaluator reads a
/// fractional-seconds component: right after a dot, or after the sign of a
/// negative fraction.
pub open spec fn fraction_run(t: Seq<char>, i: int) -> bool {
    ||| (i - 1 >= 0 && t[i - 1] == '.')
    ||| (i - 2 >= 0 && t[i - 1] == '-' && t[i - 2] == '.')
}

/// Scans the stripped input from position `i` with `total` microseconds of
/// offset already accumulated, and holds every number to its cap. A run whose
/// value cannot be read into a 64-bit value is skipped: the evaluator rejects
/// it with a parse error wherever it stands.
pub open spec fn scan_ok(t: Seq<char>, i: int, total: int) -> bool
    decreases t.len() - i,
{
    if i < 0 || i >= t.len() {
        true
    } else if !is_digit_char(t[i]) {
        scan_ok(t, i + 1, total)
    } else {
        let j = run_end(t, i);
        let jj = if i + 1 <= j && j <= t.len() {
            j
        } else {
            i + 1
        };
        let v = run_value(t, i, jj);
        if v > SIGNED_64_LIMIT {
            scan_ok(t, jj, total)
        } else if head_mult(t, jj) > 0 {
            &&& total + v * head_mult(t, jj) <= OFFSET_TOTAL_CAP
            &&& scan_ok(t, jj, total + v * head_mult(t, jj))
        } else if fraction_run(t, i) {
            v <= FRACTION_CAP && scan_ok(t, jj, total)
        } else {
            v <= PLAIN_NUMBER_CAP && scan_ok(t, jj, total)
        }
    }
}

/// Every number in the specification is within its cap, so the evaluator's
/// datetime arithmetic stays far inside the representable range.
pub open spec fn eval_in_range(s: Seq<char>) -> bool {
    scan_ok(strip_spaces(s), 0, 0)
}

/// `run_end` returns the position just past the maximal digit run.
proof fn lemma_run_end_agrees(t: Seq<char>, i: int, j: int)
    requires
        0 <= i <= j <= t.len(),
        forall|k: int| i <= k < j ==> is_digit_char(t[k]),
        j == t.len() || !is_digit_char(t[j]),
    ensures
        run_end(t, i) == j,
    decreases j - i,
{
    if i < j {
        lemma_run_end_agrees(t, i + 1, j);
    }
}

/// Builds the whitespace-stripped copy of the input.
fn strip_input(input: &str) -> (t: Vec<char>)
    ensures
        t@ == strip_spaces(input@),
{
    let n = input.unicode_len();
    let mut t: Vec<char> = Vec::new();
    let mut i: usize = 0;
    proof {
        assert(input@.skip(0) =~= input@);
        assert(t@ + strip_spaces(input@) =~= strip_spaces(input@));
    }
    while i < n
        invariant
            i <= n,
            n == input@.len(),
            strip_spaces(input@) == t@ + strip_spaces(input@.skip(i as int)),
        decreases n - i,
    {
        let c = input.get_char(i);
        proof {
            assert(input@.skip(i as int)[0] == input@[i as int]);
            assert(input@.skip(i as int).skip(1) =~= input@.skip(i as int + 1));
        }
        if !char_is_space(c) {
            let ghost t_before = t@;
            t.push(c);
            proof {
                assert(t@ =~= t_before + seq![c]);
                assert(t@ + strip_spaces(input@.skip(i as int + 1)) =~= t_before + (seq![c]
                    + strip_spaces(input@.skip(i as int + 1))));
            }
        }
        i += 1;
    }
    proof {
        assert(input@.skip(n as int) =~= Seq::<char>::empty());
        assert(t@ + strip_spaces(input@.skip(n as int)) =~= t@);
    }
    t
}

/// Whether the character is an ASCII decimal digit.
fn digit_test(c: char) -> (r: bool)
    ensures
        r == is_digit_char(c),
{
    let u: u32 = c as u32;
    u >= 48 && u <= 57
}

/// Scans the stripped input, holding every number to its cap.
fn scan_runs(t: &Vec<char>) -> (r: bool)
    ensures
        r == scan_ok(t@, 0, 0),
{
    let n = t.len();
    let mut i: usize = 0;
    let mut total: u128 = 0;
    while i < n
        invariant
            i <= n,
            n == t@.len(),
            total <= OFFSET_TOTAL_CAP,
            scan_ok(t@, 0, 0) == scan_ok(t@, i as int, total as int),
        decreases n - i,
    {
        if !digit_test(t[i]) {
            i += 1;
            continue ;
        }
        let mut j = i;
        let mut acc: u128 = 0;
        let mut huge = false;
        while j < n && digit_test(t[j])
            invariant
                i <= j <= n,
                n == t@.len(),
                forall|k: int| i <= k < j ==> is_digit_char(t@[k]),
                !huge ==> acc == run_value(t@, i as int, j as int) && acc <= SIGNED_64_LIMIT,
                huge ==> run_value(t@, i as int, j as int) > SIGNED_64_LIMIT,
            decreases n - j,
        {
            let d: u128 = ((t[j] as u32) - 48) as u128;
            if !huge {
                let acc2: u128 = acc * 10 + d;
                if acc2 > SIGNED_64_LIMIT {
                    huge = true;
                } else {
                    acc = acc2;
                }
            }
            j += 1;
        }
        proof {
            lemma_run_end_agrees(t@, i as int, j as int);
        }
        if huge {
            i = j;
            continue ;
        }
        let mult: u128 = if j < n {
            let c = t[j];
            if c == 'u' || (c as u32) == 181 {
                1
            } else if c == 's' {
                1_000_000
            } else if c == 'm' {
                if j + 1 < n && t[j + 1] == 'o' {
                    2_629_800_000_000
                } else {
                    60_000_000
                }
            } else if c == 'h' {
                3_600_000_000
            } else if c == 'd' {
                86_400_000_000
            } else if c == 'w' {
                604_800_000_000
            } else if c == 'M' {
                2_629_800_000_000
            } else if c == 'y' {
                31_557_600_000_000
            } else {
                0
            }
        } else {
            0
        };
        proof {
            assert(mult == head_mult(t@, j as int));
        }
        if mult > 0 {
            assert(acc * mult <= 9_223_372_036_854_775_808u128 * 31_557_600_000_000u128) by (nonlinear_arith)
                requires
                    acc <= 9_223_372_036_854_775_808u128,
                    mult <= 31_557_600_000_000u128,
            ;
            let term: u128 = acc * mult;
            if term > OFFSET_TOTAL_CAP || total > OFFSET_TOTAL_CAP - term {
                return false;
            }
            total = total + term;
        } else {
            let frac = (i >= 1 && t[i - 1] == '.') || (i >= 2 && t[i - 1] == '-' && t[i - 2]
                == '.');
            proof {
                assert(frac == fraction_run(t@, i as int));
            }
            if frac {
                if acc > FRACTION_CAP {
                    return false;
                }
            } else {
                if acc > PLAIN_NUMBER_CAP {
                    return false;
                }
            }
        }
        i = j;
    }
    true
}

/// Whether the evaluator can be handed the specification without its datetime
/// arithmetic leaving the representable range. Conservative: some inputs that
/// the evaluator would itself reject with a parse error are also refused.
pub fn within_evaluation_range(input: &str) -> (r: bool)
    ensures
        r == eval_in_range(input@),
{
    let t = strip_input(input);
    scan_runs(&t)
}

} // verus!
