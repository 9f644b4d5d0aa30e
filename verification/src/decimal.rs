//! Verified decimal formatting and parsing.
//!
//! Coordinates are carried as signed micro-degree integers (millionths of a
//! degree). This module gives them an exact textual story: [`decimal_micro`]
//! says what micro-degree value a decimal string denotes, and
//! [`micro_string`] says how a micro-degree value prints. Cache keys embed
//! coordinates through [`micro_string`], so key construction rests on these
//! definitions alone.

use vstd::prelude::*;
use vstd::string::StrSliceExecFns;
use vstd::string::StringExecFns;

verus! {

/// The decimal digit character for `d` in `0..=9`.
pub open spec fn digit_char(d: nat) -> char {
    if d == 0 {
        '0'
    } else if d == 1 {
        '1'
    } else if d == 2 {
        '2'
    } else if d == 3 {
        '3'
    } else if d == 4 {
        '4'
    } else if d == 5 {
        '5'
    } else if d == 6 {
        '6'
    } else if d == 7 {
        '7'
    } else if d == 8 {
        '8'
    } else {
        '9'
    }
}

/// Whether `c` is one of the characters `'0'` through `'9'`.
pub open spec fn is_dec_digit(c: char) -> bool {
    '0' as u32 <= c as u32 && c as u32 <= '9' as u32
}

/// The numeric value of the digit character `c`.
pub open spec fn char_digit(c: char) -> nat {
    (c as u32 - '0' as u32) as nat
}

/// The number denoted by a sequence of digit characters, most significant
/// digit first; the empty sequence denotes zero.
pub open spec fn digits_val(s: Seq<char>) -> nat
    decreases s.len(),
{
    if s.len() == 0 {
        0
    } else {
        digits_val(s.drop_last()) * 10 + char_digit(s.last())
    }
}

/// Whether every character of `s` is a decimal digit.
pub open spec fn all_digits(s: Seq<char>) -> bool {
    forall|i: int| 0 <= i < s.len() ==> is_dec_digit(s[i])
}

/// Ten to the `k`.
pub open spec fn pow10(k: nat) -> nat
    decreases k,
{
    if k == 0 {
        1
    } else {
        10 * pow10((k - 1) as nat)
    }
}

/// The decimal representation of `n`, most significant digit first, with no
/// leading zeros (a single `'0'` for zero itself).
pub open spec fn dec_digits(n: nat) -> Seq<char>
    decreases n,
{
    if n < 10 {
        seq![digit_char(n)]
    } else {
        dec_digits(n / 10).push(digit_char(n % 10))
    }
}

/// The decimal representation of `n` in exactly `w` digits, leading zeros
/// kept; digits beyond the width are discarded.
pub open spec fn fixed_digits(n: nat, w: nat) -> Seq<char>
    decreases w,
{
    if w == 0 {
        Seq::empty()
    } else {
        fixed_digits(n / 10, (w - 1) as nat).push(digit_char(n % 10))
    }
}

proof fn lemma_pow10_pos(k: nat)
    ensures
        pow10(k) >= 1,
    decreases k,
{
    if k > 0 {
        lemma_pow10_pos((k - 1) as nat);
    }
}

proof fn lemma_pow10_mono(a: nat, b: nat)
    requires
        a <= b,
    ensures
        pow10(a) <= pow10(b),
    decreases b,
{
    if a < b {
        lemma_pow10_mono(a, (b - 1) as nat);
        lemma_pow10_pos((b - 1) as nat);
    }
}

fn digit_str(d: u64) -> (s: &'static str)
    requires
        d < 10,
    ensures
        s@ == seq![digit_char(d as nat)],
{
    let s: &'static str = match d {
        0 => "0",
        1 => "1",
        2 => "2",
        3 => "3",
        4 => "4",
        5 => "5",
        6 => "6",
        7 => "7",
        8 => "8",
        _ => "9",
    };
    proof {
        reveal_strlit("0");
        reveal_strlit("1");
        reveal_strlit("2");
        reveal_strlit("3");
        reveal_strlit("4");
        reveal_strlit("5");
        reveal_strlit("6");
        reveal_strlit("7");
        reveal_strlit("8");
        reveal_strlit("9");
        assert(s@ =~= seq![digit_char(d as nat)]);
    }
    s
}

fn push_u64_digits(n: u64, out: &mut String)
    ensures
        final(out)@ == old(out)@ + dec_digits(n as nat),
    decreases n,
{
    if n >= 10 {
        push_u64_digits(n / 10, out);
    }
    let d = digit_str(n % 10);
    out.append(d);
    proof {
        assert(final(out)@ =~= old(out)@ + dec_digits(n as nat));
    }
}

fn push_fixed_digits(n: u64, w: u64, out: &mut String)
    ensures
        final(out)@ == old(out)@ + fixed_digits(n as nat, w as nat),
    decreases w,
{
    if w > 0 {
        push_fixed_digits(n / 10, w - 1, out);
        let d = digit_str(n % 10);
        out.append(d);
    }
    proof {
        assert(final(out)@ =~= old(out)@ + fixed_digits(n as nat, w as nat));
    }
}

/// Prints `n` in decimal, exactly as `dec_digits` describes.
pub fn u64_to_string(n: u64) -> (s: String)
    ensures
        s@ == dec_digits(n as nat),
{
    let mut s = String::new();
    push_u64_digits(n, &mut s);
    proof {
        assert(s@ =~= dec_digits(n as nat));
    }
    s
}

/// How a micro-degree value prints: an optional minus sign, the whole
/// degrees without leading zeros, a dot, and exactly six fractional digits.
pub open spec fn micro_string(v: int) -> Seq<char> {
    let a = if v < 0 { -v } else { v };
    let sign: Seq<char> = if v < 0 {
        seq!['-']
    } else {
        Seq::empty()
    };
    sign + dec_digits((a / 1000000) as nat) + seq!['.'] + fixed_digits((a % 1000000) as nat, 6)
}

/// Prints a micro-degree value, exactly as `micro_string` describes.
pub fn micro_to_string(v: i64) -> (s: String)
    requires
        v != i64::MIN,
    ensures
        s@ == micro_string(v as int),
{
    let mut s = String::new();
    let a: u64 = if v < 0 {
        proof {
            reveal_strlit("-");
        }
        s.append("-");
        (-v) as u64
    } else {
        v as u64
    };
    push_u64_digits(a / 1000000, &mut s);
    proof {
        reveal_strlit(".");
    }
    s.append(".");
    push_fixed_digits(a % 1000000, 6, &mut s);
    proof {
        assert(s@ =~= micro_string(v as int));
    }
    s
}

/// The position of the first `'.'` at or after `i`, or `-1` if there is none.
pub open spec fn find_dot(s: Seq<char>, i: int) -> int
    decreases s.len() - i,
{
    if i < 0 || i >= s.len() {
        -1
    } else if s[i] == '.' {
        i
    } else {
        find_dot(s, i + 1)
    }
}

/// Where the digits start: one past a leading sign, if any.
pub open spec fn sign_start(s: Seq<char>) -> int {
    if s.len() > 0 && (s[0] == '-' || s[0] == '+') {
        1
    } else {
        0
    }
}

/// Whether `s` denotes a negative number.
pub open spec fn is_neg(s: Seq<char>) -> bool {
    s.len() > 0 && s[0] == '-'
}

/// The digits before the dot (everything after the sign when there is no
/// dot).
pub open spec fn int_part(s: Seq<char>) -> Seq<char> {
    let d = find_dot(s, sign_start(s));
    if d == -1 {
        s.skip(sign_start(s))
    } else {
        s.subrange(sign_start(s), d)
    }
}

/// The digits after the dot (empty when there is no dot).
pub open spec fn frac_part(s: Seq<char>) -> Seq<char> {
    let d = find_dot(s, sign_start(s));
    if d == -1 {
        Seq::empty()
    } else {
        s.skip(d + 1)
    }
}

/// The first six fractional digits, weighted to millionths: shorter fractions
/// are scaled up, digits past the sixth are dropped.
pub open spec fn frac_micro(f: Seq<char>) -> nat {
    if f.len() >= 6 {
        digits_val(f.take(6))
    } else {
        digits_val(f) * pow10((6 - f.len()) as nat)
    }
}

/// The micro-degree value a string denotes, or nothing if it is rejected.
///
/// A string is accepted when it is an optional `'-'` or `'+'`, then decimal
/// digits with at most one dot between them, at least one digit in all, and
/// at most twelve digits before the dot. Fractional digits past the sixth
/// are dropped rather than rounded.
pub open spec fn decimal_micro(s: Seq<char>) -> Option<int> {
    let ip = int_part(s);
    let fp = frac_part(s);
    if all_digits(ip) && all_digits(fp) && ip.len() + fp.len() > 0 && ip.len() <= 12 {
        let mag = digits_val(ip) * 1000000 + frac_micro(fp);
        if is_neg(s) {
            Some(-(mag as int))
        } else {
            Some(mag as int)
        }
    } else {
        None
    }
}

/// The position of the first dot at or after `from`, as `find_dot` gives it.
fn find_dot_from(s: &str, n: usize, from: usize) -> (r: Option<usize>)
    requires
        n == s@.len(),
        from <= n,
    ensures
        match r {
            Some(k) => from <= k < n && find_dot(s@, from as int) == k as int,
            None => find_dot(s@, from as int) == -1,
        },
{
    let mut i = from;
    while i < n
        invariant
            from <= i <= n,
            n == s@.len(),
            find_dot(s@, from as int) == find_dot(s@, i as int),
        decreases n - i,
    {
        let c = s.get_char(i);
        if c == '.' {
            return Some(i);
        }
        i += 1;
    }
    None
}

fn scan_int_digits(s: &str, n: usize, lo: usize, hi: usize) -> (r: Option<u64>)
    requires
        n == s@.len(),
        lo <= hi && hi <= n,
    ensures
        ({
            let sub = s@.subrange(lo as int, hi as int);
            match r {
                Some(v) => all_digits(sub) && sub.len() <= 12 && v == digits_val(sub) && v
                    <= 999999999999,
                None => !all_digits(sub) || sub.len() > 12,
            }
        }),
{
    let ghost sub = s@.subrange(lo as int, hi as int);
    if hi - lo > 12 {
        return None;
    }
    let mut j = lo;
    let mut intval: u64 = 0;
    while j < hi
        invariant
            lo <= j <= hi <= n,
            hi - lo <= 12,
            n == s@.len(),
            sub == s@.subrange(lo as int, hi as int),
            forall|m: int| lo <= m < j ==> is_dec_digit(s@[m]),
            intval == digits_val(s@.subrange(lo as int, j as int)),
            intval < pow10((j - lo) as nat),
        decreases hi - j,
    {
        let c = s.get_char(j);
        let cv = c as u32;
        if cv < '0' as u32 || cv > '9' as u32 {
            proof {
                assert(sub[j - lo] == s@[j as int]);
                assert(!all_digits(sub));
            }
            return None;
        }
        proof {
            reveal_with_fuel(pow10, 13);
            lemma_pow10_mono((j - lo) as nat, 11);
            assert(intval < 100000000000);
            assert(pow10((j + 1 - lo) as nat) == 10 * pow10((j - lo) as nat));
        }
        intval = intval * 10 + ((cv - '0' as u32) as u64);
        j += 1;
        proof {
            let pre = s@.subrange(lo as int, j - 1);
            let cur = s@.subrange(lo as int, j as int);
            assert(cur.drop_last() =~= pre);
            assert(cur.last() == s@[j - 1]);
        }
    }
    proof {
        assert(all_digits(sub)) by {
            assert(forall|t: int| 0 <= t < sub.len() ==> sub[t] == s@[t + lo]);
        }
        reveal_with_fuel(pow10, 13);
        lemma_pow10_mono((hi - lo) as nat, 12);
        assert(intval < pow10(12));
    }
    Some(intval)
}

fn scan_frac_digits(s: &str, n: usize, lo: usize) -> (r: Option<u64>)
    requires
        n == s@.len(),
        lo <= n,
    ensures
        ({
            let sub = s@.subrange(lo as int, n as int);
            match r {
                Some(v) => all_digits(sub) && v == frac_micro(sub) && v < 1000000,
                None => !all_digits(sub),
            }
        }),
{
    let ghost sub = s@.subrange(lo as int, n as int);
    let mut k = lo;
    let mut fracval: u64 = 0;
    let mut fcount: u64 = 0;
    while k < n
        invariant
            lo <= k <= n,
            n == s@.len(),
            sub == s@.subrange(lo as int, n as int),
            forall|m: int| lo <= m < k ==> is_dec_digit(s@[m]),
            fcount == if k - lo <= 6 {
                k - lo
            } else {
                6int
            },
            fracval == digits_val(sub.take(fcount as int)),
            fracval < pow10(fcount as nat),
        decreases n - k,
    {
        let c = s.get_char(k);
        let cv = c as u32;
        if cv < '0' as u32 || cv > '9' as u32 {
            proof {
                assert(sub[k - lo] == s@[k as int]);
                assert(!all_digits(sub));
            }
            return None;
        }
        if fcount < 6 {
            proof {
                reveal_with_fuel(pow10, 7);
                lemma_pow10_mono(fcount as nat, 5);
                assert(fracval < 100000);
                assert(pow10((fcount + 1) as nat) == 10 * pow10(fcount as nat));
            }
            fracval = fracval * 10 + ((cv - '0' as u32) as u64);
            fcount = fcount + 1;
            proof {
                let cur = sub.take(fcount as int);
                assert(cur.drop_last() =~= sub.take(fcount - 1));
                assert(sub[fcount - 1] == s@[k as int]);
                assert(cur.last() == sub[fcount - 1]);
            }
        }
        k += 1;
    }
    proof {
        assert(all_digits(sub)) by {
            assert(forall|t: int| 0 <= t < sub.len() ==> sub[t] == s@[t + lo]);
        }
        if sub.len() >= 6 {
            assert(fcount == 6);
            assert(fracval == digits_val(sub.take(6)));
            assert(pow10(0nat) == 1);
            assert(fracval * pow10((6 - fcount) as nat) == fracval) by (nonlinear_arith)
                requires
                    pow10((6 - fcount) as nat) == 1,
            ;
            assert(fracval * pow10((6 - fcount) as nat) == frac_micro(sub));
        } else {
            assert(fcount == sub.len());
            assert(sub.take(fcount as int) =~= sub);
            assert(fracval == digits_val(sub));
            assert(fracval * pow10((6 - fcount) as nat) == frac_micro(sub));
        }
    }
    // Scale short fractions up to millionths.
    while fcount < 6
        invariant
            fcount <= 6,
            fracval * pow10((6 - fcount) as nat) == frac_micro(sub),
            fracval < pow10(fcount as nat),
        decreases 6 - fcount,
    {
        proof {
            reveal_with_fuel(pow10, 7);
            lemma_pow10_mono(fcount as nat, 5);
            assert(fracval < 100000);
            assert(pow10((6 - fcount) as nat) == 10 * pow10((6 - (fcount + 1)) as nat));
            assert(pow10((fcount + 1) as nat) == 10 * pow10(fcount as nat));
            assert((fracval * 10) * pow10((6 - (fcount + 1)) as nat) == fracval * (10 * pow10(
                (6 - (fcount + 1)) as nat,
            ))) by (nonlinear_arith);
        }
        fracval = fracval * 10;
        fcount += 1;
    }
    proof {
        reveal_with_fuel(pow10, 7);
        assert(pow10(0nat) == 1);
        assert(fracval * pow10((6 - fcount) as nat) == fracval) by (nonlinear_arith)
            requires
                pow10((6 - fcount) as nat) == 1,
        ;
        assert(fracval == frac_micro(sub));
        assert(fracval < 1000000);
    }
    Some(fracval)
}

/// Parses a coordinate given in decimal notation to micro-degrees, exactly
/// as `decimal_micro` describes.
pub fn parse_micro(s: &str) -> (r: Option<i64>)
    ensures
        decimal_micro(s@) == match r {
            Some(v) => Some(v as int),
            None => None::<int>,
        },
        r matches Some(v) ==> -1000000000000000000 < v < 1000000000000000000,
{
    let n = s.unicode_len();
    let mut start: usize = 0;
    let mut neg = false;
    if n > 0 {
        let c0 = s.get_char(0);
        if c0 == '-' {
            neg = true;
            start = 1;
        } else if c0 == '+' {
            start = 1;
        }
    }
    proof {
        assert(start as int == sign_start(s@));
        assert(neg == is_neg(s@));
    }
    let dot = find_dot_from(s, n, start);
    let int_end = match dot {
        Some(k) => k,
        None => n,
    };
    let ghost ip = int_part(s@);
    let ghost fp = frac_part(s@);
    proof {
        assert(ip =~= s@.subrange(start as int, int_end as int));
        if dot is Some {
            assert(fp =~= s@.subrange(int_end + 1, n as int));
        }
    }
    let intval = match scan_int_digits(s, n, start, int_end) {
        Some(v) => v,
        None => {
            return None;
        },
    };
    let fracval = if int_end < n {
        match scan_frac_digits(s, n, int_end + 1) {
            Some(v) => v,
            None => {
                return None;
            },
        }
    } else {
        0
    };
    proof {
        assert(all_digits(fp));
        if int_end >= n {
            assert(fp =~= Seq::<char>::empty());
            assert(frac_micro(fp) == digits_val(fp) * pow10(6nat));
            assert(digits_val(fp) * pow10(6nat) == 0) by (nonlinear_arith)
                requires
                    digits_val(fp) == 0,
            ;
        }
        assert(fracval == frac_micro(fp));
    }
    // Reject strings with no digits at all.
    if int_end == start && (int_end >= n || int_end + 1 == n) {
        proof {
            assert(ip.len() + fp.len() == 0);
        }
        return None;
    }
    let mag: u64 = intval * 1000000 + fracval;
    let r: i64 = if neg {
        -(mag as i64)
    } else {
        mag as i64
    };
    proof {
        assert(ip.len() + fp.len() > 0);
        assert(decimal_micro(s@) == Some(r as int));
    }
    Some(r)
}

} // verus!
