//! Plain-value helpers: percentage scaling for the samplers and the
//! uptime timestamp shown in the host summary.

use vstd::prelude::*;
use vstd::string::StringExecFns;

verus! {

/// `part` out of `total` in hundredths of a percent, truncated; defined
/// as 0 when `total` is 0, never a division by zero. Unbounded in
/// general (a part larger than the total gives more than 10000).
pub open spec fn spec_percent_centi(part: u64, total: u64) -> int {
    if total == 0 {
        0
    } else {
        part * 10000 / (total as int)
    }
}

/// Computes `part` of `total` in hundredths of a percent, as the
/// samplers hand percentages around; clipped to `u32::MAX` in the
/// degenerate case of a part vastly larger than the total.
pub fn percent_centi(part: u64, total: u64) -> (p: u32)
    ensures
        p == if spec_percent_centi(part, total) > u32::MAX {
            u32::MAX as int
        } else {
            spec_percent_centi(part, total)
        },
{
    if total == 0 {
        return 0;
    }
    let wide: u128 = (part as u128) * 10000 / (total as u128);
    proof {
        assert(part * 10000 / (total as int) >= 0) by (nonlinear_arith)
            requires total > 0 && part >= 0;
    }
    if wide > u32::MAX as u128 {
        u32::MAX
    } else {
        wide as u32
    }
}

/// The decimal digit `d` as a character.
pub open spec fn spec_digit_char(d: int) -> char {
    if d == 0 {
        '0'
    } else if d == 1 {
        '1'
    } else if d == 2 {
        '2'
    } else if d == 3 {
        '3'
    } else if d == 4 {
        '4'
    } else if d == 5 {
        '5'
    } else if d == 6 {
        '6'
    } else if d == 7 {
        '7'
    } else if d == 8 {
        '8'
    } else {
        '9'
    }
}

/// The decimal digits of `n`, most significant first, no leading zeros
/// (a single '0' for zero itself).
pub open spec fn spec_decimal(n: nat) -> Seq<char>
    decreases n,
{
    if n < 10 {
        seq![spec_digit_char(n as int)]
    } else {
        spec_decimal(n / 10).push(spec_digit_char((n % 10) as int))
    }
}

/// The digits collected low-to-high in `ds`, read back high-to-low as
/// characters.
pub open spec fn rev_digit_chars(ds: Seq<u8>) -> Seq<char> {
    Seq::new(ds.len(), |i: int| spec_digit_char(ds[ds.len() - 1 - i] as int))
}

fn digit_str(d: u8) -> (r: &'static str)
    requires
        d < 10,
    ensures
        r@ == seq![spec_digit_char(d as int)],
{
    proof {
        reveal_strlit("0");
        reveal_strlit("1");
        reveal_strlit("2");
        reveal_strlit("3");
        reveal_strlit("4");
        reveal_strlit("5");
        reveal_strlit("6");
        reveal_strlit("7");
        reveal_strlit("8");
        reveal_strlit("9");
    }
    if d == 0 {
        "0"
    } else if d == 1 {
        "1"
    } else if d == 2 {
        "2"
    } else if d == 3 {
        "3"
    } else if d == 4 {
        "4"
    } else if d == 5 {
        "5"
    } else if d == 6 {
        "6"
    } else if d == 7 {
        "7"
    } else if d == 8 {
        "8"
    } else {
        "9"
    }
}

/// Renders `n` in decimal.
#[verifier::loop_isolation(false)]
pub fn u64_to_string(n: u64) -> (s: String)
    ensures
        s@ == spec_decimal(n as nat),
{
    let mut digits: Vec<u8> = Vec::new();
    let mut m: u64 = n;
    proof {
        assert(rev_digit_chars(digits@) =~= Seq::<char>::empty());
        assert(spec_decimal(n as nat) =~= spec_decimal(m as nat) + rev_digit_chars(digits@));
    }
    while m >= 10
        invariant
            spec_decimal(n as nat) == spec_decimal(m as nat) + rev_digit_chars(digits@),
            forall|k: int| 0 <= k < digits@.len() ==> digits@[k] < 10,
        decreases m,
    {
        let ghost m0 = m;
        let ghost ds0 = digits@;
        let d: u8 = (m % 10) as u8;
        digits.push(d);
        m = m / 10;
        proof {
            assert(spec_decimal(m0 as nat) == spec_decimal(m as nat).push(
                spec_digit_char(d as int),
            ));
            assert(rev_digit_chars(ds0.push(d)) =~= seq![spec_digit_char(d as int)]
                + rev_digit_chars(ds0));
            assert(spec_decimal(m as nat) + rev_digit_chars(digits@) =~= (spec_decimal(
                m0 as nat,
            ) + rev_digit_chars(ds0)));
        }
    }
    let ghost ds1 = digits@;
    digits.push(m as u8);
    proof {
        assert(spec_decimal(m as nat) == seq![spec_digit_char(m as int)]);
        assert(rev_digit_chars(ds1.push(m as u8)) =~= seq![spec_digit_char(m as int)]
            + rev_digit_chars(ds1));
        assert(rev_digit_chars(digits@) =~= spec_decimal(n as nat));
    }
    let ghost rev = rev_digit_chars(digits@);
    let mut s = String::new();
    let mut j: usize = digits.len();
    while j > 0
        invariant
            j <= digits@.len(),
            s@ == rev.subrange(0, digits@.len() - j),
        decreases j,
    {
        j = j - 1;
        let d = digits[j];
        s.append(digit_str(d));
        proof {
            assert(rev[digits@.len() - 1 - (j as int)] == spec_digit_char(digits@[j as int] as int));
            assert(s@ =~= rev.subrange(0, digits@.len() - j));
        }
    }
    proof {
        assert(rev.subrange(0, digits@.len() as int) =~= rev);
    }
    s
}

/// The uptime line's text: days, total hours, minutes and seconds,
/// formatted as the dashboard shows it.
pub open spec fn spec_timestamp(total_seconds: u64) -> Seq<char> {
    let hours = total_seconds / 3600;
    let days = hours / 24;
    let minutes = (total_seconds % 3600) / 60;
    let seconds = total_seconds % 60;
    spec_decimal(days as nat) + seq![' ', 'd', 'a', 'y', 's', ' '] + spec_decimal(hours as nat)
        + seq![':'] + spec_decimal(minutes as nat) + seq![':'] + spec_decimal(seconds as nat)
}

/// Renders an uptime in seconds as days, total hours, minutes and
/// seconds. The hour count deliberately keeps counting past a day.
pub fn seconds_to_timestamp(total_seconds: u64) -> (s: String)
    ensures
        s@ == spec_timestamp(total_seconds),
{
    let hours: u64 = total_seconds / 3600;
    let days: u64 = hours / 24;
    let minutes: u64 = (total_seconds % 3600) / 60;
    let seconds: u64 = total_seconds % 60;
    proof {
        reveal_strlit(" days ");
        reveal_strlit(":");
        assert(" days "@ =~= seq![' ', 'd', 'a', 'y', 's', ' ']);
        assert(":"@ =~= seq![':']);
    }
    let mut s = u64_to_string(days);
    s.append(" days ");
    let hours_text = u64_to_string(hours);
    s.append(hours_text.as_str());
    s.append(":");
    let minutes_text = u64_to_string(minutes);
    s.append(minutes_text.as_str());
    s.append(":");
    let seconds_text = u64_to_string(seconds);
    s.append(seconds_text.as_str());
    proof {
        assert(s@ =~= spec_timestamp(total_seconds));
    }
    s
}

} // verus!
