//! Rendering an elapsed time as a human-readable string with unit truncation:
//! seconds, then minutes, hours and days, dropping leading zero units.

use vstd::prelude::*;
use vstd::string::*;
use crate::strings::{spec_decimal, u64_to_decimal};

verus! {

/// Whole days in a duration of `secs` seconds.
pub open spec fn spec_days(secs: nat) -> nat {
    secs / 86400
}

/// Hours left over once the whole days are removed.
pub open spec fn spec_hours(secs: nat) -> nat {
    (secs % 86400) / 3600
}

/// Minutes left over once the whole hours are removed.
pub open spec fn spec_minutes(secs: nat) -> nat {
    (secs % 3600) / 60
}

/// Seconds left over once the whole minutes are removed.
pub open spec fn spec_seconds(secs: nat) -> nat {
    secs % 60
}

/// The rendered duration: the largest applicable unit leads, leading zero
/// units are dropped, and sub-second precision has already been truncated
/// away by taking whole seconds.
pub open spec fn spec_pretty_duration(secs: nat) -> Seq<char> {
    let d = spec_days(secs);
    let h = spec_hours(secs);
    let m = spec_minutes(secs);
    let s = spec_seconds(secs);
    if d == 0 && h == 0 && m == 0 {
        spec_decimal(s) + "sec"@
    } else if d == 0 && h == 0 {
        spec_decimal(m) + "min "@ + spec_decimal(s) + "sec"@
    } else if d == 0 {
        spec_decimal(h) + "hr "@ + spec_decimal(m) + "min "@ + spec_decimal(s) + "sec"@
    } else {
        spec_decimal(d) + "d "@ + spec_decimal(h) + "hr "@ + spec_decimal(m) + "min "@
            + spec_decimal(s) + "sec"@
    }
}

/// Renders an elapsed time, given as a whole number of seconds, in the
/// largest applicable units: `"Nsec"` under a minute, `"Mmin Nsec"` under an
/// hour, `"Hhr Mmin Nsec"` under a day, and `"Dd Hhr Mmin Nsec"` otherwise.
pub fn pretty_duration(duration_sec: u64) -> (r: String)
    ensures
        r@ == spec_pretty_duration(duration_sec as nat),
{
    let minute: u64 = 60;
    let hour: u64 = minute * 60;
    let day: u64 = hour * 24;

    let seconds = duration_sec % minute;
    let minutes = duration_sec % hour / minute;
    let hours = duration_sec % day / hour;
    let days = duration_sec / day;

    if days == 0 && hours == 0 && minutes == 0 {
        let mut r = u64_to_decimal(seconds);
        r.append("sec");
        proof {
            assert(r@ =~= spec_pretty_duration(duration_sec as nat));
        }
        r
    } else if days == 0 && hours == 0 {
        let mut r = u64_to_decimal(minutes);
        r.append("min ");
        let s_str = u64_to_decimal(seconds);
        r.append(s_str.as_str());
        r.append("sec");
        proof {
            assert(r@ =~= spec_pretty_duration(duration_sec as nat));
        }
        r
    } else if days == 0 {
        let mut r = u64_to_decimal(hours);
        r.append("hr ");
        let m_str = u64_to_decimal(minutes);
        r.append(m_str.as_str());
        r.append("min ");
        let s_str = u64_to_decimal(seconds);
        r.append(s_str.as_str());
        r.append("sec");
        proof {
            assert(r@ =~= spec_pretty_duration(duration_sec as nat));
        }
        r
    } else {
        let mut r = u64_to_decimal(days);
        r.append("d ");
        let h_str = u64_to_decimal(hours);
        r.append(h_str.as_str());
        r.append("hr ");
        let m_str = u64_to_decimal(minutes);
        r.append(m_str.as_str());
        r.append("min ");
        let s_str = u64_to_decimal(seconds);
        r.append(s_str.as_str());
        r.append("sec");
        proof {
            assert(r@ =~= spec_pretty_duration(duration_sec as nat));
        }
        r
    }
}

/// The unit breakdown that the formatter renders recovers the whole number
/// of seconds exactly: days, hours, minutes and seconds recombine to the
/// input, and each unit below the largest stays within its range.
pub proof fn lemma_duration_breakdown(secs: nat)
    ensures
        spec_seconds(secs) < 60,
        spec_minutes(secs) < 60,
        spec_hours(secs) < 24,
        spec_days(secs) * 86400 + spec_hours(secs) * 3600 + spec_minutes(secs) * 60
            + spec_seconds(secs) == secs,
{
    let si = secs as int;
    vstd::arithmetic::div_mod::lemma_fundamental_div_mod(si, 86400);
    vstd::arithmetic::div_mod::lemma_fundamental_div_mod(si % 86400, 3600);
    vstd::arithmetic::div_mod::lemma_fundamental_div_mod(si % 3600, 60);
    vstd::arithmetic::div_mod::lemma_mod_mod(si, 3600, 24);
    vstd::arithmetic::div_mod::lemma_mod_mod(si, 60, 60);
    assert(si % 86400 < 86400 && si % 86400 >= 0) by (nonlinear_arith);
    assert(si % 3600 < 3600 && si % 3600 >= 0) by (nonlinear_arith);
    assert(si % 60 < 60 && si % 60 >= 0) by (nonlinear_arith);
    assert((si % 86400) / 3600 < 24) by (nonlinear_arith)
        requires
            0 <= si % 86400 < 86400,
    ;
    assert((si % 3600) / 60 < 60) by (nonlinear_arith)
        requires
            0 <= si % 3600 < 3600,
    ;
}

} // verus!
