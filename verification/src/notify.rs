//! The end-of-run report: one completion message carrying the total
//! duration and, on failure, every recorded task error, plus the failure
//! headline with the error count.

use vstd::prelude::*;
use vstd::string::*;
use crate::duration::{pretty_duration, spec_pretty_duration};
use crate::strings::{join_strings, spec_decimal, spec_join, u64_to_decimal, views_of};

verus! {

/// `error` for a single failure, `errors` otherwise.
pub fn error_word(n: usize) -> (r: &'static str)
    ensures
        n == 1 ==> r@ == "error"@,
        n != 1 ==> r@ == "errors"@,
{
    if n == 1 {
        "error"
    } else {
        "errors"
    }
}

/// The completion message: the total run duration, followed — only when
/// tasks failed — by a blank line and every recorded error, one per line,
/// in the order the tasks ran.
pub fn completion_message(errors: &Vec<String>, total_sec: u64) -> (r: String)
    ensures
        errors@.len() == 0 ==> r@ == "Completed in "@ + spec_pretty_duration(total_sec as nat),
        errors@.len() > 0 ==> r@ == "Completed in "@ + spec_pretty_duration(total_sec as nat)
            + "\n\n"@ + spec_join(views_of(errors@), "\n"@),
{
    let mut r = String::from_str("Completed in ");
    let dur = pretty_duration(total_sec);
    r.append(dur.as_str());
    if errors.len() > 0 {
        r.append("\n\n");
        let joined = join_strings(errors, "\n");
        r.append(joined.as_str());
        proof {
            assert(r@ =~= "Completed in "@ + spec_pretty_duration(total_sec as nat) + "\n\n"@
                + spec_join(views_of(errors@), "\n"@));
        }
    }
    r
}

/// The failure headline: how many tasks failed, with the count rendered
/// in decimal and the word agreeing with it.
pub fn failure_headline(error_count: usize) -> (r: String)
    ensures
        r@ == "Backup failed! "@ + spec_decimal(error_count as nat) + " "@ + (
        if error_count == 1 {
            "error"@
        } else {
            "errors"@
        }),
{
    let mut r = String::from_str("Backup failed! ");
    let count = u64_to_decimal(error_count as u64);
    r.append(count.as_str());
    r.append(" ");
    r.append(error_word(error_count));
    proof {
        assert(r@ =~= "Backup failed! "@ + spec_decimal(error_count as nat) + " "@ + (
        if error_count == 1 {
            "error"@
        } else {
            "errors"@
        }));
    }
    r
}

} // verus!
