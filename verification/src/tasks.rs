//! The failure-isolation boundary of a run: recording one named task's
//! outcome into the shared error list, and aggregating a whole sequence of
//! outcomes. A failed task contributes exactly one formatted entry and the
//! run always continues.

use vstd::prelude::*;
use vstd::string::*;
use crate::duration::{pretty_duration, spec_pretty_duration};
use crate::errors::{spec_message, Error};
use crate::strings::views_of;

verus! {

/// The formatted entry one failed task contributes to the error list:
/// `[<name> in <duration>] <message>`.
pub open spec fn spec_task_error(name: Seq<char>, elapsed_sec: nat, e: Error) -> Seq<char> {
    "["@ + name + " in "@ + spec_pretty_duration(elapsed_sec) + "] "@ + spec_message(e)
}

/// Records the outcome of one named task that ran for `elapsed_sec`
/// seconds: a failure appends exactly one formatted entry to the shared
/// error list, a success leaves the list untouched. The failure is never
/// propagated, so the run continues with the next task regardless.
pub fn try_task(
    name: &str,
    result: &Result<(), Error>,
    elapsed_sec: u64,
    error_list: &mut Vec<String>,
)
    ensures
        (*result) is Ok ==> final(error_list)@ == old(error_list)@,
        (*result) matches Err(e) ==> views_of(final(error_list)@) == views_of(
            old(error_list)@,
        ).push(spec_task_error(name@, elapsed_sec as nat, e)),
{
    match result {
        Ok(()) => {},
        Err(e) => {
            let mut err_str = String::from_str("[");
            err_str.append(name);
            err_str.append(" in ");
            let dur = pretty_duration(elapsed_sec);
            err_str.append(dur.as_str());
            err_str.append("] ");
            let msg = e.message();
            err_str.append(msg.as_str());
            proof {
                assert(err_str@ =~= spec_task_error(name@, elapsed_sec as nat, *e));
            }
            error_list.push(err_str);
            proof {
                assert(views_of(error_list@) =~= views_of(old(error_list)@).push(
                    spec_task_error(name@, elapsed_sec as nat, *e),
                ));
            }
        },
    }
}

/// One task's record for aggregation: its display name, its outcome, and
/// how long it ran.
pub struct TaskRecord {
    pub name: String,
    pub result: Result<(), Error>,
    pub elapsed_sec: u64,
}

/// The error entries a sequence of task records contributes, in order:
/// one formatted entry per failed record, none for a successful one.
pub open spec fn spec_collected_errors(records: Seq<TaskRecord>) -> Seq<Seq<char>>
    decreases records.len(),
{
    if records.len() == 0 {
        Seq::empty()
    } else {
        let rest = spec_collected_errors(records.drop_last());
        match records.last().result {
            Ok(_) => rest,
            Err(e) => rest.push(
                spec_task_error(records.last().name@, records.last().elapsed_sec as nat, e),
            ),
        }
    }
}

/// Records a whole sequence of task outcomes in order, appending to the
/// shared error list exactly the entries of the failed records.
pub fn record_all(records: &Vec<TaskRecord>, error_list: &mut Vec<String>)
    ensures
        views_of(final(error_list)@) == views_of(old(error_list)@) + spec_collected_errors(
            records@,
        ),
{
    let mut i: usize = 0;
    while i < records.len()
        invariant
            i <= records@.len(),
            views_of(error_list@) == views_of(old(error_list)@) + spec_collected_errors(
                records@.take(i as int),
            ),
        decreases records@.len() - i,
    {
        let ghost pre = error_list@;
        let record = &records[i];
        try_task(record.name.as_str(), &record.result, record.elapsed_sec, error_list);
        proof {
            assert(records@.take(i as int + 1).drop_last() =~= records@.take(i as int));
            assert(records@.take(i as int + 1).last() == records@[i as int]);
            match records@[i as int].result {
                Ok(_) => {
                    assert(views_of(error_list@) =~= views_of(old(error_list)@)
                        + spec_collected_errors(records@.take(i as int + 1)));
                },
                Err(e) => {
                    assert(views_of(error_list@) == views_of(pre).push(
                        spec_task_error(
                            records@[i as int].name@,
                            records@[i as int].elapsed_sec as nat,
                            e,
                        ),
                    ));
                    assert(views_of(error_list@) =~= views_of(old(error_list)@)
                        + spec_collected_errors(records@.take(i as int + 1)));
                },
            }
        }
        i += 1;
    }
    proof {
        assert(records@.take(records@.len() as int) =~= records@);
    }
}

/// All-success runs contribute no error entries.
pub proof fn lemma_all_ok_collects_nothing(records: Seq<TaskRecord>)
    requires
        forall|j: int| 0 <= j < records.len() ==> records[j].result is Ok,
    ensures
        spec_collected_errors(records).len() == 0,
    decreases records.len(),
{
    if records.len() > 0 {
        lemma_all_ok_collects_nothing(records.drop_last());
    }
}

/// Task isolation: in a run where exactly one task fails, the aggregated
/// error list has exactly one entry, and it is the failing task's formatted
/// entry — every other task still runs and contributes nothing.
pub proof fn lemma_task_isolation(records: Seq<TaskRecord>, k: int)
    requires
        0 <= k < records.len(),
        records[k].result is Err,
        forall|j: int| 0 <= j < records.len() && j != k ==> records[j].result is Ok,
    ensures
        spec_collected_errors(records).len() == 1,
        spec_collected_errors(records)[0] == spec_task_error(
            records[k].name@,
            records[k].elapsed_sec as nat,
            records[k].result->Err_0,
        ),
    decreases records.len(),
{
    let prefix = records.drop_last();
    if k == records.len() - 1 {
        lemma_all_ok_collects_nothing(prefix);
    } else {
        lemma_task_isolation(prefix, k);
        assert(records.last().result is Ok);
    }
}

} // verus!
