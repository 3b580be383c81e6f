//! The batch runner: one run per configured table, every failure contained
//! to its own table.  The result always carries exactly one entry per
//! requested table, in the order the jobs were handed over — no table is
//! silently skipped and none appears twice.

use crate::executor::{
    run_one, run_one_outcome, resolved_cutoff_in_range, CatalogReply, ColumnReply, StatementReply,
};
use crate::timestamp::Timestamp;
use vstd::prelude::*;

verus! {

/// One configured table together with the answers the store gave for it.
#[derive(Debug)]
pub struct TableJob {
    pub name: String,
    pub amount: i64,
    pub catalog: CatalogReply,
    pub column: ColumnReply,
    pub statement: StatementReply,
}

/// The line a job's run reports, tagged success or failure.
pub open spec fn job_outcome(job: TableJob, now: Timestamp) -> Result<Seq<char>, Seq<char>> {
    run_one_outcome(job.amount, now, job.catalog, job.column, job.statement)
}

/// Whether the cutoff a job would compute is representable.
pub open spec fn job_cutoff_in_range(job: TableJob, now: Timestamp) -> bool {
    resolved_cutoff_in_range(job.amount, job.catalog, now)
}

/// One result entry belongs to one job: it carries the job's table name and
/// exactly the line the job's run reports.
pub open spec fn entry_matches(
    entry: (String, Result<String, String>),
    job: TableJob,
    now: Timestamp,
) -> bool {
    entry.0@ == job.name@ && match entry.1 {
        Ok(s) => job_outcome(job, now) matches Ok(t) && s@ == t,
        Err(s) => job_outcome(job, now) matches Err(m) && s@ == m,
    }
}

/// Run every configured table, one after the other.  A failing table's
/// entry records its error; the tables after it run all the same.
pub fn run_batch(jobs: &Vec<TableJob>, now: Timestamp) -> (r: Vec<(String, Result<String, String>)>)
    requires
        forall|i: int| 0 <= i < jobs@.len() ==> job_cutoff_in_range(#[trigger] jobs@[i], now),
    ensures
        r@.len() == jobs@.len(),
        forall|i: int| 0 <= i < jobs@.len() ==> entry_matches(#[trigger] r@[i], jobs@[i], now),
{
    let mut out: Vec<(String, Result<String, String>)> = Vec::new();
    let mut i: usize = 0;
    while i < jobs.len()
        invariant
            i <= jobs@.len(),
            out@.len() == i,
            forall|j: int| 0 <= j < jobs@.len() ==> job_cutoff_in_range(#[trigger] jobs@[j], now),
            forall|k: int| 0 <= k < i ==> entry_matches(#[trigger] out@[k], jobs@[k], now),
        decreases jobs@.len() - i,
    {
        let job = &jobs[i];
        let outcome = run_one(job.amount, now, &job.catalog, &job.column, &job.statement);
        out.push((job.name.clone(), outcome));
        i = i + 1;
    }
    out
}

} // verus!
