use vstd::prelude::*;

use crate::cmd::Cmd;
use crate::strategy::{Job, JobModel, Mode, PromptModel, Strategy};

verus! {

/// The engine's view of each job of a plan.
pub open spec fn jobs_view(v: Seq<Job>) -> Seq<JobModel> {
    v.map_values(|j: Job| j@)
}

/// A job that runs its command as it is, or only shows it under a dry run.
pub open spec fn plain(argv: Seq<Seq<char>>) -> JobModel {
    JobModel {
        argv,
        mode: Mode::Inherit,
        print_only: true,
        dry_flags: Seq::empty(),
        prompt: PromptModel::Unprompted,
        cleanup: None,
    }
}

/// A plan of one job.
pub fn single(j: Job) -> (r: Vec<Job>)
    ensures
        jobs_view(r@) == seq![j@],
{
    let mut r: Vec<Job> = Vec::new();
    r.push(j);
    assert(jobs_view(r@) =~= seq![r@[0]@]);
    r
}

/// A plan that runs `a`, then `b`.
pub fn chain(a: Vec<Job>, b: Vec<Job>) -> (r: Vec<Job>)
    ensures
        jobs_view(r@) == jobs_view(a@) + jobs_view(b@),
{
    let mut a = a;
    let mut b = b;
    let ghost a0 = a@;
    let ghost b0 = b@;
    a.append(&mut b);
    assert(jobs_view(a@) =~= jobs_view(a0) + jobs_view(b0));
    a
}

/// A job with no prompt, run as it is.
pub fn plain_job(cmd: Cmd) -> (r: Job)
    ensures
        r@ == plain(cmd.argv()),
{
    Job { cmd, mode: Mode::Inherit, strat: Strategy::default() }
}

} // verus!
