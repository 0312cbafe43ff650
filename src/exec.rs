use vstd::prelude::*;

use crate::cmd::{push_words, strs};
use crate::config::Config;
use crate::error::Error;
use crate::pm::jobs_view;
use crate::strategy::{
    prepared, DryRunStrategy, Job, JobModel, Mode, NoCacheStrategy, PromptModel, PromptStrategy,
};

verus! {

/// A reply to a confirmation prompt.
#[derive(Clone, Copy, Debug, PartialEq, Eq, Structural)]
pub enum Answer {
    /// Run this command.
    Yes,
    /// Cancel the operation.
    No,
    /// Run this command and every later one without asking again.
    All,
}

/// What the caller reports back after carrying out an action.
#[derive(Clone, Copy, Debug, PartialEq, Eq, Structural)]
pub enum Event {
    /// The action needed no reply (a command was shown), or the run starts.
    Proceed,
    /// The user answered a prompt.
    Answered(Answer),
    /// The child process ended with this exit code.
    Exited(i32),
    /// The child process could not be started.
    SpawnFailed,
}

/// What the caller is asked to do next.
#[derive(Debug)]
pub enum Action {
    /// Show this command; it is not run.
    Print(Vec<String>),
    /// Show this command and ask whether to run it.
    Ask(Vec<String>),
    /// Run this command under this mode and report how it ended.
    Spawn(Vec<String>, Mode),
    /// The operation is over, with this outcome.
    Finish(Result<(), Error>),
}

/// An action, with its commands as argument lists.
pub enum ActionModel {
    Print(Seq<Seq<char>>),
    Ask(Seq<Seq<char>>),
    Spawn(Seq<Seq<char>>, Mode),
    Finish(Result<(), Error>),
}

impl View for Action {
    type V = ActionModel;

    open spec fn view(&self) -> ActionModel {
        match self {
            Action::Print(v) => ActionModel::Print(strs(v@)),
            Action::Ask(v) => ActionModel::Ask(strs(v@)),
            Action::Spawn(v, m) => ActionModel::Spawn(strs(v@), *m),
            Action::Finish(r) => ActionModel::Finish(*r),
        }
    }
}

/// Whether `c` is the letter `lower` in either case.
pub open spec fn letter_is(c: char, lower: char, upper: char) -> bool {
    c == lower || c == upper
}

/// Whether `s` spells `word`, given in lower and upper case, ignoring case.
pub open spec fn spells(s: Seq<char>, lower: Seq<char>, upper: Seq<char>) -> bool {
    s.len() == lower.len() && forall|i: int| 0 <= i < s.len() ==> letter_is(s[i], lower[i], upper[i])
}

/// The reply that a line of input gives to a prompt: `y`, `yes`, `n`, `no`,
/// `a` or `all`, in any case; anything else is no reply.
pub open spec fn answer_of(s: Seq<char>) -> Option<Answer> {
    if spells(s, seq!['y'], seq!['Y']) || spells(s, seq!['y', 'e', 's'], seq!['Y', 'E', 'S']) {
        Some(Answer::Yes)
    } else if spells(s, seq!['n'], seq!['N']) || spells(s, seq!['n', 'o'], seq!['N', 'O']) {
        Some(Answer::No)
    } else if spells(s, seq!['a'], seq!['A']) || spells(s, seq!['a', 'l', 'l'], seq!['A', 'L', 'L']) {
        Some(Answer::All)
    } else {
        None
    }
}

fn spells_word(s: &Vec<char>, lower: &Vec<char>, upper: &Vec<char>) -> (r: bool)
    requires
        lower@.len() == upper@.len(),
    ensures
        r == spells(s@, lower@, upper@),
{
    if s.len() != lower.len() {
        return false;
    }
    let mut i: usize = 0;
    while i < s.len()
        invariant
            0 <= i <= s@.len(),
            s@.len() == lower@.len(),
            lower@.len() == upper@.len(),
            forall|t: int| 0 <= t < i ==> letter_is(s@[t], lower@[t], upper@[t]),
        decreases s.len() - i,
    {
        if s[i] != lower[i] && s[i] != upper[i] {
            return false;
        }
        i = i + 1;
    }
    true
}

/// Reads a reply to a prompt from one line of input, without its line end;
/// `None` asks the caller to prompt again.
pub fn parse_answer(line: &Vec<char>) -> (r: Option<Answer>)
    ensures
        r == answer_of(line@),
{
    let y1 = spells_word(line, &vec!['y'], &vec!['Y']);
    let y3 = spells_word(line, &vec!['y', 'e', 's'], &vec!['Y', 'E', 'S']);
    let n1 = spells_word(line, &vec!['n'], &vec!['N']);
    let n2 = spells_word(line, &vec!['n', 'o'], &vec!['N', 'O']);
    let a1 = spells_word(line, &vec!['a'], &vec!['A']);
    let a3 = spells_word(line, &vec!['a', 'l', 'l'], &vec!['A', 'L', 'L']);
    if y1 || y3 {
        Some(Answer::Yes)
    } else if n1 || n2 {
        Some(Answer::No)
    } else if a1 || a3 {
        Some(Answer::All)
    } else {
        None
    }
}

/// Where the current job stands.
#[derive(Clone, Copy, Debug, PartialEq, Eq, Structural)]
pub enum Stage {
    /// Nothing has happened yet.
    Idle,
    /// The current command was shown instead of run.
    Printing,
    /// The user is being asked about the current command.
    Asking,
    /// The current command is running.
    Running,
    /// The cleanup command after the current one is running.
    Cleaning,
    /// The operation is over.
    Finished,
}

/// The state of a run of a plan.
pub struct SessionModel {
    pub plan: Seq<JobModel>,
    pub dry_run: bool,
    pub no_confirm: bool,
    pub no_cache: bool,
    pub index: nat,
    pub stage: Stage,
    pub confirm_all: bool,
    pub outcome: Result<(), Error>,
}

/// The job being worked on.
pub open spec fn current(s: SessionModel) -> JobModel {
    s.plan[s.index as int]
}

/// The argument list of job `i` as it is run.
pub open spec fn prepared_at(s: SessionModel, i: int) -> Seq<Seq<char>> {
    prepared(s.plan[i], s.dry_run, s.no_confirm)
}

/// The state and action on reaching job `i`: past the last job the run
/// succeeds; under a dry run that only shows commands, the command is shown;
/// a custom prompt that nobody waived asks; otherwise the command runs.
pub open spec fn begin(s: SessionModel, i: nat) -> (SessionModel, ActionModel) {
    if i >= s.plan.len() {
        (
            SessionModel { index: i, stage: Stage::Finished, outcome: Ok(()), ..s },
            ActionModel::Finish(Ok(())),
        )
    } else {
        let j = s.plan[i as int];
        if s.dry_run && j.print_only {
            (SessionModel { index: i, stage: Stage::Printing, ..s }, ActionModel::Print(j.argv))
        } else if j.prompt is Custom && !s.no_confirm && !s.confirm_all {
            (
                SessionModel { index: i, stage: Stage::Asking, ..s },
                ActionModel::Ask(prepared_at(s, i as int)),
            )
        } else {
            (
                SessionModel { index: i, stage: Stage::Running, ..s },
                ActionModel::Spawn(prepared_at(s, i as int), j.mode),
            )
        }
    }
}

/// The state and action when the run ends with an error.
pub open spec fn fail(s: SessionModel, e: Error) -> (SessionModel, ActionModel) {
    (SessionModel { stage: Stage::Finished, outcome: Err(e), ..s }, ActionModel::Finish(Err(e)))
}

/// One transition of the engine. An event that does not fit the stage
/// repeats the pending action.
pub open spec fn next(s: SessionModel, e: Event) -> (SessionModel, ActionModel) {
    match s.stage {
        Stage::Idle => begin(s, 0),
        Stage::Printing => begin(s, s.index + 1),
        Stage::Asking => match e {
            Event::Answered(Answer::Yes) => (
                SessionModel { stage: Stage::Running, ..s },
                ActionModel::Spawn(prepared_at(s, s.index as int), current(s).mode),
            ),
            Event::Answered(Answer::All) => (
                SessionModel { stage: Stage::Running, confirm_all: true, ..s },
                ActionModel::Spawn(prepared_at(s, s.index as int), current(s).mode),
            ),
            Event::Answered(Answer::No) => fail(s, Error::PromptCanceled),
            _ => (s, ActionModel::Ask(prepared_at(s, s.index as int))),
        },
        Stage::Running => match e {
            Event::Exited(c) => if c != 0 {
                fail(s, Error::ProcessExitFailure(c))
            } else if s.no_cache && current(s).cleanup is Some {
                (
                    SessionModel { stage: Stage::Cleaning, ..s },
                    ActionModel::Spawn(current(s).cleanup.unwrap(), Mode::Inherit),
                )
            } else {
                begin(s, s.index + 1)
            },
            Event::SpawnFailed => fail(s, Error::ProcessSpawnFailure),
            _ => (s, ActionModel::Spawn(prepared_at(s, s.index as int), current(s).mode)),
        },
        Stage::Cleaning => match e {
            Event::Exited(c) => if c != 0 {
                fail(s, Error::ProcessExitFailure(c))
            } else {
                begin(s, s.index + 1)
            },
            Event::SpawnFailed => fail(s, Error::ProcessSpawnFailure),
            _ => (s, ActionModel::Spawn(current(s).cleanup.unwrap(), Mode::Inherit)),
        },
        Stage::Finished => (s, ActionModel::Finish(s.outcome)),
    }
}

/// The states that the engine can reach.
pub open spec fn reachable(s: SessionModel) -> bool {
    &&& s.index <= s.plan.len()
    &&& (s.stage is Printing || s.stage is Asking || s.stage is Running || s.stage is Cleaning)
        ==> s.index < s.plan.len()
    &&& s.stage is Idle ==> s.index == 0
    &&& s.stage is Asking ==> !s.confirm_all
    &&& s.stage is Cleaning ==> current(s).cleanup is Some
}

/// Runs a plan of jobs, in order, one state machine per job: dry run, then
/// prompt, then the process, then cleanup. The caller performs each action
/// and reports the event; the first failure ends the run.
pub struct Session {
    plan: Vec<Job>,
    dry_run: bool,
    no_confirm: bool,
    no_cache: bool,
    index: usize,
    stage: Stage,
    confirm_all: bool,
    outcome: Result<(), Error>,
}

impl View for Session {
    type V = SessionModel;

    closed spec fn view(&self) -> SessionModel {
        SessionModel {
            plan: jobs_view(self.plan@),
            dry_run: self.dry_run,
            no_confirm: self.no_confirm,
            no_cache: self.no_cache,
            index: self.index as nat,
            stage: self.stage,
            confirm_all: self.confirm_all,
            outcome: self.outcome,
        }
    }
}

impl Session {
    /// A run of `plan` under the switches of `cfg` that has not started.
    pub fn new(plan: Vec<Job>, cfg: &Config) -> (r: Session)
        ensures
            r@.plan == jobs_view(plan@),
            r@.dry_run == cfg.dry_run,
            r@.no_confirm == cfg.no_confirm,
            r@.no_cache == cfg.no_cache,
            r@.index == 0,
            r@.stage == Stage::Idle,
            !r@.confirm_all,
            r@.outcome == Ok::<(), Error>(()),
            reachable(r@),
    {
        Session {
            plan,
            dry_run: cfg.dry_run,
            no_confirm: cfg.no_confirm,
            no_cache: cfg.no_cache,
            index: 0,
            stage: Stage::Idle,
            confirm_all: false,
            outcome: Ok(()),
        }
    }

    /// The number of jobs in the plan.
    pub fn len(&self) -> (r: usize)
        ensures
            r == self@.plan.len(),
    {
        self.plan.len()
    }

    /// Whether the run is over.
    pub fn is_finished(&self) -> (r: bool)
        ensures
            r == (self@.stage == Stage::Finished),
    {
        self.stage == Stage::Finished
    }

    /// Whether the user has waived every later prompt.
    pub fn confirms_all(&self) -> (r: bool)
        ensures
            r == self@.confirm_all,
    {
        self.confirm_all
    }

    /// The outcome so far: success until something failed.
    pub fn outcome(&self) -> (r: Result<(), Error>)
        ensures
            r == self@.outcome,
    {
        self.outcome
    }

    /// The argument list of job `i` as it is run.
    fn prepare(&self, i: usize) -> (r: Vec<String>)
        requires
            i < self@.plan.len(),
        ensures
            strs(r@) == prepared_at(self@, i as int),
    {
        let job = &self.plan[i];
        let mut out = job.cmd.render();
        if self.dry_run {
            match &job.strat.dry_run {
                DryRunStrategy::WithFlags(f) => push_words(&mut out, f),
                DryRunStrategy::PrintCommandOnly => {},
            }
        }
        if self.no_confirm {
            match &job.strat.prompt {
                PromptStrategy::NativePrompt(f) => push_words(&mut out, f),
                _ => {},
            }
        }
        proof {
            let j = self@.plan[i as int];
            assert(j == job@);
            assert(strs(out@) =~= prepared(j, self.dry_run, self.no_confirm));
        }
        out
    }

    /// The cleanup command after job `i`.
    fn cleanup(&self, i: usize) -> (r: Vec<String>)
        requires
            i < self@.plan.len(),
            self@.plan[i as int].cleanup is Some,
        ensures
            strs(r@) == self@.plan[i as int].cleanup.unwrap(),
    {
        let job = &self.plan[i];
        assert(self@.plan[i as int] == job@);
        match &job.strat.no_cache {
            NoCacheStrategy::RunCleanupCommand(c) => c.render(),
            NoCacheStrategy::KeepCache => Vec::new(),
        }
    }

    /// Reaches job `i`.
    fn begin(&mut self, i: usize) -> (r: Action)
        requires
            i <= old(self)@.plan.len(),
        ensures
            (final(self)@, r@) == begin(old(self)@, i as nat),
    {
        if i >= self.plan.len() {
            self.index = i;
            self.stage = Stage::Finished;
            self.outcome = Ok(());
            return Action::Finish(Ok(()));
        }
        let ghost j = self@.plan[i as int];
        assert(j == self.plan@[i as int]@);
        let print_only = match &self.plan[i].strat.dry_run {
            DryRunStrategy::PrintCommandOnly => true,
            _ => false,
        };
        let custom = match &self.plan[i].strat.prompt {
            PromptStrategy::CustomPrompt => true,
            _ => false,
        };
        let mode = self.plan[i].mode;
        if self.dry_run && print_only {
            let argv = self.plan[i].cmd.render();
            self.index = i;
            self.stage = Stage::Printing;
            Action::Print(argv)
        } else if custom && !self.no_confirm && !self.confirm_all {
            let argv = self.prepare(i);
            self.index = i;
            self.stage = Stage::Asking;
            Action::Ask(argv)
        } else {
            let argv = self.prepare(i);
            self.index = i;
            self.stage = Stage::Running;
            Action::Spawn(argv, mode)
        }
    }

    /// Ends the run with an error.
    fn fail(&mut self, e: Error) -> (r: Action)
        ensures
            (final(self)@, r@) == fail(old(self)@, e),
    {
        self.stage = Stage::Finished;
        self.outcome = Err(e);
        Action::Finish(Err(e))
    }

    /// Takes the event that answers the last action and returns the next
    /// action.
    pub fn step(&mut self, e: Event) -> (r: Action)
        requires
            reachable(old(self)@),
        ensures
            (final(self)@, r@) == next(old(self)@, e),
            reachable(final(self)@),
    {
        let n = self.plan.len();
        assert(self@.plan.len() == n);
        match self.stage {
            Stage::Idle => self.begin(0),
            Stage::Printing => self.begin(self.index + 1),
            Stage::Asking => match e {
                Event::Answered(Answer::Yes) => {
                    let argv = self.prepare(self.index);
                    self.stage = Stage::Running;
                    Action::Spawn(argv, self.plan[self.index].mode)
                },
                Event::Answered(Answer::All) => {
                    let argv = self.prepare(self.index);
                    self.stage = Stage::Running;
                    self.confirm_all = true;
                    Action::Spawn(argv, self.plan[self.index].mode)
                },
                Event::Answered(Answer::No) => self.fail(Error::PromptCanceled),
                _ => Action::Ask(self.prepare(self.index)),
            },
            Stage::Running => match e {
                Event::Exited(c) => {
                    if c != 0 {
                        self.fail(Error::ProcessExitFailure(c))
                    } else {
                        let has_cleanup = match &self.plan[self.index].strat.no_cache {
                            NoCacheStrategy::RunCleanupCommand(_) => true,
                            NoCacheStrategy::KeepCache => false,
                        };
                        if self.no_cache && has_cleanup {
                            let argv = self.cleanup(self.index);
                            self.stage = Stage::Cleaning;
                            Action::Spawn(argv, Mode::Inherit)
                        } else {
                            self.begin(self.index + 1)
                        }
                    }
                },
                Event::SpawnFailed => self.fail(Error::ProcessSpawnFailure),
                _ => Action::Spawn(self.prepare(self.index), self.plan[self.index].mode),
            },
            Stage::Cleaning => match e {
                Event::Exited(c) => {
                    if c != 0 {
                        self.fail(Error::ProcessExitFailure(c))
                    } else {
                        self.begin(self.index + 1)
                    }
                },
                Event::SpawnFailed => self.fail(Error::ProcessSpawnFailure),
                _ => Action::Spawn(self.cleanup(self.index), Mode::Inherit),
            },
            Stage::Finished => Action::Finish(self.outcome),
        }
    }
}

/// Under a dry run, a job whose dry run only shows the command is shown and
/// never started: whatever the caller replies, the engine goes on to the next
/// job, and a plan that ends there succeeds.
pub proof fn lemma_print_only_never_spawns(s: SessionModel, i: nat, e: Event)
    requires
        i < s.plan.len(),
        s.dry_run,
        s.plan[i as int].print_only,
    ensures
        begin(s, i).1 == ActionModel::Print(s.plan[i as int].argv),
        next(begin(s, i).0, e) == begin(begin(s, i).0, i + 1),
        i + 1 == s.plan.len() ==> next(begin(s, i).0, e).1 == ActionModel::Finish(Ok(())),
{
}

/// When confirmation is waived, a job with a native prompt runs with the
/// prompt's flags appended exactly once, after its keywords and flags and any
/// dry-run flags, however many keywords it has.
pub proof fn lemma_native_prompt_flags_once(s: SessionModel, i: nat, f: Seq<Seq<char>>)
    requires
        i < s.plan.len(),
        s.no_confirm,
        s.plan[i as int].prompt == PromptModel::Native(f),
        !(s.dry_run && s.plan[i as int].print_only),
    ensures
        begin(s, i).1 == ActionModel::Spawn(
            s.plan[i as int].argv + (if s.dry_run {
                s.plan[i as int].dry_flags
            } else {
                Seq::empty()
            }) + f,
            s.plan[i as int].mode,
        ),
{
}

/// Declining a prompt cancels the operation before its command starts, and
/// nothing runs afterwards.
pub proof fn lemma_declining_cancels(s: SessionModel, e: Event)
    requires
        s.stage is Asking,
    ensures
        next(s, Event::Answered(Answer::No)).1 == ActionModel::Finish(Err(Error::PromptCanceled)),
        next(next(s, Event::Answered(Answer::No)).0, e).1 == ActionModel::Finish(
            Err(Error::PromptCanceled),
        ),
{
}

/// Answering "all" waives every later prompt of the run: the waiver is set,
/// it is kept by every transition, and no transition asks again.
pub proof fn lemma_all_waives_later_prompts(s: SessionModel, e: Event)
    requires
        reachable(s),
    ensures
        s.stage is Asking ==> next(s, Event::Answered(Answer::All)).0.confirm_all,
        s.confirm_all ==> next(s, e).0.confirm_all,
        s.confirm_all ==> !(next(s, e).1 is Ask),
{
}

/// A command that exits with a non-zero code ends the run with that code,
/// and no later command of the plan is ever started.
pub proof fn lemma_failure_stops_the_run(s: SessionModel, c: i32, e: Event)
    requires
        s.stage is Running || s.stage is Cleaning,
        c != 0,
    ensures
        next(s, Event::Exited(c)) == fail(s, Error::ProcessExitFailure(c)),
        next(next(s, Event::Exited(c)).0, e) == (
            next(s, Event::Exited(c)).0,
            ActionModel::Finish(Err(Error::ProcessExitFailure(c))),
        ),
{
}

/// The cleanup command starts exactly when the command succeeded, cache
/// removal is on, and the job has a cleanup command.
pub proof fn lemma_cleanup_after_success_only(s: SessionModel, c: i32)
    requires
        reachable(s),
        s.stage is Running,
    ensures
        next(s, Event::Exited(c)).0.stage is Cleaning <==> (c == 0 && s.no_cache
            && current(s).cleanup is Some),
        next(s, Event::Exited(c)).0.stage is Cleaning ==> next(s, Event::Exited(c)).1
            == ActionModel::Spawn(current(s).cleanup.unwrap(), Mode::Inherit),
{
}

} // verus!
