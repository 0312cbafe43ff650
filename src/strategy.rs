use vstd::prelude::*;

use crate::cmd::{words, Cmd};

verus! {

/// How the output of a child process is handled.
#[derive(Clone, Copy, Debug, PartialEq, Eq, Structural)]
pub enum Mode {
    /// The child shares the terminal.
    Inherit,
    /// Standard output is collected for the caller.
    Capture,
    /// Output is discarded.
    Mute,
    /// Only the exit status is checked.
    CheckAll,
}

/// How a command is confirmed before it runs.
#[derive(Debug)]
pub enum PromptStrategy {
    /// It runs without confirmation.
    Unprompted,
    /// The program asks by itself; these flags answer yes for it.
    NativePrompt(Vec<&'static str>),
    /// The user is asked before the program starts.
    CustomPrompt,
}

/// How a dry run is performed.
#[derive(Debug)]
pub enum DryRunStrategy {
    /// The command is shown and never started.
    PrintCommandOnly,
    /// The program performs the dry run itself when given these flags.
    WithFlags(Vec<&'static str>),
}

/// What follows a successful command when the cache is to be removed.
#[derive(Debug)]
pub enum NoCacheStrategy {
    /// Nothing follows.
    KeepCache,
    /// This command cleans the cache.
    RunCleanupCommand(Cmd),
}

/// The policy attached to one command.
#[derive(Debug)]
pub struct Strategy {
    /// The prompting axis.
    pub prompt: PromptStrategy,
    /// The dry-run axis.
    pub dry_run: DryRunStrategy,
    /// The cache-cleanup axis.
    pub no_cache: NoCacheStrategy,
}

impl Default for Strategy {
    /// No prompt, a dry run that only shows the command, no cleanup.
    fn default() -> (r: Strategy)
        ensures
            r.prompt is Unprompted,
            r.dry_run is PrintCommandOnly,
            r.no_cache is KeepCache,
    {
        Strategy {
            prompt: PromptStrategy::Unprompted,
            dry_run: DryRunStrategy::PrintCommandOnly,
            no_cache: NoCacheStrategy::KeepCache,
        }
    }
}

/// One command together with the mode it runs under and its policy.
#[derive(Debug)]
pub struct Job {
    /// The command.
    pub cmd: Cmd,
    /// How its output is handled.
    pub mode: Mode,
    /// Its policy.
    pub strat: Strategy,
}

/// The prompting axis, as argument lists.
pub enum PromptModel {
    Unprompted,
    Native(Seq<Seq<char>>),
    Custom,
}

/// What the engine needs to know of a job.
pub struct JobModel {
    /// The rendered command.
    pub argv: Seq<Seq<char>>,
    /// The output mode.
    pub mode: Mode,
    /// Whether a dry run only shows the command.
    pub print_only: bool,
    /// Flags that make the program perform a dry run itself.
    pub dry_flags: Seq<Seq<char>>,
    /// The prompting axis.
    pub prompt: PromptModel,
    /// The cleanup command, if any.
    pub cleanup: Option<Seq<Seq<char>>>,
}

impl View for Job {
    type V = JobModel;

    open spec fn view(&self) -> JobModel {
        JobModel {
            argv: self.cmd.argv(),
            mode: self.mode,
            print_only: self.strat.dry_run is PrintCommandOnly,
            dry_flags: match self.strat.dry_run {
                DryRunStrategy::WithFlags(f) => words(f@),
                DryRunStrategy::PrintCommandOnly => Seq::empty(),
            },
            prompt: match self.strat.prompt {
                PromptStrategy::Unprompted => PromptModel::Unprompted,
                PromptStrategy::NativePrompt(f) => PromptModel::Native(words(f@)),
                PromptStrategy::CustomPrompt => PromptModel::Custom,
            },
            cleanup: match self.strat.no_cache {
                NoCacheStrategy::KeepCache => None,
                NoCacheStrategy::RunCleanupCommand(c) => Some(c.argv()),
            },
        }
    }
}

/// The argument list that a job runs with under the given switches: its
/// command, then the dry-run flags when dry-running, then the prompt's
/// answer-yes flags when confirmation is waived.
pub open spec fn prepared(j: JobModel, dry_run: bool, no_confirm: bool) -> Seq<Seq<char>> {
    j.argv + (if dry_run {
        j.dry_flags
    } else {
        Seq::empty()
    }) + (match j.prompt {
        PromptModel::Native(f) => if no_confirm {
            f
        } else {
            Seq::empty()
        },
        _ => Seq::empty(),
    })
}

} // verus!
