use vstd::prelude::*;

use crate::cmd::{argv_of, words, Cmd};
use crate::config::Config;
use crate::error::Error;
use crate::ops::Op;
use crate::pm::{chain, jobs_view, plain, plain_job, single};
use crate::strategy::{
    DryRunStrategy, Job, JobModel, Mode, NoCacheStrategy, PromptModel, PromptStrategy, Strategy,
};

verus! {

/// The Homebrew package manager.
pub struct Brew {
    /// The settings of the invocation.
    pub cfg: Config,
}

/// A job that the user confirms.
pub open spec fn brew_asked(argv: Seq<Seq<char>>) -> JobModel {
    JobModel { prompt: PromptModel::Custom, ..plain(argv) }
}

/// The command that empties Homebrew's cache.
pub open spec fn brew_cleanup() -> Seq<Seq<char>> {
    argv_of(false, seq!["brew", "cleanup", "-s"], Seq::empty(), Seq::empty())
}

/// A job that installs, confirmed by the user and followed by the cache
/// cleanup when asked for.
pub open spec fn brew_installing(argv: Seq<Seq<char>>) -> JobModel {
    JobModel { prompt: PromptModel::Custom, cleanup: Some(brew_cleanup()), ..plain(argv) }
}

/// A cleaning job, confirmed by the user, that Homebrew dry-runs itself.
pub open spec fn brew_cleaning(argv: Seq<Seq<char>>) -> JobModel {
    JobModel {
        prompt: PromptModel::Custom,
        print_only: false,
        dry_flags: words(seq!["--dry-run"]),
        ..plain(argv)
    }
}

/// Lists installed packages of one kind with the output captured, so that
/// the caller keeps only the lines that hold every keyword.
pub open spec fn brew_search(cmd: Seq<&str>, flags: Seq<String>) -> JobModel {
    JobModel { mode: Mode::Capture, ..plain(argv_of(false, cmd, Seq::empty(), flags)) }
}

/// Searching installed packages: the formulae, then, on macOS, the casks.
pub open spec fn brew_searches(macos: bool, flags: Seq<String>) -> Seq<JobModel> {
    seq![brew_search(seq!["brew", "list", "--formula"], flags)] + if macos {
        seq![brew_search(seq!["brew", "list", "--cask"], flags)]
    } else {
        Seq::<JobModel>::empty()
    }
}

/// Installing packages: reinstalling unless only missing ones are wanted.
pub open spec fn brew_install(needed: bool, kws: Seq<String>, flags: Seq<String>) -> JobModel {
    brew_installing(
        argv_of(
            false,
            if needed {
                seq!["brew", "install"]
            } else {
                seq!["brew", "reinstall"]
            },
            kws,
            flags,
        ),
    )
}

/// Refreshing the database, then installing the named packages if any.
pub open spec fn brew_refresh(needed: bool, kws: Seq<String>, flags: Seq<String>) -> Seq<
    JobModel,
> {
    seq![plain(argv_of(false, seq!["brew", "update"], Seq::empty(), flags))] + if kws.len() == 0 {
        Seq::<JobModel>::empty()
    } else {
        seq![brew_install(needed, kws, flags)]
    }
}

/// Upgrading outdated packages, or the named ones.
pub open spec fn brew_upgrade(kws: Seq<String>, flags: Seq<String>) -> Seq<JobModel> {
    seq![brew_installing(argv_of(false, seq!["brew", "upgrade"], kws, flags))]
}

/// Removing packages.
pub open spec fn brew_remove(kws: Seq<String>, flags: Seq<String>) -> Seq<JobModel> {
    seq![brew_asked(argv_of(false, seq!["brew", "uninstall"], kws, flags))]
}

/// The jobs that Homebrew runs for each operation it supports.
pub open spec fn brew_plan(needed: bool, macos: bool, op: Op, kws: Seq<String>, flags: Seq<String>) -> Option<
    Seq<JobModel>,
> {
    match op {
        Op::Q => Some(
            if kws.len() == 0 {
                seq![plain(argv_of(false, seq!["brew", "list"], Seq::empty(), flags))]
            } else {
                brew_searches(macos, flags)
            },
        ),
        Op::Qc => Some(seq![plain(argv_of(false, seq!["brew", "log"], kws, flags))]),
        Op::Qi => Some(seq![plain(argv_of(false, seq!["brew", "info"], kws, flags))]),
        Op::Ql => Some(seq![plain(argv_of(false, seq!["brew", "list"], kws, flags))]),
        Op::Qs => Some(brew_searches(macos, flags)),
        Op::Qu => Some(seq![plain(argv_of(false, seq!["brew", "outdated"], kws, flags))]),
        Op::R => Some(brew_remove(kws, flags)),
        Op::Rs => Some(
            brew_remove(kws, flags) + seq![
                brew_asked(argv_of(false, seq!["brew", "autoremove"], Seq::empty(), flags)),
            ],
        ),
        Op::S => Some(seq![brew_install(needed, kws, flags)]),
        Op::Sc => Some(seq![brew_cleaning(argv_of(false, seq!["brew", "cleanup"], kws, flags))]),
        Op::Scc => Some(
            seq![brew_cleaning(argv_of(false, seq!["brew", "cleanup", "-s"], kws, flags))],
        ),
        Op::Si => Some(seq![plain(argv_of(false, seq!["brew", "info"], kws, flags))]),
        Op::Sii => Some(seq![plain(argv_of(false, seq!["brew", "uses"], kws, flags))]),
        Op::Ss => Some(seq![plain(argv_of(false, seq!["brew", "search"], kws, flags))]),
        Op::Su => Some(brew_upgrade(kws, flags)),
        Op::Suy => Some(brew_refresh(needed, Seq::empty(), flags) + brew_upgrade(kws, flags)),
        Op::Sw => Some(seq![brew_asked(argv_of(false, seq!["brew", "fetch"], kws, flags))]),
        Op::Sy => Some(brew_refresh(needed, kws, flags)),
        _ => None,
    }
}

/// A job that the user confirms.
fn asked(cmd: Cmd) -> (r: Job)
    ensures
        r@ == brew_asked(cmd.argv()),
{
    let strat = Strategy {
        prompt: PromptStrategy::CustomPrompt,
        dry_run: DryRunStrategy::PrintCommandOnly,
        no_cache: NoCacheStrategy::KeepCache,
    };
    Job { cmd, mode: Mode::Inherit, strat }
}

/// A job that installs, with the cache cleanup after it.
fn installing(cmd: Cmd) -> (r: Job)
    ensures
        r@ == brew_installing(cmd.argv()),
{
    let strat = Strategy {
        prompt: PromptStrategy::CustomPrompt,
        dry_run: DryRunStrategy::PrintCommandOnly,
        no_cache: NoCacheStrategy::RunCleanupCommand(Cmd::new(vec!["brew", "cleanup", "-s"])),
    };
    let r = Job { cmd, mode: Mode::Inherit, strat };
    assert(r@.cleanup == Some(brew_cleanup()));
    r
}

/// A cleaning job that Homebrew dry-runs itself.
fn cleaning(cmd: Cmd) -> (r: Job)
    ensures
        r@ == brew_cleaning(cmd.argv()),
{
    let dry: Vec<&'static str> = vec!["--dry-run"];
    assert(dry@ =~= seq!["--dry-run"]);
    let strat = Strategy {
        prompt: PromptStrategy::CustomPrompt,
        dry_run: DryRunStrategy::WithFlags(dry),
        no_cache: NoCacheStrategy::KeepCache,
    };
    let r = Job { cmd, mode: Mode::Inherit, strat };
    assert(r@.dry_flags == words(seq!["--dry-run"]));
    r
}

impl Brew {
    /// The jobs of `op` with these keywords and flags, or none where Homebrew
    /// has no such operation.
    pub open spec fn plan_of(&self, op: Op, kws: Seq<String>, flags: Seq<String>) -> Option<
        Seq<JobModel>,
    > {
        brew_plan(self.cfg.needed, self.cfg.macos, op, kws, flags)
    }

    /// Homebrew under these settings.
    pub fn new(cfg: Config) -> (r: Brew)
        ensures
            r.cfg == cfg,
    {
        Brew { cfg }
    }

    /// The name of the package manager.
    pub fn name(&self) -> (r: &'static str)
        ensures
            r@ == seq!['b', 'r', 'e', 'w'],
    {
        proof {
            reveal_strlit("brew");
        }
        "brew"
    }

    /// The settings of the invocation.
    pub fn cfg(&self) -> (r: &Config)
        ensures
            r == &self.cfg,
    {
        &self.cfg
    }

    /// Lists installed packages with `cmd`, captured for filtering by
    /// keyword.
    fn search_regex(&self, cmd: Vec<&'static str>, flags: &Vec<String>) -> (r: Vec<Job>)
        ensures
            jobs_view(r@) == seq![brew_search(cmd@, flags@)],
    {
        let cmd = Cmd::new(cmd).flags(flags);
        single(Job { cmd, mode: Mode::Capture, strat: Strategy::default() })
    }

    /// Lists installed packages, or searches them when keywords are given.
    pub fn q(&self, kws: &Vec<String>, flags: &Vec<String>) -> (r: Vec<Job>)
        ensures
            jobs_view(r@) == self.plan_of(Op::Q, kws@, flags@).unwrap(),
    {
        if kws.len() == 0 {
            single(plain_job(Cmd::new(vec!["brew", "list"]).flags(flags)))
        } else {
            self.qs(kws, flags)
        }
    }

    /// Shows the changelog of a package.
    pub fn qc(&self, kws: &Vec<String>, flags: &Vec<String>) -> (r: Vec<Job>)
        ensures
            jobs_view(r@) == self.plan_of(Op::Qc, kws@, flags@).unwrap(),
    {
        single(plain_job(Cmd::new(vec!["brew", "log"]).kws(kws).flags(flags)))
    }

    /// Displays package information.
    pub fn qi(&self, kws: &Vec<String>, flags: &Vec<String>) -> (r: Vec<Job>)
        ensures
            jobs_view(r@) == self.plan_of(Op::Qi, kws@, flags@).unwrap(),
    {
        self.si(kws, flags)
    }

    /// Lists the files of installed packages.
    pub fn ql(&self, kws: &Vec<String>, flags: &Vec<String>) -> (r: Vec<Job>)
        ensures
            jobs_view(r@) == self.plan_of(Op::Ql, kws@, flags@).unwrap(),
    {
        single(plain_job(Cmd::new(vec!["brew", "list"]).kws(kws).flags(flags)))
    }

    /// Searches installed packages: every keyword must match.
    pub fn qs(&self, kws: &Vec<String>, flags: &Vec<String>) -> (r: Vec<Job>)
        ensures
            jobs_view(r@) == self.plan_of(Op::Qs, kws@, flags@).unwrap(),
    {
        let formulae = self.search_regex(vec!["brew", "list", "--formula"], flags);
        if self.cfg.macos {
            chain(formulae, self.search_regex(vec!["brew", "list", "--cask"], flags))
        } else {
            let r = chain(formulae, Vec::new());
            assert(jobs_view(r@) =~= brew_searches(false, flags@));
            r
        }
    }

    /// Lists outdated packages.
    pub fn qu(&self, kws: &Vec<String>, flags: &Vec<String>) -> (r: Vec<Job>)
        ensures
            jobs_view(r@) == self.plan_of(Op::Qu, kws@, flags@).unwrap(),
    {
        single(plain_job(Cmd::new(vec!["brew", "outdated"]).kws(kws).flags(flags)))
    }

    /// Removes packages.
    pub fn r(&self, kws: &Vec<String>, flags: &Vec<String>) -> (r: Vec<Job>)
        ensures
            jobs_view(r@) == self.plan_of(Op::R, kws@, flags@).unwrap(),
    {
        single(asked(Cmd::new(vec!["brew", "uninstall"]).kws(kws).flags(flags)))
    }

    /// Removes packages, then the dependencies that nothing needs any more.
    pub fn rs(&self, kws: &Vec<String>, flags: &Vec<String>) -> (r: Vec<Job>)
        ensures
            jobs_view(r@) == self.plan_of(Op::Rs, kws@, flags@).unwrap(),
    {
        chain(self.r(kws, flags), single(asked(Cmd::new(vec!["brew", "autoremove"]).flags(flags))))
    }

    /// Installs packages by name.
    pub fn s(&self, kws: &Vec<String>, flags: &Vec<String>) -> (r: Vec<Job>)
        ensures
            jobs_view(r@) == self.plan_of(Op::S, kws@, flags@).unwrap(),
    {
        let base = if self.cfg.needed {
            vec!["brew", "install"]
        } else {
            vec!["brew", "reinstall"]
        };
        single(installing(Cmd::new(base).kws(kws).flags(flags)))
    }

    /// Cleans old versions out of the cache.
    pub fn sc(&self, kws: &Vec<String>, flags: &Vec<String>) -> (r: Vec<Job>)
        ensures
            jobs_view(r@) == self.plan_of(Op::Sc, kws@, flags@).unwrap(),
    {
        single(cleaning(Cmd::new(vec!["brew", "cleanup"]).kws(kws).flags(flags)))
    }

    /// Removes every file from the cache.
    pub fn scc(&self, kws: &Vec<String>, flags: &Vec<String>) -> (r: Vec<Job>)
        ensures
            jobs_view(r@) == self.plan_of(Op::Scc, kws@, flags@).unwrap(),
    {
        single(cleaning(Cmd::new(vec!["brew", "cleanup", "-s"]).kws(kws).flags(flags)))
    }

    /// Displays package information.
    pub fn si(&self, kws: &Vec<String>, flags: &Vec<String>) -> (r: Vec<Job>)
        ensures
            jobs_view(r@) == self.plan_of(Op::Si, kws@, flags@).unwrap(),
    {
        single(plain_job(Cmd::new(vec!["brew", "info"]).kws(kws).flags(flags)))
    }

    /// Displays the packages that use the given ones.
    pub fn sii(&self, kws: &Vec<String>, flags: &Vec<String>) -> (r: Vec<Job>)
        ensures
            jobs_view(r@) == self.plan_of(Op::Sii, kws@, flags@).unwrap(),
    {
        single(plain_job(Cmd::new(vec!["brew", "uses"]).kws(kws).flags(flags)))
    }

    /// Searches available packages.
    pub fn ss(&self, kws: &Vec<String>, flags: &Vec<String>) -> (r: Vec<Job>)
        ensures
            jobs_view(r@) == self.plan_of(Op::Ss, kws@, flags@).unwrap(),
    {
        single(plain_job(Cmd::new(vec!["brew", "search"]).kws(kws).flags(flags)))
    }

    /// Upgrades outdated packages, or the named ones.
    pub fn su(&self, kws: &Vec<String>, flags: &Vec<String>) -> (r: Vec<Job>)
        ensures
            jobs_view(r@) == self.plan_of(Op::Su, kws@, flags@).unwrap(),
    {
        single(installing(Cmd::new(vec!["brew", "upgrade"]).kws(kws).flags(flags)))
    }

    /// Refreshes the database, then upgrades.
    pub fn suy(&self, kws: &Vec<String>, flags: &Vec<String>) -> (r: Vec<Job>)
        ensures
            jobs_view(r@) == self.plan_of(Op::Suy, kws@, flags@).unwrap(),
    {
        let none: Vec<String> = Vec::new();
        chain(self.sy(&none, flags), self.su(kws, flags))
    }

    /// Downloads packages without installing them.
    pub fn sw(&self, kws: &Vec<String>, flags: &Vec<String>) -> (r: Vec<Job>)
        ensures
            jobs_view(r@) == self.plan_of(Op::Sw, kws@, flags@).unwrap(),
    {
        single(asked(Cmd::new(vec!["brew", "fetch"]).kws(kws).flags(flags)))
    }

    /// Refreshes the database, then installs the named packages if any.
    pub fn sy(&self, kws: &Vec<String>, flags: &Vec<String>) -> (r: Vec<Job>)
        ensures
            jobs_view(r@) == self.plan_of(Op::Sy, kws@, flags@).unwrap(),
    {
        let update = single(plain_job(Cmd::new(vec!["brew", "update"]).flags(flags)));
        if kws.len() == 0 {
            let r = chain(update, Vec::new());
            assert(jobs_view(r@) =~= brew_refresh(self.cfg.needed, kws@, flags@));
            r
        } else {
            chain(update, self.s(kws, flags))
        }
    }

    /// The jobs of `op`, in order; `BackendUnsupportedOperation` where
    /// Homebrew has no such operation.
    pub fn plan(&self, op: Op, kws: &Vec<String>, flags: &Vec<String>) -> (r: Result<
        Vec<Job>,
        Error,
    >)
        ensures
            match self.plan_of(op, kws@, flags@) {
                Some(p) => r is Ok && jobs_view(r->Ok_0@) == p,
                None => r == Err::<Vec<Job>, Error>(Error::BackendUnsupportedOperation),
            },
    {
        match op {
            Op::Q => Ok(self.q(kws, flags)),
            Op::Qc => Ok(self.qc(kws, flags)),
            Op::Qi => Ok(self.qi(kws, flags)),
            Op::Ql => Ok(self.ql(kws, flags)),
            Op::Qs => Ok(self.qs(kws, flags)),
            Op::Qu => Ok(self.qu(kws, flags)),
            Op::R => Ok(self.r(kws, flags)),
            Op::Rs => Ok(self.rs(kws, flags)),
            Op::S => Ok(self.s(kws, flags)),
            Op::Sc => Ok(self.sc(kws, flags)),
            Op::Scc => Ok(self.scc(kws, flags)),
            Op::Si => Ok(self.si(kws, flags)),
            Op::Sii => Ok(self.sii(kws, flags)),
            Op::Ss => Ok(self.ss(kws, flags)),
            Op::Su => Ok(self.su(kws, flags)),
            Op::Suy => Ok(self.suy(kws, flags)),
            Op::Sw => Ok(self.sw(kws, flags)),
            Op::Sy => Ok(self.sy(kws, flags)),
            _ => Err(Error::BackendUnsupportedOperation),
        }
    }
}

} // verus!
