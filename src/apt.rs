use vstd::prelude::*;

use crate::cmd::{argv_of, words, Cmd};
use crate::config::Config;
use crate::error::Error;
use crate::ops::Op;
use crate::pm::{chain, jobs_view, plain, plain_job, single};
use crate::strategy::{
    DryRunStrategy, Job, JobModel, Mode, NoCacheStrategy, PromptModel, PromptStrategy, Strategy,
};

verus! {

/// The Debian package manager, `apt`, with `dpkg` for local queries.
pub struct Apt {
    /// The settings of the invocation.
    pub cfg: Config,
}

/// The flags that answer yes to apt's own prompt.
pub open spec fn apt_yes() -> PromptModel {
    PromptModel::Native(words(seq!["--yes"]))
}

/// The command that empties apt's cache.
pub open spec fn apt_cleanup() -> Seq<Seq<char>> {
    argv_of(true, seq!["apt", "autoclean"], Seq::empty(), Seq::empty())
}

/// A job that apt confirms by itself.
pub open spec fn apt_prompted(argv: Seq<Seq<char>>) -> JobModel {
    JobModel { prompt: apt_yes(), ..plain(argv) }
}

/// A job that installs, confirmed by apt itself and followed by the cache
/// cleanup when asked for.
pub open spec fn apt_installing(argv: Seq<Seq<char>>) -> JobModel {
    JobModel { prompt: apt_yes(), cleanup: Some(apt_cleanup()), ..plain(argv) }
}

/// Installing packages: reinstalling unless only missing ones are wanted.
pub open spec fn apt_install(needed: bool, kws: Seq<String>, flags: Seq<String>) -> JobModel {
    apt_installing(
        argv_of(
            true,
            if needed {
                seq!["apt", "install"]
            } else {
                seq!["apt", "install", "--reinstall"]
            },
            kws,
            flags,
        ),
    )
}

/// Upgrading: everything when no package is named, else installing them.
pub open spec fn apt_upgrade(needed: bool, kws: Seq<String>, flags: Seq<String>) -> Seq<JobModel> {
    if kws.len() == 0 {
        seq![
            apt_prompted(argv_of(true, seq!["apt", "upgrade"], Seq::empty(), flags)),
            apt_installing(argv_of(true, seq!["apt", "dist-upgrade"], Seq::empty(), flags)),
        ]
    } else {
        seq![apt_install(needed, kws, flags)]
    }
}

/// Refreshing the database, then installing the named packages if any.
pub open spec fn apt_refresh(needed: bool, kws: Seq<String>, flags: Seq<String>) -> Seq<JobModel> {
    seq![plain(argv_of(true, seq!["apt", "update"], kws, flags))] + if kws.len() == 0 {
        Seq::<JobModel>::empty()
    } else {
        seq![apt_install(needed, kws, flags)]
    }
}

/// The jobs that apt runs for each operation it supports.
pub open spec fn apt_plan(needed: bool, op: Op, kws: Seq<String>, flags: Seq<String>) -> Option<
    Seq<JobModel>,
> {
    match op {
        Op::Q => Some(seq![plain(argv_of(false, seq!["apt", "list"], kws, flags))]),
        Op::Qi => Some(seq![plain(argv_of(false, seq!["dpkg-query", "-s"], kws, flags))]),
        Op::Qo => Some(seq![plain(argv_of(false, seq!["dpkg-query", "-S"], kws, flags))]),
        Op::Qp => Some(seq![plain(argv_of(false, seq!["dpkg-deb", "-I"], kws, flags))]),
        Op::Qu => Some(
            seq![plain(argv_of(true, seq!["apt", "upgrade", "--trivial-only"], kws, flags))],
        ),
        Op::R => Some(seq![apt_prompted(argv_of(true, seq!["apt", "remove"], kws, flags))]),
        Op::Rn => Some(seq![apt_prompted(argv_of(true, seq!["apt", "purge"], kws, flags))]),
        Op::Rns => Some(
            seq![apt_prompted(argv_of(true, seq!["apt", "autoremove", "--purge"], kws, flags))],
        ),
        Op::Rs => Some(seq![apt_prompted(argv_of(true, seq!["apt", "autoremove"], kws, flags))]),
        Op::S => Some(seq![apt_install(needed, kws, flags)]),
        Op::Sc => Some(seq![apt_prompted(argv_of(true, seq!["apt", "clean"], kws, flags))]),
        Op::Scc => Some(seq![apt_prompted(argv_of(true, seq!["apt", "autoclean"], kws, flags))]),
        Op::Si => Some(seq![plain(argv_of(false, seq!["apt", "show"], kws, flags))]),
        Op::Sii => Some(seq![plain(argv_of(false, seq!["apt", "rdepends"], kws, flags))]),
        Op::Ss => Some(seq![plain(argv_of(false, seq!["apt", "search"], kws, flags))]),
        Op::Su => Some(apt_upgrade(needed, kws, flags)),
        Op::Suy => Some(apt_refresh(needed, kws, flags) + apt_upgrade(needed, kws, flags)),
        Op::Sw => Some(
            seq![plain(argv_of(true, seq!["apt", "install", "--download-only"], kws, flags))],
        ),
        Op::Sy => Some(apt_refresh(needed, kws, flags)),
        _ => None,
    }
}

/// A job that apt confirms by itself.
fn prompted(cmd: Cmd) -> (r: Job)
    ensures
        r@ == apt_prompted(cmd.argv()),
{
    let yes: Vec<&'static str> = vec!["--yes"];
    assert(yes@ =~= seq!["--yes"]);
    let strat = Strategy {
        prompt: PromptStrategy::NativePrompt(yes),
        dry_run: DryRunStrategy::PrintCommandOnly,
        no_cache: NoCacheStrategy::KeepCache,
    };
    let r = Job { cmd, mode: Mode::Inherit, strat };
    assert(r@.prompt == apt_yes());
    r
}

/// A job that installs, with the cache cleanup after it.
fn installing(cmd: Cmd) -> (r: Job)
    ensures
        r@ == apt_installing(cmd.argv()),
{
    let yes: Vec<&'static str> = vec!["--yes"];
    assert(yes@ =~= seq!["--yes"]);
    let strat = Strategy {
        prompt: PromptStrategy::NativePrompt(yes),
        dry_run: DryRunStrategy::PrintCommandOnly,
        no_cache: NoCacheStrategy::RunCleanupCommand(Cmd::with_sudo(vec!["apt", "autoclean"])),
    };
    let r = Job { cmd, mode: Mode::Inherit, strat };
    assert(r@.prompt == apt_yes());
    assert(r@.cleanup == Some(apt_cleanup()));
    r
}

impl Apt {
    /// The jobs of `op` with these keywords and flags, or
    /// `BackendUnsupportedOperation` where apt has no such operation.
    pub open spec fn plan_of(&self, op: Op, kws: Seq<String>, flags: Seq<String>) -> Option<
        Seq<JobModel>,
    > {
        apt_plan(self.cfg.needed, op, kws, flags)
    }

    /// The name of the package manager.
    pub fn name(&self) -> (r: &'static str)
        ensures
            r@ == seq!['a', 'p', 't'],
    {
        proof {
            reveal_strlit("apt");
        }
        "apt"
    }

    /// The settings of the invocation.
    pub fn cfg(&self) -> (r: &Config)
        ensures
            r == &self.cfg,
    {
        &self.cfg
    }

    /// Lists installed packages.
    pub fn q(&self, kws: &Vec<String>, flags: &Vec<String>) -> (r: Vec<Job>)
        ensures
            jobs_view(r@) == self.plan_of(Op::Q, kws@, flags@).unwrap(),
    {
        single(plain_job(Cmd::new(vec!["apt", "list"]).kws(kws).flags(flags)))
    }

    /// Displays local package information.
    pub fn qi(&self, kws: &Vec<String>, flags: &Vec<String>) -> (r: Vec<Job>)
        ensures
            jobs_view(r@) == self.plan_of(Op::Qi, kws@, flags@).unwrap(),
    {
        single(plain_job(Cmd::new(vec!["dpkg-query", "-s"]).kws(kws).flags(flags)))
    }

    /// Finds the package that provides a file.
    pub fn qo(&self, kws: &Vec<String>, flags: &Vec<String>) -> (r: Vec<Job>)
        ensures
            jobs_view(r@) == self.plan_of(Op::Qo, kws@, flags@).unwrap(),
    {
        single(plain_job(Cmd::new(vec!["dpkg-query", "-S"]).kws(kws).flags(flags)))
    }

    /// Queries a package file rather than the database.
    pub fn qp(&self, kws: &Vec<String>, flags: &Vec<String>) -> (r: Vec<Job>)
        ensures
            jobs_view(r@) == self.plan_of(Op::Qp, kws@, flags@).unwrap(),
    {
        single(plain_job(Cmd::new(vec!["dpkg-deb", "-I"]).kws(kws).flags(flags)))
    }

    /// Lists packages that have an update available.
    pub fn qu(&self, kws: &Vec<String>, flags: &Vec<String>) -> (r: Vec<Job>)
        ensures
            jobs_view(r@) == self.plan_of(Op::Qu, kws@, flags@).unwrap(),
    {
        single(
            plain_job(
                Cmd::with_sudo(vec!["apt", "upgrade", "--trivial-only"]).kws(kws).flags(flags),
            ),
        )
    }

    /// Removes packages, leaving their dependencies.
    pub fn r(&self, kws: &Vec<String>, flags: &Vec<String>) -> (r: Vec<Job>)
        ensures
            jobs_view(r@) == self.plan_of(Op::R, kws@, flags@).unwrap(),
    {
        single(prompted(Cmd::with_sudo(vec!["apt", "remove"]).kws(kws).flags(flags)))
    }

    /// Removes packages without keeping configuration backups.
    pub fn rn(&self, kws: &Vec<String>, flags: &Vec<String>) -> (r: Vec<Job>)
        ensures
            jobs_view(r@) == self.plan_of(Op::Rn, kws@, flags@).unwrap(),
    {
        single(prompted(Cmd::with_sudo(vec!["apt", "purge"]).kws(kws).flags(flags)))
    }

    /// Removes packages with unneeded dependencies and without backups.
    pub fn rns(&self, kws: &Vec<String>, flags: &Vec<String>) -> (r: Vec<Job>)
        ensures
            jobs_view(r@) == self.plan_of(Op::Rns, kws@, flags@).unwrap(),
    {
        single(prompted(Cmd::with_sudo(vec!["apt", "autoremove", "--purge"]).kws(kws).flags(flags)))
    }

    /// Removes packages with their dependencies that nothing else requires.
    pub fn rs(&self, kws: &Vec<String>, flags: &Vec<String>) -> (r: Vec<Job>)
        ensures
            jobs_view(r@) == self.plan_of(Op::Rs, kws@, flags@).unwrap(),
    {
        single(prompted(Cmd::with_sudo(vec!["apt", "autoremove"]).kws(kws).flags(flags)))
    }

    /// Installs packages by name.
    pub fn s(&self, kws: &Vec<String>, flags: &Vec<String>) -> (r: Vec<Job>)
        ensures
            jobs_view(r@) == self.plan_of(Op::S, kws@, flags@).unwrap(),
    {
        let base = if self.cfg.needed {
            vec!["apt", "install"]
        } else {
            vec!["apt", "install", "--reinstall"]
        };
        single(installing(Cmd::with_sudo(base).kws(kws).flags(flags)))
    }

    /// Cleans cached packages that are not installed.
    pub fn sc(&self, kws: &Vec<String>, flags: &Vec<String>) -> (r: Vec<Job>)
        ensures
            jobs_view(r@) == self.plan_of(Op::Sc, kws@, flags@).unwrap(),
    {
        single(prompted(Cmd::with_sudo(vec!["apt", "clean"]).kws(kws).flags(flags)))
    }

    /// Removes every file from the cache.
    pub fn scc(&self, kws: &Vec<String>, flags: &Vec<String>) -> (r: Vec<Job>)
        ensures
            jobs_view(r@) == self.plan_of(Op::Scc, kws@, flags@).unwrap(),
    {
        single(prompted(Cmd::with_sudo(vec!["apt", "autoclean"]).kws(kws).flags(flags)))
    }

    /// Displays remote package information.
    pub fn si(&self, kws: &Vec<String>, flags: &Vec<String>) -> (r: Vec<Job>)
        ensures
            jobs_view(r@) == self.plan_of(Op::Si, kws@, flags@).unwrap(),
    {
        single(plain_job(Cmd::new(vec!["apt", "show"]).kws(kws).flags(flags)))
    }

    /// Displays reverse dependencies.
    pub fn sii(&self, kws: &Vec<String>, flags: &Vec<String>) -> (r: Vec<Job>)
        ensures
            jobs_view(r@) == self.plan_of(Op::Sii, kws@, flags@).unwrap(),
    {
        single(plain_job(Cmd::new(vec!["apt", "rdepends"]).kws(kws).flags(flags)))
    }

    /// Searches remote packages.
    pub fn ss(&self, kws: &Vec<String>, flags: &Vec<String>) -> (r: Vec<Job>)
        ensures
            jobs_view(r@) == self.plan_of(Op::Ss, kws@, flags@).unwrap(),
    {
        single(plain_job(Cmd::new(vec!["apt", "search"]).kws(kws).flags(flags)))
    }

    /// Upgrades everything, or installs the named packages.
    pub fn su(&self, kws: &Vec<String>, flags: &Vec<String>) -> (r: Vec<Job>)
        ensures
            jobs_view(r@) == self.plan_of(Op::Su, kws@, flags@).unwrap(),
    {
        if kws.len() == 0 {
            let upgrade = prompted(Cmd::with_sudo(vec!["apt", "upgrade"]).flags(flags));
            let dist = installing(Cmd::with_sudo(vec!["apt", "dist-upgrade"]).flags(flags));
            let r = chain(single(upgrade), single(dist));
            assert(jobs_view(r@) =~= apt_upgrade(self.cfg.needed, kws@, flags@));
            r
        } else {
            self.s(kws, flags)
        }
    }

    /// Refreshes the database, then upgrades.
    pub fn suy(&self, kws: &Vec<String>, flags: &Vec<String>) -> (r: Vec<Job>)
        ensures
            jobs_view(r@) == self.plan_of(Op::Suy, kws@, flags@).unwrap(),
    {
        chain(self.sy(kws, flags), self.su(kws, flags))
    }

    /// Downloads packages without installing them.
    pub fn sw(&self, kws: &Vec<String>, flags: &Vec<String>) -> (r: Vec<Job>)
        ensures
            jobs_view(r@) == self.plan_of(Op::Sw, kws@, flags@).unwrap(),
    {
        single(
            plain_job(
                Cmd::with_sudo(vec!["apt", "install", "--download-only"]).kws(kws).flags(flags),
            ),
        )
    }

    /// Refreshes the database, then installs the named packages if any.
    pub fn sy(&self, kws: &Vec<String>, flags: &Vec<String>) -> (r: Vec<Job>)
        ensures
            jobs_view(r@) == self.plan_of(Op::Sy, kws@, flags@).unwrap(),
    {
        let update = single(plain_job(Cmd::with_sudo(vec!["apt", "update"]).kws(kws).flags(flags)));
        if kws.len() == 0 {
            let r = chain(update, Vec::new());
            assert(jobs_view(r@) =~= apt_refresh(self.cfg.needed, kws@, flags@));
            r
        } else {
            chain(update, self.s(kws, flags))
        }
    }

    /// The jobs of `op`, in order; `BackendUnsupportedOperation` where apt
    /// has no such operation.
    pub fn plan(&self, op: Op, kws: &Vec<String>, flags: &Vec<String>) -> (r: Result<
        Vec<Job>,
        Error,
    >)
        ensures
            match self.plan_of(op, kws@, flags@) {
                Some(p) => r is Ok && jobs_view(r->Ok_0@) == p,
                None => r == Err::<Vec<Job>, Error>(Error::BackendUnsupportedOperation),
            },
    {
        match op {
            Op::Q => Ok(self.q(kws, flags)),
            Op::Qi => Ok(self.qi(kws, flags)),
            Op::Qo => Ok(self.qo(kws, flags)),
            Op::Qp => Ok(self.qp(kws, flags)),
            Op::Qu => Ok(self.qu(kws, flags)),
            Op::R => Ok(self.r(kws, flags)),
            Op::Rn => Ok(self.rn(kws, flags)),
            Op::Rns => Ok(self.rns(kws, flags)),
            Op::Rs => Ok(self.rs(kws, flags)),
            Op::S => Ok(self.s(kws, flags)),
            Op::Sc => Ok(self.sc(kws, flags)),
            Op::Scc => Ok(self.scc(kws, flags)),
            Op::Si => Ok(self.si(kws, flags)),
            Op::Sii => Ok(self.sii(kws, flags)),
            Op::Ss => Ok(self.ss(kws, flags)),
            Op::Su => Ok(self.su(kws, flags)),
            Op::Suy => Ok(self.suy(kws, flags)),
            Op::Sw => Ok(self.sw(kws, flags)),
            Op::Sy => Ok(self.sy(kws, flags)),
            _ => Err(Error::BackendUnsupportedOperation),
        }
    }
}

} // verus!
