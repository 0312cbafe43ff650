use vstd::prelude::*;

use crate::apt::{apt_plan, Apt};
use crate::brew::{brew_plan, Brew};
use crate::config::Config;
use crate::error::Error;
use crate::exec::{Session, SessionModel, Stage};
use crate::ops::{identifies, identify, Op};
use crate::pm::jobs_view;
use crate::strategy::{Job, JobModel};

verus! {

/// The letter `c` if the flag is set.
pub open spec fn flag(set: bool, c: char) -> Seq<char> {
    if set {
        seq![c]
    } else {
        Seq::empty()
    }
}

/// The letter `c` once for each time a counted flag was given.
pub open spec fn counted(n: u32, c: char) -> Seq<char> {
    Seq::new(n as nat, |_i: int| c)
}

fn push_flag(v: &mut Vec<char>, set: bool, c: char)
    ensures
        final(v)@ == old(v)@ + flag(set, c),
{
    if set {
        v.push(c);
    }
    assert(final(v)@ =~= old(v)@ + flag(set, c));
}

fn push_counted(v: &mut Vec<char>, n: u32, c: char)
    ensures
        final(v)@ == old(v)@ + counted(n, c),
{
    let ghost start = v@;
    let mut i: u32 = 0;
    while i < n
        invariant
            0 <= i <= n,
            v@ == start + counted(i, c),
        decreases n - i,
    {
        v.push(c);
        i = i + 1;
        assert(v@ =~= start + counted(i, c));
    }
}

/// The main operation, with its flags and flag counters.
#[derive(Clone, Copy, Debug, PartialEq, Eq, Structural)]
pub enum Operations {
    /// Query the package database.
    Query {
        /// The changelog of a package.
        c: bool,
        /// Explicitly installed packages only.
        e: bool,
        /// Package information; given twice for more.
        i: u32,
        /// Check the files of packages.
        k: bool,
        /// The files of packages.
        l: bool,
        /// Packages that no source provides.
        m: bool,
        /// The package that owns a file.
        o: bool,
        /// The package is a file.
        p: bool,
        /// Search installed packages.
        s: bool,
        /// Out-of-date packages.
        u: bool,
    },
    /// Remove packages.
    Remove {
        /// Do not keep configuration backups.
        n: bool,
        /// Only show what would be done.
        p: bool,
        /// Remove dependencies too; given twice for more.
        s: u32,
    },
    /// Synchronize packages.
    Sync {
        /// Clean the cache; given more often for more.
        c: u32,
        /// The members of groups.
        g: bool,
        /// Package information; given twice for more.
        i: u32,
        /// Every package of the repositories.
        l: bool,
        /// Only show what would be done.
        p: bool,
        /// Search the repositories.
        s: bool,
        /// Upgrade installed packages.
        u: bool,
        /// Download only.
        w: bool,
        /// Refresh the database.
        y: bool,
    },
    /// Install packages from files.
    Update {
        /// Only show what would be done.
        p: bool,
    },
}

impl Operations {
    /// The operation's own letter.
    pub open spec fn lead(self) -> char {
        match self {
            Operations::Query { .. } => 'q',
            Operations::Remove { .. } => 'r',
            Operations::Sync { .. } => 's',
            Operations::Update { .. } => 'u',
        }
    }

    /// The letters that the flags contribute, in the order they are
    /// collected; the preview flag contributes none.
    pub open spec fn letters(self) -> Seq<char> {
        match self {
            Operations::Query { c, e, i, k, l, m, o, p, s, u } => flag(c, 'c') + flag(e, 'e') + flag(
                k,
                'k',
            ) + flag(l, 'l') + flag(m, 'm') + flag(o, 'o') + flag(p, 'p') + flag(s, 's') + flag(
                u,
                'u',
            ) + counted(i, 'i'),
            Operations::Remove { n, p, s } => flag(n, 'n') + counted(s, 's'),
            Operations::Sync { c, g, i, l, p, s, u, w, y } => flag(g, 'g') + flag(l, 'l') + flag(
                s,
                's',
            ) + flag(u, 'u') + flag(w, 'w') + flag(y, 'y') + counted(c, 'c') + counted(i, 'i'),
            Operations::Update { p } => Seq::empty(),
        }
    }

    /// Whether the preview flag is given, which turns on the dry run.
    pub open spec fn previews(self) -> bool {
        match self {
            Operations::Query { .. } => false,
            Operations::Remove { p, .. } => p,
            Operations::Sync { p, .. } => p,
            Operations::Update { p } => p,
        }
    }

    /// Whether these flags select `op`.
    pub open spec fn selects(self, op: Op) -> bool {
        identifies(self.lead(), self.letters(), op)
    }

    /// The operation's own letter.
    pub fn lead_letter(&self) -> (r: char)
        ensures
            r == self.lead(),
    {
        match self {
            Operations::Query { .. } => 'q',
            Operations::Remove { .. } => 'r',
            Operations::Sync { .. } => 's',
            Operations::Update { .. } => 'u',
        }
    }

    /// Collects the letters of the flags.
    pub fn collect_letters(&self) -> (r: Vec<char>)
        ensures
            r@ == self.letters(),
    {
        let mut v: Vec<char> = Vec::new();
        match *self {
            Operations::Query { c, e, i, k, l, m, o, p, s, u } => {
                push_flag(&mut v, c, 'c');
                push_flag(&mut v, e, 'e');
                push_flag(&mut v, k, 'k');
                push_flag(&mut v, l, 'l');
                push_flag(&mut v, m, 'm');
                push_flag(&mut v, o, 'o');
                push_flag(&mut v, p, 'p');
                push_flag(&mut v, s, 's');
                push_flag(&mut v, u, 'u');
                push_counted(&mut v, i, 'i');
            },
            Operations::Remove { n, p, s } => {
                push_flag(&mut v, n, 'n');
                push_counted(&mut v, s, 's');
            },
            Operations::Sync { c, g, i, l, p, s, u, w, y } => {
                push_flag(&mut v, g, 'g');
                push_flag(&mut v, l, 'l');
                push_flag(&mut v, s, 's');
                push_flag(&mut v, u, 'u');
                push_flag(&mut v, w, 'w');
                push_flag(&mut v, y, 'y');
                push_counted(&mut v, c, 'c');
                push_counted(&mut v, i, 'i');
            },
            Operations::Update { p } => {},
        }
        assert(v@ =~= self.letters());
        v
    }

    /// Whether the preview flag is given.
    pub fn sets_dry_run(&self) -> (r: bool)
        ensures
            r == self.previews(),
    {
        match self {
            Operations::Query { .. } => false,
            Operations::Remove { p, .. } => *p,
            Operations::Sync { p, .. } => *p,
            Operations::Update { p } => *p,
        }
    }

    /// The operation that the flags select; `UnrecognizedOperation` when
    /// they select none.
    pub fn canonicalize(&self) -> (r: Result<Op, Error>)
        ensures
            match r {
                Ok(op) => self.selects(op),
                Err(e) => e == Error::UnrecognizedOperation && forall|op: Op| !#[trigger] self.selects(op),
            },
    {
        identify(self.lead_letter(), self.collect_letters())
    }
}

/// Whether `name` is the given word.
pub open spec fn named(name: Option<String>, word: Seq<char>) -> bool {
    name is Some && name->Some_0@ == word
}

/// The jobs that the backend named by `cfg.default_pm` runs for `op` under
/// `cfg`, if it has the operation.
pub open spec fn plan_for(cfg: Config, op: Op, kws: Seq<String>, flags: Seq<String>) -> Option<
    Seq<JobModel>,
> {
    if named(cfg.default_pm, seq!['a', 'p', 't']) {
        apt_plan(cfg.needed, op, kws, flags)
    } else if named(cfg.default_pm, seq!['b', 'r', 'e', 'w']) {
        brew_plan(cfg.needed, cfg.macos, op, kws, flags)
    } else {
        None
    }
}

fn is_named(name: &Option<String>, word: &'static str) -> (r: bool)
    ensures
        r == named(*name, word@),
{
    match name {
        Some(n) => {
            let w: String = word.to_owned();
            *n == w
        },
        None => false,
    }
}

/// A copy of the settings.
pub fn copy_config(cfg: &Config) -> (r: Config)
    ensures
        r == *cfg,
{
    let default_pm = match &cfg.default_pm {
        Some(s) => Some(s.clone()),
        None => None,
    };
    Config {
        dry_run: cfg.dry_run,
        needed: cfg.needed,
        no_confirm: cfg.no_confirm,
        no_cache: cfg.no_cache,
        default_pm,
        macos: cfg.macos,
    }
}

/// The jobs of `op` on the backend that `cfg` names; none where no backend
/// has that name or the backend lacks the operation.
pub fn plan_on(cfg: &Config, op: Op, kws: &Vec<String>, flags: &Vec<String>) -> (r: Result<
    Vec<Job>,
    Error,
>)
    ensures
        match plan_for(*cfg, op, kws@, flags@) {
            Some(p) => r is Ok && jobs_view(r->Ok_0@) == p,
            None => r == Err::<Vec<Job>, Error>(Error::BackendUnsupportedOperation),
        },
{
    proof {
        reveal_strlit("apt");
        reveal_strlit("brew");
        assert("apt"@ =~= seq!['a', 'p', 't']);
        assert("brew"@ =~= seq!['b', 'r', 'e', 'w']);
    }
    if is_named(&cfg.default_pm, "apt") {
        let pm = Apt { cfg: copy_config(cfg) };
        pm.plan(op, kws, flags)
    } else if is_named(&cfg.default_pm, "brew") {
        let pm = Brew::new(copy_config(cfg));
        pm.plan(op, kws, flags)
    } else {
        Err(Error::BackendUnsupportedOperation)
    }
}

/// What the command line asks for.
pub struct Opts {
    /// The operation with its flags.
    pub operations: Operations,
    /// The package manager to use, if given.
    pub using: Option<String>,
    /// Perform a dry run.
    pub dry_run: bool,
    /// Do not reinstall packages that are already installed.
    pub needed: bool,
    /// Answer yes to every question.
    pub no_confirm: bool,
    /// Remove the cache after installing.
    pub no_cache: bool,
    /// Package names or search terms.
    pub keywords: Vec<String>,
    /// Flags passed through to the package manager.
    pub extra_flags: Vec<String>,
}

/// The run that an invocation starts: the plan's jobs, the switches, and
/// nothing done yet.
pub open spec fn fresh(plan: Seq<JobModel>, dry_run: bool, cfg: Config) -> SessionModel {
    SessionModel {
        plan,
        dry_run,
        no_confirm: cfg.no_confirm,
        no_cache: cfg.no_cache,
        index: 0,
        stage: Stage::Idle,
        confirm_all: false,
        outcome: Ok(()),
    }
}

impl Opts {
    /// The settings of the invocation: each switch is on if the command line
    /// or the saved settings turn it on, and a package manager given on the
    /// command line wins over the saved one.
    pub fn merge_cfg(&self, dotfile: Config) -> (r: Config)
        ensures
            r.dry_run == (self.dry_run || dotfile.dry_run),
            r.needed == (self.needed || dotfile.needed),
            r.no_confirm == (self.no_confirm || dotfile.no_confirm),
            r.no_cache == (self.no_cache || dotfile.no_cache),
            r.default_pm == if self.using is Some {
                self.using
            } else {
                dotfile.default_pm
            },
            r.macos == dotfile.macos,
    {
        let default_pm = match &self.using {
            Some(s) => Some(s.clone()),
            None => dotfile.default_pm,
        };
        Config {
            dry_run: self.dry_run || dotfile.dry_run,
            needed: self.needed || dotfile.needed,
            no_confirm: self.no_confirm || dotfile.no_confirm,
            no_cache: self.no_cache || dotfile.no_cache,
            default_pm,
            macos: dotfile.macos,
        }
    }

    /// Resolves the operation and the backend's jobs for it, and returns the
    /// run that carries them out. The preview flag turns on the dry run.
    /// Fails with `UnrecognizedOperation` when the flags select no operation,
    /// and with `BackendUnsupportedOperation` when the backend that
    /// `cfg.default_pm` names lacks it; no command is started either way.
    pub fn dispatch_from(&self, cfg: Config) -> (r: Result<Session, Error>)
        ensures
            (forall|op: Op| !#[trigger] self.operations.selects(op)) ==> r == Err::<Session, Error>(
                Error::UnrecognizedOperation,
            ),
            forall|op: Op| #[trigger]
                self.operations.selects(op) ==> match plan_for(
                    cfg,
                    op,
                    self.keywords@,
                    self.extra_flags@,
                ) {
                    Some(p) => r is Ok && r->Ok_0@ == fresh(
                        p,
                        cfg.dry_run || self.operations.previews(),
                        cfg,
                    ),
                    None => r == Err::<Session, Error>(Error::BackendUnsupportedOperation),
                },
    {
        let mut cfg = cfg;
        let ghost cfg0 = cfg;
        if self.operations.sets_dry_run() {
            cfg.dry_run = true;
        }
        match self.operations.canonicalize() {
            Err(e) => Err(e),
            Ok(op) => {
                proof {
                    assert forall|o: Op| #[trigger] self.operations.selects(o) implies o == op by {
                        crate::ops::lemma_canonical_unique(
                            self.operations.lead(),
                            self.operations.letters(),
                            o.letters(),
                            op.letters(),
                        );
                        crate::ops::lemma_id_of_letters(o);
                        crate::ops::lemma_id_of_letters(op);
                    }
                }
                match plan_on(&cfg, op, &self.keywords, &self.extra_flags) {
                    Err(e) => Err(e),
                    Ok(plan) => {
                        let s = Session::new(plan, &cfg);
                        assert(s@ == fresh(
                            jobs_view(plan@),
                            cfg0.dry_run || self.operations.previews(),
                            cfg0,
                        ));
                        Ok(s)
                    },
                }
            },
        }
    }
}

} // verus!
