use pacaptr::exec::parse_answer;
use pacaptr::ops::identify;
use pacaptr::search::{filter_output, grep};
use pacaptr::{Action, Answer, Config, Error, Event, Mode, Op, Operations, Opts, Session};

fn cfg(pm: &str, dry_run: bool, no_confirm: bool, no_cache: bool) -> Config {
    Config { dry_run, needed: false, no_confirm, no_cache, default_pm: Some(pm.to_string()), macos: false }
}

fn sync() -> Operations {
    Operations::Sync { c: 0, g: false, i: 0, l: false, p: false, s: false, u: false, w: false, y: false }
}

fn query() -> Operations {
    Operations::Query {
        c: false,
        e: false,
        i: 0,
        k: false,
        l: false,
        m: false,
        o: false,
        p: false,
        s: false,
        u: false,
    }
}

fn opts(operations: Operations, keywords: &[&str], extra: &[&str]) -> Opts {
    Opts {
        operations,
        using: None,
        dry_run: false,
        needed: false,
        no_confirm: false,
        no_cache: false,
        keywords: keywords.iter().map(|s| s.to_string()).collect(),
        extra_flags: extra.iter().map(|s| s.to_string()).collect(),
    }
}

fn strings(v: &[&str]) -> Vec<String> {
    v.iter().map(|s| s.to_string()).collect()
}

fn start(o: &Opts, c: Config) -> (Session, Action) {
    let mut s = o.dispatch_from(c).unwrap();
    let a = s.step(Event::Proceed);
    (s, a)
}

fn spawned(a: &Action) -> Vec<String> {
    match a {
        Action::Spawn(v, _) => v.clone(),
        other => panic!("expected a spawn, got {:?}", other),
    }
}

fn finished(a: &Action) -> Result<(), Error> {
    match a {
        Action::Finish(r) => *r,
        other => panic!("expected the end, got {:?}", other),
    }
}

#[test]
fn simple_syu() {
    let ops = Operations::Sync { c: 0, g: false, i: 0, l: false, p: false, s: false, u: true, w: false, y: true };
    let o = opts(ops, &[], &[]);
    assert!(matches!(o.operations, Operations::Sync { u, y, .. } if y && u));
    assert!(o.keywords.is_empty());
    assert_eq!(o.operations.canonicalize(), Ok(Op::Suy));
    let (mut s, a) = start(&o, cfg("apt", false, true, false));
    assert_eq!(spawned(&a), strings(&["sudo", "apt", "update"]));
    assert_eq!(spawned(&s.step(Event::Exited(0))), strings(&["sudo", "apt", "upgrade", "--yes"]));
}

#[test]
fn long_syu() {
    let o = opts(
        Operations::Sync { c: 0, g: false, i: 0, l: false, p: false, s: false, u: true, w: false, y: true },
        &[],
        &[],
    );
    assert!(matches!(o.operations, Operations::Sync { u, y, .. } if y && u));
    assert_eq!(o.operations.canonicalize(), Ok(Op::Suy));
    let (mut s, a) = start(&o, cfg("brew", false, true, false));
    assert_eq!(spawned(&a), strings(&["brew", "update"]));
    assert_eq!(spawned(&s.step(Event::Exited(0))), strings(&["brew", "upgrade"]));
}

#[test]
fn simple_sw() {
    let o = opts(
        Operations::Sync { c: 0, g: false, i: 0, l: false, p: false, s: false, u: false, w: true, y: false },
        &["curl", "wget"],
        &[],
    );
    assert_eq!(o.keywords, &["curl", "wget"]);
    let (_, a) = start(&o, cfg("apt", false, false, false));
    assert_eq!(spawned(&a), strings(&["sudo", "apt", "install", "--download-only", "curl", "wget"]));
}

#[test]
fn other_flags() {
    let mut o = opts(sync(), &["docker"], &[]);
    o.dry_run = true;
    o.no_confirm = true;
    let c = o.merge_cfg(cfg("apt", false, false, false));
    assert!(c.dry_run);
    assert!(c.no_confirm);
    let (mut s, a) = start(&o, c);
    match a {
        Action::Print(v) => assert_eq!(v, strings(&["sudo", "apt", "install", "--reinstall", "docker"])),
        other => panic!("expected a print, got {:?}", other),
    }
    assert_eq!(finished(&s.step(Event::Proceed)), Ok(()));
}

#[test]
fn extra_flags() {
    let mut o = opts(sync(), &["docker"], &["--proxy=localhost:1234"]);
    o.no_confirm = true;
    let c = o.merge_cfg(cfg("apt", false, false, false));
    let (_, a) = start(&o, c);
    assert_eq!(
        spawned(&a),
        strings(&["sudo", "apt", "install", "--reinstall", "docker", "--proxy=localhost:1234", "--yes"])
    );
}

#[test]
fn using() {
    let mut o = opts(
        Operations::Sync { c: 0, g: false, i: 1, l: false, p: false, s: false, u: false, w: false, y: false },
        &["docker"],
        &["--proxy=localhost:1234"],
    );
    o.using = Some("brew".to_string());
    o.no_confirm = true;
    let c = o.merge_cfg(cfg("apt", false, false, false));
    assert_eq!(c.default_pm, Some("brew".to_string()));
    assert_eq!(o.operations.canonicalize(), Ok(Op::Si));
    let (_, a) = start(&o, c);
    assert_eq!(spawned(&a), strings(&["brew", "info", "docker", "--proxy=localhost:1234"]));
}

#[test]
fn flag_order_does_not_matter() {
    assert_eq!(identify('s', vec!['y', 'u']), Ok(Op::Suy));
    assert_eq!(identify('s', vec!['u', 'y']), Ok(Op::Suy));
    assert_eq!(identify('r', vec!['s', 'n']), Ok(Op::Rns));
    assert_eq!(identify('s', vec!['c', 'c', 'c']), Ok(Op::Sccc));
}

#[test]
fn identifiers_ascend_after_operation_letter() {
    let all = [
        Op::Q, Op::Qc, Op::Qe, Op::Qi, Op::Qk, Op::Ql, Op::Qm, Op::Qo, Op::Qp, Op::Qs, Op::Qu,
        Op::R, Op::Rn, Op::Rns, Op::Rs, Op::Rss, Op::S, Op::Sc, Op::Scc, Op::Sccc, Op::Sg,
        Op::Si, Op::Sii, Op::Sl, Op::Ss, Op::Su, Op::Suy, Op::Sw, Op::Sy, Op::U,
    ];
    for op in all {
        let name = op.name();
        let repeats = matches!(op, Op::Rss | Op::Scc | Op::Sccc | Op::Sii);
        for w in name[1..].windows(2) {
            assert!(w[0] <= w[1]);
            if !repeats {
                assert!(w[0] < w[1]);
            }
        }
        assert_eq!(identify(name[0], name[1..].to_vec()), Ok(op));
    }
    assert_eq!(Op::Rns.name(), vec!['r', 'n', 's']);
}

#[test]
fn print_only_dry_run_spawns_nothing() {
    let mut o = opts(query(), &["vim"], &[]);
    o.operations = query();
    let (mut s, a) = start(&o, cfg("apt", true, false, false));
    assert!(matches!(a, Action::Print(ref v) if *v == strings(&["apt", "list", "vim"])));
    assert_eq!(finished(&s.step(Event::Exited(0))), Ok(()));
}

#[test]
fn native_prompt_flags_appended_once() {
    let remove = Operations::Remove { n: false, p: false, s: 0 };
    for kws in [vec![], vec!["a"], vec!["a", "b", "c"]] {
        let o = opts(remove, &kws, &[]);
        let (_, a) = start(&o, cfg("apt", false, true, false));
        let argv = spawned(&a);
        assert_eq!(argv.iter().filter(|s| *s == "--yes").count(), 1);
        assert_eq!(argv.last().unwrap(), "--yes");
        assert_eq!(argv.len(), 3 + kws.len() + 1);
    }
    let o = opts(remove, &["a"], &[]);
    let (_, a) = start(&o, cfg("apt", false, false, false));
    assert_eq!(spawned(&a), strings(&["sudo", "apt", "remove", "a"]));
}

#[test]
fn declining_prompt_cancels() {
    let o = opts(Operations::Remove { n: false, p: false, s: 0 }, &["wget"], &[]);
    let (mut s, a) = start(&o, cfg("brew", false, false, false));
    assert!(matches!(a, Action::Ask(ref v) if *v == strings(&["brew", "uninstall", "wget"])));
    let a = s.step(Event::Answered(Answer::No));
    assert_eq!(finished(&a), Err(Error::PromptCanceled));
    assert!(Error::PromptCanceled.is_canceled());
    assert_eq!(finished(&s.step(Event::Proceed)), Err(Error::PromptCanceled));
}

#[test]
fn answering_all_suppresses_later_prompts() {
    let o = opts(Operations::Remove { n: false, p: false, s: 1 }, &["wget"], &[]);
    let (mut s, a) = start(&o, cfg("brew", false, false, false));
    assert!(matches!(a, Action::Ask(_)));
    let a = s.step(Event::Answered(Answer::All));
    assert_eq!(spawned(&a), strings(&["brew", "uninstall", "wget"]));
    assert!(s.confirms_all());
    let a = s.step(Event::Exited(0));
    assert_eq!(spawned(&a), strings(&["brew", "autoremove"]));
    assert_eq!(finished(&s.step(Event::Exited(0))), Ok(()));
}

#[test]
fn unrecognized_input_reprompts() {
    let o = opts(Operations::Remove { n: false, p: false, s: 0 }, &["wget"], &[]);
    let (mut s, _) = start(&o, cfg("brew", false, false, false));
    assert!(matches!(s.step(Event::Proceed), Action::Ask(_)));
    assert!(matches!(s.step(Event::Answered(Answer::Yes)), Action::Spawn(_, Mode::Inherit)));
}

#[test]
fn failure_short_circuits() {
    let o = opts(
        Operations::Sync { c: 0, g: false, i: 0, l: false, p: false, s: false, u: true, w: false, y: true },
        &[],
        &[],
    );
    let (mut s, a) = start(&o, cfg("apt", false, true, false));
    assert_eq!(spawned(&a), strings(&["sudo", "apt", "update"]));
    assert_eq!(finished(&s.step(Event::Exited(100))), Err(Error::ProcessExitFailure(100)));
    assert_eq!(finished(&s.step(Event::Exited(0))), Err(Error::ProcessExitFailure(100)));
    assert_eq!(s.outcome(), Err(Error::ProcessExitFailure(100)));
}

#[test]
fn spawn_failure_ends_run() {
    let o = opts(query(), &[], &[]);
    let (mut s, _) = start(&o, cfg("apt", false, false, false));
    assert_eq!(finished(&s.step(Event::SpawnFailed)), Err(Error::ProcessSpawnFailure));
    assert!(s.is_finished());
}

#[test]
fn cleanup_only_after_success_with_no_cache() {
    let o = opts(sync(), &["vim"], &[]);
    let (mut s, _) = start(&o, cfg("apt", false, true, true));
    let a = s.step(Event::Exited(0));
    assert_eq!(spawned(&a), strings(&["sudo", "apt", "autoclean"]));
    assert_eq!(finished(&s.step(Event::Exited(0))), Ok(()));

    let (mut s, _) = start(&o, cfg("apt", false, true, true));
    assert_eq!(finished(&s.step(Event::Exited(2))), Err(Error::ProcessExitFailure(2)));

    let (mut s, _) = start(&o, cfg("apt", false, true, false));
    assert_eq!(finished(&s.step(Event::Exited(0))), Ok(()));

    let (mut s, _) = start(&o, cfg("apt", false, true, true));
    let a = s.step(Event::Exited(0));
    assert!(matches!(a, Action::Spawn(_, Mode::Inherit)));
    assert_eq!(finished(&s.step(Event::Exited(3))), Err(Error::ProcessExitFailure(3)));
}

#[test]
fn unrecognized_operation_spawns_nothing() {
    let o = opts(
        Operations::Query { c: true, e: true, i: 0, k: false, l: false, m: false, o: false, p: false, s: false, u: false },
        &[],
        &[],
    );
    assert_eq!(o.operations.canonicalize(), Err(Error::UnrecognizedOperation));
    assert!(matches!(o.dispatch_from(cfg("apt", false, false, false)), Err(Error::UnrecognizedOperation)));
    assert_eq!(identify('s', vec!['w', 'y']), Err(Error::UnrecognizedOperation));
}

#[test]
fn unsupported_operation() {
    let o = opts(
        Operations::Query { c: true, e: false, i: 0, k: false, l: false, m: false, o: false, p: false, s: false, u: false },
        &["vim"],
        &[],
    );
    assert!(matches!(o.dispatch_from(cfg("apt", false, false, false)), Err(Error::BackendUnsupportedOperation)));
    assert!(o.dispatch_from(cfg("brew", false, false, false)).is_ok());
    assert!(matches!(o.dispatch_from(cfg("nopm", false, false, false)), Err(Error::BackendUnsupportedOperation)));
}

#[test]
fn end_to_end_syu() {
    let o = opts(
        Operations::Sync { c: 0, g: false, i: 0, l: false, p: false, s: false, u: true, w: false, y: true },
        &[],
        &[],
    );
    let (mut s, a) = start(&o, cfg("brew", false, true, false));
    assert_eq!(s.len(), 2);
    assert_eq!(spawned(&a), strings(&["brew", "update"]));
    let a = s.step(Event::Exited(0));
    assert_eq!(spawned(&a), strings(&["brew", "upgrade"]));
    assert_eq!(finished(&s.step(Event::Exited(0))), Ok(()));

    let (mut s, _) = start(&o, cfg("brew", false, true, false));
    assert_eq!(finished(&s.step(Event::Exited(1))), Err(Error::ProcessExitFailure(1)));
}

#[test]
fn end_to_end_sw() {
    let o = opts(
        Operations::Sync { c: 0, g: false, i: 0, l: false, p: false, s: false, u: false, w: true, y: false },
        &["curl", "wget"],
        &[],
    );
    let (mut s, a) = start(&o, cfg("brew", false, true, false));
    assert_eq!(s.len(), 1);
    assert_eq!(spawned(&a), strings(&["brew", "fetch", "curl", "wget"]));
    assert_eq!(finished(&s.step(Event::Exited(0))), Ok(()));
}

#[test]
fn preview_flag_turns_on_dry_run() {
    let o = opts(
        Operations::Sync { c: 0, g: false, i: 0, l: false, p: true, s: false, u: false, w: false, y: false },
        &["vim"],
        &[],
    );
    assert_eq!(o.operations.canonicalize(), Ok(Op::S));
    let (_, a) = start(&o, cfg("brew", false, false, false));
    assert!(matches!(a, Action::Print(ref v) if *v == strings(&["brew", "reinstall", "vim"])));
}

#[test]
fn dry_run_with_flags_runs_backend() {
    let o = opts(
        Operations::Sync { c: 2, g: false, i: 0, l: false, p: false, s: false, u: false, w: false, y: false },
        &[],
        &[],
    );
    let (mut s, a) = start(&o, cfg("brew", true, false, false));
    assert!(matches!(a, Action::Ask(ref v) if *v == strings(&["brew", "cleanup", "-s", "--dry-run"])));
    let a = s.step(Event::Answered(Answer::Yes));
    assert_eq!(spawned(&a), strings(&["brew", "cleanup", "-s", "--dry-run"]));
}

#[test]
fn merge_prefers_command_line() {
    let mut o = opts(sync(), &[], &[]);
    o.needed = true;
    let mut dot = cfg("brew", true, false, true);
    dot.needed = false;
    let c = o.merge_cfg(dot);
    assert!(c.dry_run && c.needed && !c.no_confirm && c.no_cache);
    assert_eq!(c.default_pm, Some("brew".to_string()));
    o.using = Some("apt".to_string());
    assert_eq!(o.merge_cfg(Config::empty()).default_pm, Some("apt".to_string()));
}

#[test]
fn needed_installs_without_reinstall() {
    let o = opts(sync(), &["vim"], &[]);
    let mut c = cfg("apt", false, false, false);
    c.needed = true;
    let (_, a) = start(&o, c);
    assert_eq!(spawned(&a), strings(&["sudo", "apt", "install", "vim"]));
}

#[test]
fn search_captures_and_filters() {
    let o = opts(
        Operations::Query { c: false, e: false, i: 0, k: false, l: false, m: false, o: false, p: false, s: true, u: false },
        &["py"],
        &[],
    );
    let (_, a) = start(&o, cfg("brew", false, false, false));
    assert!(matches!(a, Action::Spawn(ref v, Mode::Capture) if *v == strings(&["brew", "list", "--formula"])));
    let lines: Vec<Vec<char>> =
        ["python3", "pypy", "ruby", "python@2"].iter().map(|s| s.chars().collect()).collect();
    let kws: Vec<Vec<char>> = ["py", "on"].iter().map(|s| s.chars().collect()).collect();
    let kept = grep(lines.clone(), &kws);
    let kept: Vec<String> = kept.into_iter().map(|l| l.into_iter().collect()).collect();
    assert_eq!(kept, strings(&["python3", "python@2"]));
    assert_eq!(grep(lines.clone(), &vec![]).len(), 4);
    assert!(grep(lines, &vec!["Py".chars().collect()]).is_empty());
}

#[test]
fn prompt_replies_ignore_case() {
    let p = |s: &str| parse_answer(&s.chars().collect());
    assert_eq!(p("y"), Some(Answer::Yes));
    assert_eq!(p("YeS"), Some(Answer::Yes));
    assert_eq!(p("N"), Some(Answer::No));
    assert_eq!(p("no"), Some(Answer::No));
    assert_eq!(p("a"), Some(Answer::All));
    assert_eq!(p("ALL"), Some(Answer::All));
    assert_eq!(p(""), None);
    assert_eq!(p("yess"), None);
    assert_eq!(p("maybe"), None);
}

#[test]
fn search_lists_casks_on_macos() {
    let o = opts(
        Operations::Query { c: false, e: false, i: 0, k: false, l: false, m: false, o: false, p: false, s: true, u: false },
        &["py"],
        &["-v"],
    );
    let mut c = cfg("brew", false, false, false);
    c.macos = true;
    let (mut s, a) = start(&o, c);
    assert_eq!(s.len(), 2);
    assert!(matches!(a, Action::Spawn(ref v, Mode::Capture) if *v == strings(&["brew", "list", "--formula", "-v"])));
    let a = s.step(Event::Exited(0));
    assert!(matches!(a, Action::Spawn(ref v, Mode::Capture) if *v == strings(&["brew", "list", "--cask", "-v"])));
    assert_eq!(finished(&s.step(Event::Exited(0))), Ok(()));

    let mut c = cfg("brew", false, false, false);
    c.macos = true;
    let (mut s, _) = start(&o, c);
    assert_eq!(finished(&s.step(Event::Exited(1))), Err(Error::ProcessExitFailure(1)));

    let (s, _) = start(&o, cfg("brew", false, false, false));
    assert_eq!(s.len(), 1);
}

#[test]
fn failed_listing_keeps_nothing() {
    let lines: Vec<Vec<char>> = ["python3", "ruby"].iter().map(|s| s.chars().collect()).collect();
    let kws: Vec<Vec<char>> = vec!["py".chars().collect()];
    assert_eq!(filter_output(2, lines.clone(), &kws), Err(Error::ProcessExitFailure(2)));
    assert_eq!(filter_output(0, lines, &kws), Ok(vec!["python3".chars().collect::<Vec<char>>()]));
}

#[test]
fn saved_settings_apply() {
    let mut c = Config::empty();
    assert_eq!(c.apply(&"no_cache".to_string(), &"true".to_string()), Ok(()));
    assert!(c.no_cache);
    assert_eq!(c.apply(&"default_pm".to_string(), &"brew".to_string()), Ok(()));
    assert_eq!(c.default_pm, Some("brew".to_string()));
    assert_eq!(c.apply(&"needed".to_string(), &"yes".to_string()), Err(Error::ConfigLoadFailure));
    assert!(!c.needed);
    assert_eq!(c.apply(&"colour".to_string(), &"true".to_string()), Err(Error::ConfigLoadFailure));
    assert_eq!(c.apply(&"dry_run".to_string(), &"true".to_string()), Ok(()));
    assert!(c.dry_run);
}
