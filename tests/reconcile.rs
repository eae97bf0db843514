use dot::catalog::{is_reserved, Dotfiles, Entry};
use dot::commands::{count_unsettled, App};
use dot::privilege::{check_symlink_privilege, is_relaunched, marker, relaunch_args,
    ElevationType, PrivilegeStep};
use dot::reconcile::{check_entry, count_failures, plan_link, plan_unlink, settle, FsAction,
    Plan};
use dot::resolve::{pick_root_dir, Environment};
use dot::state::{inspect, LinkState, Probe};

const ALL: [LinkState; 6] = [
    LinkState::Absent,
    LinkState::LinkedCorrectly,
    LinkState::LinkedElsewhere,
    LinkState::OccupiedByFile,
    LinkState::BrokenLink,
    LinkState::InspectionError,
];

fn s(x: &str) -> String {
    x.to_string()
}

fn env(vars: &[(&str, &str)], home: Option<&str>) -> Environment {
    Environment {
        vars: vars.iter().map(|(k, v)| (s(k), s(v))).collect(),
        home_dir: home.map(s),
    }
}

fn app(dry_run: bool) -> App {
    App::new(env(&[("HOME", "/home/u"), ("DOT_DIR", "/home/u/dots")], None), dry_run, false)
        .unwrap()
}

fn after(state: LinkState, plan: Plan) -> LinkState {
    match plan.action {
        FsAction::Keep => state,
        FsAction::CreateLink | FsAction::ReplaceLink => LinkState::LinkedCorrectly,
        FsAction::RemoveLink => LinkState::Absent,
    }
}

#[test]
fn inspect_classifies_every_probe() {
    let src = s("/home/u/dots/bashrc");
    assert_eq!(inspect(&Probe::Failed, &src), LinkState::InspectionError);
    assert_eq!(inspect(&Probe::Nothing, &src), LinkState::Absent);
    assert_eq!(inspect(&Probe::NotALink, &src), LinkState::OccupiedByFile);
    assert_eq!(inspect(&Probe::Symlink { resolved: None }, &src), LinkState::BrokenLink);
    assert_eq!(
        inspect(&Probe::Symlink { resolved: Some(s("/home/u/dots/bashrc")) }, &src),
        LinkState::LinkedCorrectly
    );
    assert_eq!(
        inspect(&Probe::Symlink { resolved: Some(s("/etc/bashrc")) }, &src),
        LinkState::LinkedElsewhere
    );
}

#[test]
fn check_is_healthy_only_when_linked() {
    for st in ALL {
        assert_eq!(check_entry(st), st == LinkState::LinkedCorrectly);
    }
}

#[test]
fn link_decisions() {
    assert_eq!(plan_link(LinkState::Absent, false), Plan { action: FsAction::CreateLink, ok: true });
    assert_eq!(plan_link(LinkState::BrokenLink, false), Plan { action: FsAction::ReplaceLink, ok: true });
    assert_eq!(plan_link(LinkState::LinkedCorrectly, false), Plan { action: FsAction::Keep, ok: true });
    assert_eq!(plan_link(LinkState::LinkedElsewhere, false), Plan { action: FsAction::Keep, ok: false });
    assert_eq!(plan_link(LinkState::OccupiedByFile, false), Plan { action: FsAction::Keep, ok: false });
    assert_eq!(plan_link(LinkState::InspectionError, false), Plan { action: FsAction::Keep, ok: false });
}

#[test]
fn unlink_decisions() {
    assert_eq!(plan_unlink(LinkState::LinkedCorrectly, false), Plan { action: FsAction::RemoveLink, ok: true });
    assert_eq!(plan_unlink(LinkState::BrokenLink, false), Plan { action: FsAction::RemoveLink, ok: true });
    assert_eq!(plan_unlink(LinkState::Absent, false), Plan { action: FsAction::Keep, ok: true });
    assert_eq!(plan_unlink(LinkState::LinkedElsewhere, false), Plan { action: FsAction::Keep, ok: false });
    assert_eq!(plan_unlink(LinkState::OccupiedByFile, false), Plan { action: FsAction::Keep, ok: false });
    assert_eq!(plan_unlink(LinkState::InspectionError, false), Plan { action: FsAction::Keep, ok: false });
}

#[test]
fn settle_counts_failed_operations() {
    let create = Plan { action: FsAction::CreateLink, ok: true };
    assert!(settle(create, true));
    assert!(!settle(create, false));
    let keep = Plan { action: FsAction::Keep, ok: true };
    assert!(settle(keep, false));
    let conflict = Plan { action: FsAction::Keep, ok: false };
    assert!(!settle(conflict, true));
}

#[test]
fn count_failures_counts_false() {
    assert_eq!(count_failures(&vec![]), 0);
    assert_eq!(count_failures(&vec![true, false, true, false, false]), 3);
}

#[test]
fn link_twice_is_idempotent() {
    let a = app(false);
    let states = ALL.to_vec();
    let plans = a.command_link(&states);
    let next: Vec<LinkState> = states.iter().zip(plans.iter()).map(|(st, p)| after(*st, *p)).collect();
    let first = count_unsettled(&plans, &vec![true; plans.len()]);
    let plans2 = a.command_link(&next);
    let next2: Vec<LinkState> = next.iter().zip(plans2.iter()).map(|(st, p)| after(*st, *p)).collect();
    assert_eq!(next2, next);
    assert_eq!(count_unsettled(&plans2, &vec![true; plans2.len()]), first);
    let clean = vec![LinkState::Absent, LinkState::BrokenLink, LinkState::LinkedCorrectly];
    let plans = a.command_link(&clean);
    let next: Vec<LinkState> = clean.iter().zip(plans.iter()).map(|(st, p)| after(*st, *p)).collect();
    let plans2 = a.command_link(&next);
    assert_eq!(count_unsettled(&plans2, &vec![true; plans2.len()]), 0);
    assert!(plans2.iter().all(|p| p.action == FsAction::Keep));
}

#[test]
fn clean_on_unlinked_succeeds() {
    let a = app(false);
    let states = vec![LinkState::Absent, LinkState::Absent];
    let plans = a.command_clean(&states);
    assert!(plans.iter().all(|p| p.action == FsAction::Keep));
    assert_eq!(count_unsettled(&plans, &vec![false, false]), 0);
}

#[test]
fn link_then_clean_restores_absent() {
    let p = plan_link(LinkState::Absent, false);
    let linked = after(LinkState::Absent, p);
    assert_eq!(linked, LinkState::LinkedCorrectly);
    let q = plan_unlink(linked, false);
    assert!(p.ok && q.ok);
    assert_eq!(after(linked, q), LinkState::Absent);
}

#[test]
fn occupied_target_is_never_touched() {
    for dry in [false, true] {
        let p = plan_link(LinkState::OccupiedByFile, dry);
        let q = plan_unlink(LinkState::OccupiedByFile, dry);
        assert_eq!(p.action, FsAction::Keep);
        assert_eq!(q.action, FsAction::Keep);
        assert!(!p.ok && !q.ok);
    }
}

#[test]
fn dry_run_touches_nothing_and_reports_the_same() {
    for st in ALL {
        let d = plan_link(st, true);
        let r = plan_link(st, false);
        assert_eq!(d.action, FsAction::Keep);
        assert_eq!(d.ok, r.ok);
        let d = plan_unlink(st, true);
        let r = plan_unlink(st, false);
        assert_eq!(d.action, FsAction::Keep);
        assert_eq!(d.ok, r.ok);
    }
    let a = app(true);
    assert!(!a.needs_privilege());
    assert!(app(false).needs_privilege());
}

#[test]
fn bashrc_scenario() {
    let a = app(false);
    let entries = a.dotfiles.entries(&vec![s("bashrc")]);
    assert_eq!(entries.len(), 1);
    let e = &entries[0];
    assert_eq!(e.source_path, "/home/u/dots/bashrc");
    assert_eq!(e.target_path, "/home/u/.bashrc");
    let st = inspect(&Probe::Nothing, &e.source_path);
    let plans = a.command_link(&vec![st]);
    assert_eq!(plans[0].action, FsAction::CreateLink);
    assert_eq!(count_unsettled(&plans, &vec![true]), 0);
    let st = inspect(&Probe::Symlink { resolved: Some(e.source_path.clone()) }, &e.source_path);
    assert_eq!(a.command_check(&vec![st]), 0);
    let plans = a.command_clean(&vec![st]);
    assert_eq!(plans[0].action, FsAction::RemoveLink);
    assert_eq!(count_unsettled(&plans, &vec![true]), 0);
    let st = inspect(&Probe::Nothing, &e.source_path);
    assert_eq!(a.command_check(&vec![st]), 1);
}

#[test]
fn vimrc_real_file_scenario() {
    let a = app(false);
    let st = inspect(&Probe::NotALink, &s("/home/u/dots/vimrc"));
    let plans = a.command_link(&vec![st]);
    assert_eq!(plans[0].action, FsAction::Keep);
    assert_eq!(count_unsettled(&plans, &vec![true]), 1);
}

#[test]
fn failed_mutation_counts() {
    let plans = vec![plan_link(LinkState::Absent, false), plan_link(LinkState::BrokenLink, false)];
    assert_eq!(count_unsettled(&plans, &vec![false, true]), 1);
}

#[test]
fn check_counts_unhealthy() {
    assert_eq!(app(false).command_check(&ALL.to_vec()), 5);
    assert_eq!(app(false).command_check(&vec![]), 0);
}

#[test]
fn catalog_skips_reserved_names() {
    let d = Dotfiles::new(s("/r"), s("/h"));
    let entries = d.entries(&vec![s(".git"), s("vimrc"), s(""), s(".gitignore"), s("config")]);
    assert_eq!(
        entries,
        vec![
            Entry { name: s("vimrc"), source_path: s("/r/vimrc"), target_path: s("/h/.vimrc") },
            Entry { name: s("config"), source_path: s("/r/config"), target_path: s("/h/.config") },
        ]
    );
    assert!(is_reserved(&s(".mappings")));
    assert!(!is_reserved(&s("bashrc")));
    assert_eq!(d.root_dir(), "/r");
    assert_eq!(d.home_dir(), "/h");
}

#[test]
fn root_dir_from_dot_dir() {
    assert_eq!(env(&[("DOT_DIR", "/x")], None).root_dir(), Ok(s("/x")));
    assert_eq!(env(&[("DOT_DIR", "/x"), ("DOT_DIR", "/y")], None).root_dir(), Ok(s("/y")));
}

#[test]
fn root_dir_defaults_under_home() {
    assert_eq!(env(&[("HOME", "/home/u")], None).root_dir(), Ok(s("/home/u/.dotfiles")));
}

#[test]
fn root_dir_fails_without_home() {
    assert_eq!(env(&[], None).root_dir(), Err(s("failed to determine dotdir")));
}

#[test]
fn expand_substitutes_and_tilde() {
    let e = env(&[("A", "a")], Some("/home/u"));
    assert_eq!(e.expand("~/$A/x"), Some(s("/home/u/a/x")));
    assert_eq!(e.expand("$B"), None);
    assert_eq!(e.var("A"), Some(s("a")));
    assert_eq!(e.var("B"), None);
}

#[test]
fn fill_home_from_system() {
    let mut e = env(&[], Some("/home/v"));
    e.fill_home();
    assert_eq!(e.var("HOME"), Some(s("/home/v")));
    let mut e = env(&[("HOME", "/a")], Some("/home/v"));
    e.fill_home();
    assert_eq!(e.vars.len(), 1);
    assert_eq!(e.var("HOME"), Some(s("/a")));
}

#[test]
fn app_new_resolves() {
    let a = App::new(env(&[], Some("/home/v")), true, true).unwrap();
    assert_eq!(a.dotfiles.root_dir(), "/home/v/.dotfiles");
    assert_eq!(a.dotfiles.home_dir(), "/home/v");
    assert!(a.dry_run && a.verbose);
    assert_eq!(App::new(env(&[], None), false, false).err(), Some(s("failed to determine dotdir")));
    assert_eq!(
        App::new(env(&[("DOT_DIR", "/d")], None), false, false).err(),
        Some(s("failed to determine the home directory"))
    );
}

#[test]
fn clone_command_line() {
    let a = app(false);
    assert_eq!(a.command_clone("https://example.org/d.git", None), vec![s("git"), s("clone"), s("https://example.org/d.git"), s("/home/u/dots")]);
    assert_eq!(a.command_clone("u", Some(s("/t"))), vec![s("git"), s("clone"), s("u"), s("/t")]);
}

#[test]
fn privilege_gate() {
    assert_eq!(check_symlink_privilege(false, ElevationType::Limited, false), PrivilegeStep::Proceed);
    assert_eq!(check_symlink_privilege(true, ElevationType::Full, false), PrivilegeStep::Proceed);
    assert_eq!(check_symlink_privilege(true, ElevationType::Default, false), PrivilegeStep::EnablePrivilege);
    assert_eq!(check_symlink_privilege(true, ElevationType::Limited, false), PrivilegeStep::Relaunch);
    assert_eq!(check_symlink_privilege(true, ElevationType::Limited, true), PrivilegeStep::Refuse);
}

#[test]
fn relaunch_arguments() {
    let args = vec![s("dot"), s("link"), s("--verbose")];
    assert!(!is_relaunched(&args));
    let r = relaunch_args(&args);
    assert_eq!(r, vec![marker(), s("link"), s("--verbose")]);
    let mut again = vec![s("dot")];
    again.extend(r);
    assert!(is_relaunched(&again));
    assert_eq!(relaunch_args(&vec![]), vec![marker()]);
    assert!(!is_relaunched(&vec![marker()]));
}

#[test]
fn state_descriptions() {
    assert_eq!(LinkState::Absent.describe(), "not linked");
    assert_eq!(LinkState::LinkedCorrectly.describe(), "linked");
    assert_eq!(LinkState::BrokenLink.describe(), "a broken link");
}

#[test]
fn pick_root_dir_prefers_dot_dir() {
    assert_eq!(pick_root_dir(Some(s("/a")), Some(s("/b"))), Ok(s("/a")));
    assert_eq!(pick_root_dir(None, Some(s("/b"))), Ok(s("/b")));
    assert_eq!(pick_root_dir(None, None), Err(s("failed to determine dotdir")));
}
