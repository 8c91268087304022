use std::collections::{HashMap, HashSet};

use rsbin::command::{run, update, Action, Event, Report, RsbinUpdateResult, Session};
use rsbin::config::{RsbinBuildType, RsbinConfig, RsbinScript};
use rsbin::error::{ErrorCause, ProcessFailure};
use rsbin::hash::content_digest;
use rsbin::os::{clean, Removal, RsbinEnv};
use rsbin::routine::{BuildInvocation, ProcessStatus};

/// A filesystem and process table that the tests control.
#[derive(Default)]
struct World {
    sources: HashMap<String, Vec<u8>>,
    records: HashMap<String, String>,
    bins: HashSet<String>,
    dirs: HashSet<String>,
    failing_sources: HashSet<String>,
    builds: Vec<BuildInvocation>,
    executions: Vec<(String, Vec<String>)>,
    exec_status: Option<ProcessStatus>,
}

impl World {
    fn drive(&mut self, s: &mut Session) {
        loop {
            let event = match s.action() {
                Action::Inspect { source, record, artifact } => Event::Inspected {
                    digest: match self.sources.get(&source) {
                        Some(b) => Ok(content_digest(b)),
                        None => Err("No such file or directory".to_owned()),
                    },
                    stored: Ok(self.records.get(&record).cloned()),
                    artifact_exists: self.bins.contains(&artifact),
                },
                Action::Build(inv) => {
                    self.builds.push(inv.clone());
                    if let Some(d) = &inv.scratch_dir {
                        self.dirs.insert(d.clone());
                    }
                    let src = inv.args.last().unwrap().clone();
                    if self.failing_sources.contains(&src) {
                        Event::Built(ProcessStatus::Exited(1))
                    } else {
                        let pos = inv.args.iter().position(|a| a == "-o").unwrap();
                        self.bins.insert(inv.args[pos + 1].clone());
                        Event::Built(ProcessStatus::Exited(0))
                    }
                }
                Action::WriteHash { record, digest } => {
                    self.records.insert(record, digest);
                    Event::Written(Ok(()))
                }
                Action::Execute { program, args } => {
                    self.executions.push((program, args));
                    Event::Executed(self.exec_status.clone().unwrap_or(ProcessStatus::Exited(0)))
                }
                Action::Finish => break,
            };
            s.step(event);
        }
    }

    fn clean(&mut self, removals: &[Removal]) {
        for r in removals {
            match r {
                Removal::File(p) => {
                    self.bins.remove(p);
                    self.records.remove(p);
                }
                Removal::Dir(p) => {
                    self.dirs.remove(p);
                }
            }
        }
    }
}

fn env() -> RsbinEnv {
    RsbinEnv::new("/app".to_owned(), "/tmp/rsbin".to_owned(), "")
}

fn rustc_script(name: &str) -> RsbinScript {
    RsbinScript::new(
        name.to_owned(),
        format!("/src/{}.rs", name),
        RsbinBuildType::Rustc,
        vec![],
        vec![],
    )
}

fn cfg(names: &[&str]) -> RsbinConfig {
    RsbinConfig { scripts: names.iter().map(|n| rustc_script(n)).collect() }
}

fn world(names: &[&str]) -> World {
    let mut w = World::default();
    for n in names {
        w.sources.insert(format!("/src/{}.rs", n), format!("fn main() {{ /* {} */ }}", n).into_bytes());
    }
    w
}

fn args(a: &[&str]) -> Vec<String> {
    a.iter().map(|s| s.to_string()).collect()
}

fn report(name: &str, outcome: RsbinUpdateResult) -> Report {
    Report { name: name.to_owned(), outcome }
}

fn update_once(w: &mut World, c: &RsbinConfig, a: &[&str]) -> Session {
    let mut s = update(env(), c.clone(), args(a));
    w.drive(&mut s);
    s
}

#[test]
fn cache_hit_builds_nothing() {
    let c = cfg(&["foo"]);
    let mut w = world(&["foo"]);
    let digest = content_digest(&w.sources["/src/foo.rs"]);
    w.records.insert("/app/hash/foo".to_owned(), digest.clone());
    w.bins.insert("/app/bin/foo".to_owned());
    let s = update_once(&mut w, &c, &["foo"]);
    assert_eq!(s.reports(), &vec![report("foo", RsbinUpdateResult::Latest)]);
    assert!(s.failure().is_none());
    assert!(w.builds.is_empty());
    assert_eq!(w.records["/app/hash/foo"], digest);
}

#[test]
fn content_change_rebuilds_once() {
    let c = cfg(&["foo"]);
    let mut w = world(&["foo"]);
    w.records.insert("/app/hash/foo".to_owned(), content_digest(&w.sources["/src/foo.rs"]));
    w.bins.insert("/app/bin/foo".to_owned());
    w.sources.insert("/src/foo.rs".to_owned(), b"fn main() { changed }".to_vec());
    let s = update_once(&mut w, &c, &[]);
    assert_eq!(s.reports(), &vec![report("foo", RsbinUpdateResult::Compiled)]);
    assert_eq!(w.builds.len(), 1);
    assert_eq!(w.records["/app/hash/foo"], content_digest(b"fn main() { changed }"));
}

#[test]
fn missing_artifact_rebuilds() {
    let c = cfg(&["foo"]);
    let mut w = world(&["foo"]);
    w.records.insert("/app/hash/foo".to_owned(), content_digest(&w.sources["/src/foo.rs"]));
    let s = update_once(&mut w, &c, &["foo"]);
    assert_eq!(s.reports(), &vec![report("foo", RsbinUpdateResult::Compiled)]);
    assert_eq!(w.builds.len(), 1);
    assert!(w.bins.contains("/app/bin/foo"));
}

#[test]
fn forced_rebuild_rewrites_hash() {
    let c = cfg(&["foo"]);
    let mut w = world(&["foo"]);
    let digest = content_digest(&w.sources["/src/foo.rs"]);
    w.records.insert("/app/hash/foo".to_owned(), digest.clone());
    w.bins.insert("/app/bin/foo".to_owned());
    let mut s = update(env(), c.clone(), args(&["-f", "foo"]));
    let mut writes = 0;
    loop {
        let a = s.action();
        if let Action::WriteHash { .. } = &a {
            writes += 1;
        }
        if let Action::Finish = a {
            break;
        }
        let ev = match a {
            Action::Inspect { .. } => Event::Inspected {
                digest: Ok(digest.clone()),
                stored: Ok(Some(digest.clone())),
                artifact_exists: true,
            },
            Action::Build(inv) => {
                w.builds.push(inv);
                Event::Built(ProcessStatus::Exited(0))
            }
            Action::WriteHash { record, digest } => {
                w.records.insert(record, digest);
                Event::Written(Ok(()))
            }
            _ => unreachable!(),
        };
        s.step(ev);
    }
    assert_eq!(s.reports(), &vec![report("foo", RsbinUpdateResult::Compiled)]);
    assert_eq!(w.builds.len(), 1);
    assert_eq!(writes, 1);
    assert_eq!(w.records["/app/hash/foo"], digest);
}

#[test]
fn batch_stops_at_first_build_failure() {
    let c = cfg(&["A", "B", "C"]);
    let mut w = world(&["A", "B", "C"]);
    w.failing_sources.insert("/src/B.rs".to_owned());
    let s = update_once(&mut w, &c, &[]);
    let built: Vec<&str> = w.builds.iter().map(|b| b.args[2].as_str()).collect();
    assert_eq!(built, vec!["/src/A.rs", "/src/B.rs"]);
    assert_eq!(s.reports(), &vec![report("A", RsbinUpdateResult::Compiled)]);
    let e = s.failure().clone().unwrap();
    assert_eq!(e.cause, ErrorCause::BuildTool(ProcessFailure::ExitCode(1)));
    assert_eq!(e.render(), "rustc: process exited with 1");
    assert!(w.records.contains_key("/app/hash/A"));
    assert!(!w.records.contains_key("/app/hash/B"));
    assert!(!w.records.contains_key("/app/hash/C"));
}

#[test]
fn named_batch_tolerates_unknown_names() {
    let c = cfg(&["A", "C"]);
    let mut w = world(&["A", "C"]);
    let s = update_once(&mut w, &c, &["A", "ghost", "C"]);
    assert_eq!(
        s.reports(),
        &vec![
            report("A", RsbinUpdateResult::Compiled),
            report("ghost", RsbinUpdateResult::NotFound),
            report("C", RsbinUpdateResult::Compiled),
        ]
    );
    assert!(s.failure().is_none());
    assert_eq!(w.builds.len(), 2);
}

#[test]
fn named_batch_of_unknown_names_only() {
    let c = cfg(&["A"]);
    let mut w = world(&["A"]);
    let s = update_once(&mut w, &c, &["x", "y"]);
    assert!(s.is_done());
    assert_eq!(
        s.reports(),
        &vec![report("x", RsbinUpdateResult::NotFound), report("y", RsbinUpdateResult::NotFound)]
    );
    assert!(w.builds.is_empty());
}

#[test]
fn unreadable_source_fails_with_io() {
    let c = cfg(&["foo"]);
    let mut w = World::default();
    let s = update_once(&mut w, &c, &[]);
    let e = s.failure().clone().unwrap();
    assert_eq!(e.cause, ErrorCause::Io);
    assert_eq!(e.render(), "Unable to calculate hash of /src/foo.rs: No such file or directory");
    assert!(s.reports().is_empty());
}

#[test]
fn unsupported_kind_fails_the_update() {
    let c = RsbinConfig {
        scripts: vec![RsbinScript::new("p".to_owned(), "/src/p.rs".to_owned(), RsbinBuildType::Cargo, vec![], vec![])],
    };
    let mut w = World::default();
    w.sources.insert("/src/p.rs".to_owned(), b"x".to_vec());
    let s = update_once(&mut w, &c, &[]);
    assert_eq!(s.failure().clone().unwrap().cause, ErrorCause::UnsupportedBuildKind);
    assert!(w.builds.is_empty());
}

#[test]
fn run_does_not_execute_after_failed_build() {
    let c = cfg(&["foo"]);
    let mut w = world(&["foo"]);
    w.failing_sources.insert("/src/foo.rs".to_owned());
    let mut s = run(env(), c, args(&["foo", "x"])).unwrap();
    w.drive(&mut s);
    assert_eq!(w.builds.len(), 1);
    assert!(w.executions.is_empty());
    assert!(matches!(s.failure().clone().unwrap().cause, ErrorCause::BuildTool(_)));
}

#[test]
fn run_builds_then_executes_with_arguments() {
    let c = cfg(&["foo", "bar"]);
    let mut w = world(&["foo", "bar"]);
    let mut s = run(env(), c, args(&["bar", "-v", "file"])).unwrap();
    w.drive(&mut s);
    assert_eq!(w.builds.len(), 1);
    assert_eq!(w.executions, vec![("/app/bin/bar".to_owned(), args(&["-v", "file"]))]);
    assert!(s.failure().is_none());
}

#[test]
fn run_reports_execution_failure() {
    let c = cfg(&["foo"]);
    let mut w = world(&["foo"]);
    w.exec_status = Some(ProcessStatus::Signaled);
    let mut s = run(env(), c, args(&["foo"])).unwrap();
    w.drive(&mut s);
    let e = s.failure().clone().unwrap();
    assert_eq!(e.cause, ErrorCause::Execution(ProcessFailure::Signal));
    assert_eq!(e.render(), "/app/bin/foo: interrupted by signal");
}

#[test]
fn run_needs_a_known_name() {
    let e = run(env(), cfg(&["foo"]), vec![]).err().unwrap();
    assert_eq!(e.cause, ErrorCause::MissingScriptName);
    assert_eq!(e.render(), "run needs script name");
    let e = run(env(), cfg(&["foo"]), args(&["nope"])).err().unwrap();
    assert_eq!(e.cause, ErrorCause::ScriptNotFound);
    assert_eq!(e.render(), "script not found");
}

#[test]
fn end_to_end_update_and_clean() {
    let c = cfg(&["foo"]);
    let mut w = world(&["foo"]);
    let h1 = content_digest(&w.sources["/src/foo.rs"]);

    let s = update_once(&mut w, &c, &["foo"]);
    assert_eq!(s.reports(), &vec![report("foo", RsbinUpdateResult::Compiled)]);
    assert_eq!(w.builds.len(), 1);
    assert_eq!(w.records["/app/hash/foo"], h1);

    let s = update_once(&mut w, &c, &["foo"]);
    assert_eq!(s.reports(), &vec![report("foo", RsbinUpdateResult::Latest)]);
    assert_eq!(w.builds.len(), 1);

    w.sources.insert("/src/foo.rs".to_owned(), b"fn main() { edited }".to_vec());
    let h2 = content_digest(b"fn main() { edited }");
    assert_ne!(h1, h2);
    let s = update_once(&mut w, &c, &["foo"]);
    assert_eq!(s.reports(), &vec![report("foo", RsbinUpdateResult::Compiled)]);
    assert_eq!(w.builds.len(), 2);
    assert_eq!(w.records["/app/hash/foo"], h2);

    let removals = clean(&env(), &c);
    assert!(!w.dirs.contains("/tmp/rsbin/foo"));
    w.clean(&removals);
    assert!(w.bins.is_empty());
    assert!(w.records.is_empty());
    assert!(w.dirs.is_empty());
}

#[test]
fn scratch_directory_failure_is_io() {
    let c = RsbinConfig {
        scripts: vec![RsbinScript::new("h".to_owned(), "/src/h.hs".to_owned(), RsbinBuildType::Ghc, vec![], vec![])],
    };
    let mut s = update(env(), c, vec![]);
    assert!(matches!(s.action(), Action::Inspect { .. }));
    s.step(Event::Inspected { digest: Ok("d".to_owned()), stored: Ok(None), artifact_exists: false });
    match s.action() {
        Action::Build(inv) => assert_eq!(inv.scratch_dir, Some("/tmp/rsbin/h".to_owned())),
        _ => panic!("expected a build"),
    }
    s.step(Event::ScratchFailed("denied".to_owned()));
    let e = s.failure().clone().unwrap();
    assert_eq!(e.cause, ErrorCause::Io);
    assert_eq!(e.render(), "Unable to create directory /tmp/rsbin/h: denied");
    assert!(matches!(s.action(), Action::Finish));
}

#[test]
fn mismatched_event_changes_nothing() {
    let mut s = update(env(), cfg(&["foo"]), vec![]);
    s.step(Event::Written(Ok(())));
    assert!(matches!(s.action(), Action::Inspect { .. }));
    assert!(s.reports().is_empty());
}
