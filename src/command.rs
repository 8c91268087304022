use vstd::prelude::*;
use vstd::string::StringExecFns;
use crate::config::{copy_strings, first_named, lookup_script, none_named, RsbinConfig, RsbinScript};
use crate::error::{texts, ErrorCause, RsbinError};
use crate::hash::is_hash_same;
use crate::os::{bin_path_of, hash_path_of, RsbinEnv};
use crate::routine::{failure_of, is_build_plan, run_command, strategy_of, BuildInvocation, ProcessStatus};

verus! {

/// What updating one requested script came to.
#[derive(Debug, Clone, Copy, PartialEq, Eq, Structural)]
pub enum RsbinUpdateResult {
    /// The binary was current; nothing was built.
    Latest,
    /// The script was built and its digest recorded.
    Compiled,
    /// No registered script has the requested name.
    NotFound,
}

impl RsbinUpdateResult {
    /// The label shown for this outcome.
    pub fn label(&self) -> (r: String)
        ensures
            r@ == match *self {
                RsbinUpdateResult::Latest => "[LATEST]"@,
                RsbinUpdateResult::Compiled => "[COMPILED]"@,
                RsbinUpdateResult::NotFound => "[NOT FOUND]"@,
            },
    {
        match self {
            RsbinUpdateResult::Latest => String::from_str("[LATEST]"),
            RsbinUpdateResult::Compiled => String::from_str("[COMPILED]"),
            RsbinUpdateResult::NotFound => String::from_str("[NOT FOUND]"),
        }
    }
}

/// The outcome for one requested name.
#[derive(Debug, Clone, PartialEq, Eq)]
pub struct Report {
    pub name: String,
    pub outcome: RsbinUpdateResult,
}

/// A requested name and the registry position it resolved to, if any.
#[derive(Debug, Clone, PartialEq, Eq)]
pub struct Target {
    pub name: String,
    pub script: Option<usize>,
}

/// The text of an optional string.
pub open spec fn opt_text(o: Option<String>) -> Option<Seq<char>> {
    match o {
        Some(s) => Some(s@),
        None => None,
    }
}

/// A script must be rebuilt when the rebuild is forced, when its stored
/// digest is absent or differs from the current one, or when its binary is
/// missing.
pub open spec fn rebuild_required(
    force: bool,
    current: Seq<char>,
    stored: Option<Seq<char>>,
    artifact_exists: bool,
) -> bool {
    force || stored != Some(current) || !artifact_exists
}

pub fn needs_rebuild(force: bool, current: &String, stored: &Option<String>, artifact_exists: bool) -> (r: bool)
    ensures
        r == rebuild_required(force, current@, opt_text(*stored), artifact_exists),
{
    force || !is_hash_same(stored, current) || !artifact_exists
}

/// Where a session stands.
#[derive(Debug, Clone, PartialEq, Eq)]
pub enum Phase {
    /// The current target's digest, stored digest and binary are needed.
    Inspect,
    /// The current target is being built; the digest of its source and the
    /// build to run.
    Build(String, BuildInvocation),
    /// The current target was built; its digest is to be recorded.
    Record(String),
    /// Every target is current; the script is to be run.
    Execute,
    /// Nothing is left to do.
    Done,
}

/// What the caller must do next for a session.
#[derive(Debug, Clone, PartialEq, Eq)]
pub enum Action {
    /// Compute the digest of `source`, read the digest record at `record`
    /// (absent is no error), and tell whether the binary `artifact` exists.
    /// Answer with `Event::Inspected`.
    Inspect { source: String, record: String, artifact: String },
    /// Create the scratch directory if one is named, then run the build.
    /// Answer with `Event::Built`, or `Event::ScratchFailed`.
    Build(BuildInvocation),
    /// Write `digest` as the whole content of the record at `record`.
    /// Answer with `Event::Written`.
    WriteHash { record: String, digest: String },
    /// Run `program` with `args`. Answer with `Event::Executed`.
    Execute { program: String, args: Vec<String> },
    /// The session is over: read its reports and failure.
    Finish,
}

/// What the caller observed while performing an action. I/O failures carry
/// their description.
#[derive(Debug, PartialEq, Eq)]
pub enum Event {
    Inspected { digest: Result<String, String>, stored: Result<Option<String>, String>, artifact_exists: bool },
    ScratchFailed(String),
    Built(ProcessStatus),
    Written(Result<(), String>),
    Executed(ProcessStatus),
}

/// An update of some scripts, optionally followed by running one of them.
/// Each script is inspected, rebuilt when stale, and its digest recorded
/// only after a successful build. The first failure ends the session: later
/// targets are not attempted and the script is not run.
pub struct Session {
    env: RsbinEnv,
    scripts: Vec<RsbinScript>,
    targets: Vec<Target>,
    force: bool,
    run_args: Option<Vec<String>>,
    pos: usize,
    phase: Phase,
    results: Vec<Report>,
    failure: Option<RsbinError>,
}

pub struct SessionView {
    pub env: RsbinEnv,
    pub scripts: Seq<RsbinScript>,
    pub targets: Seq<Target>,
    pub force: bool,
    pub run_args: Option<Seq<String>>,
    pub pos: int,
    pub phase: Phase,
    pub results: Seq<Report>,
    pub failure: Option<RsbinError>,
}

impl View for Session {
    type V = SessionView;

    closed spec fn view(&self) -> SessionView {
        SessionView {
            env: self.env,
            scripts: self.scripts@,
            targets: self.targets@,
            force: self.force,
            run_args: match self.run_args {
                Some(a) => Some(a@),
                None => None,
            },
            pos: self.pos as int,
            phase: self.phase,
            results: self.results@,
            failure: self.failure,
        }
    }
}

/// The first position at or after `from` whose target resolved to a script,
/// or the number of targets.
pub open spec fn next_found(targets: Seq<Target>, from: int) -> int
    decreases targets.len() - from,
{
    if from >= targets.len() || from < 0 {
        targets.len() as int
    } else if targets[from].script.is_some() {
        from
    } else {
        next_found(targets, from + 1)
    }
}

/// `NotFound` reports for the targets in `from..to`.
pub open spec fn not_found_reports(targets: Seq<Target>, from: int, to: int) -> Seq<Report> {
    Seq::new(
        (to - from) as nat,
        |k: int| Report { name: targets[from + k].name, outcome: RsbinUpdateResult::NotFound },
    )
}

/// The session once it has moved past every unresolved name from its
/// position on: each gets a `NotFound` report, and the session then inspects
/// the next resolved target, runs the script, or is done.
pub open spec fn settled(v: SessionView) -> SessionView {
    let to = next_found(v.targets, v.pos);
    SessionView {
        pos: to,
        results: v.results + not_found_reports(v.targets, v.pos, to),
        phase: if to < v.targets.len() {
            Phase::Inspect
        } else if v.run_args.is_some() && v.failure.is_none() {
            Phase::Execute
        } else {
            Phase::Done
        },
        ..v
    }
}

/// The session after the current target is finished with `outcome`.
pub open spec fn finished_target(v: SessionView, outcome: RsbinUpdateResult) -> SessionView {
    settled(
        SessionView {
            pos: v.pos + 1,
            results: v.results.push(Report { name: v.targets[v.pos].name, outcome }),
            ..v
        },
    )
}

/// The session after it failed with `e`: nothing more is attempted.
pub open spec fn failed(v: SessionView, e: RsbinError) -> SessionView {
    SessionView { phase: Phase::Done, failure: Some(e), ..v }
}

/// Whether `w` is `v` failed with an error of this cause and context.
pub open spec fn failed_with(v: SessionView, w: SessionView, cause: ErrorCause, context: Seq<Seq<char>>) -> bool {
    &&& w.failure matches Some(e) && e.cause == cause && texts(e.context@) == context
    &&& w == failed(v, w.failure.unwrap())
}

/// The script that the current target resolved to.
pub open spec fn current_script(v: SessionView) -> RsbinScript {
    v.scripts[v.targets[v.pos].script.unwrap() as int]
}

/// The script that a run session runs.
pub open spec fn run_script_of(v: SessionView) -> RsbinScript {
    v.scripts[v.targets[0].script.unwrap() as int]
}

/// The step from inspecting the current target.
pub open spec fn inspect_step(
    v: SessionView,
    w: SessionView,
    digest: Result<String, String>,
    stored: Result<Option<String>, String>,
    artifact_exists: bool,
) -> bool {
    let scr = current_script(v);
    match digest {
        Err(m) => failed_with(v, w, ErrorCause::Io, seq!["Unable to calculate hash of "@ + scr.path@, m@]),
        Ok(h) => if !v.force && stored is Err {
            failed_with(v, w, ErrorCause::Io, seq!["Unable to read hash"@, stored->Err_0@])
        } else if rebuild_required(
            v.force,
            h@,
            opt_text(stored.unwrap()),
            artifact_exists,
        ) {
            match strategy_of(scr.build_type) {
                Some(_) => w.phase matches Phase::Build(h2, inv) && h2 == h && is_build_plan(
                    Ok(inv),
                    v.env,
                    scr,
                ) && w == SessionView { phase: w.phase, ..v },
                None => w.failure matches Some(e) && e.cause == ErrorCause::UnsupportedBuildKind && w
                    == failed(v, e),
            }
        } else {
            w == finished_target(v, RsbinUpdateResult::Latest)
        },
    }
}

/// The context message for a scratch directory that could not be created.
pub open spec fn scratch_context(inv: BuildInvocation) -> Seq<char> {
    "Unable to create directory "@ + match inv.scratch_dir {
        Some(d) => d@,
        None => Seq::empty(),
    }
}

/// The state that `step` moves to on `event`.
pub open spec fn step_spec(v: SessionView, w: SessionView, event: Event) -> bool {
    match event {
        Event::Inspected { digest, stored, artifact_exists } => match v.phase {
            Phase::Inspect => inspect_step(v, w, digest, stored, artifact_exists),
            _ => w == v,
        },
        Event::ScratchFailed(m) => match v.phase {
            Phase::Build(_, inv) => failed_with(
                v,
                w,
                ErrorCause::Io,
                seq![scratch_context(inv), m@],
            ),
            _ => w == v,
        },
        Event::Built(st) => match v.phase {
            Phase::Build(h, _) => match failure_of(st) {
                None => w == SessionView { phase: Phase::Record(h), ..v },
                Some(f) => w.failure matches Some(e) && e.cause == ErrorCause::BuildTool(f) && w
                    == failed(v, e),
            },
            _ => w == v,
        },
        Event::Written(r) => match v.phase {
            Phase::Record(_) => match r {
                Ok(()) => w == finished_target(v, RsbinUpdateResult::Compiled),
                Err(m) => failed_with(v, w, ErrorCause::Io, seq!["Unable to write hash"@, m@]),
            },
            _ => w == v,
        },
        Event::Executed(st) => match v.phase {
            Phase::Execute => match failure_of(st) {
                None => w == SessionView { phase: Phase::Done, ..v },
                Some(f) => w.failure matches Some(e) && e.cause == ErrorCause::Execution(f) && w
                    == failed(v, e),
            },
            _ => w == v,
        },
    }
}

/// The action that a session in state `v` asks for.
pub open spec fn action_spec(v: SessionView, a: Action) -> bool {
    match v.phase {
        Phase::Inspect => {
            let scr = current_script(v);
            a matches Action::Inspect { source, record, artifact } && source@ == scr.path@ && record@
                == hash_path_of(v.env, scr.name@) && artifact@ == bin_path_of(v.env, scr.name@)
        },
        Phase::Build(_, inv) => a matches Action::Build(b) && b.program == inv.program && b.args@
            == inv.args@ && b.scratch_dir == inv.scratch_dir,
        Phase::Record(h) => {
            let scr = current_script(v);
            a matches Action::WriteHash { record, digest } && record@ == hash_path_of(
                v.env,
                scr.name@,
            ) && digest == h
        },
        Phase::Execute => a matches Action::Execute { program, args } && program@ == bin_path_of(
            v.env,
            run_script_of(v).name@,
        ) && Some(args@) == v.run_args,
        Phase::Done => a is Finish,
    }
}

/// The invariant of a session.
pub open spec fn session_wf(v: SessionView) -> bool {
    &&& 0 <= v.pos <= v.targets.len()
    &&& forall|k: int|
        0 <= k < v.targets.len() ==> ((#[trigger] v.targets[k]).script matches Some(i) ==> i
            < v.scripts.len())
    &&& v.results.len() == v.pos
    &&& forall|k: int|
        0 <= k < v.pos ==> (#[trigger] v.results[k]).name == v.targets[k].name && (
        v.results[k].outcome == RsbinUpdateResult::NotFound <==> v.targets[k].script is None)
    &&& (v.phase is Inspect || v.phase is Build || v.phase is Record) ==> v.pos < v.targets.len()
        && v.targets[v.pos].script is Some && v.failure is None
    &&& v.phase is Execute ==> v.run_args is Some && v.failure is None && v.pos == v.targets.len()
    &&& v.run_args is Some ==> v.targets.len() == 1 && v.targets[0].script is Some
    &&& v.failure is Some ==> v.phase is Done
}

/// The session of an update that has not started yet.
pub open spec fn fresh(
    env: RsbinEnv,
    scripts: Seq<RsbinScript>,
    targets: Seq<Target>,
    force: bool,
    run_args: Option<Seq<String>>,
) -> SessionView {
    SessionView {
        env,
        scripts,
        targets,
        force,
        run_args,
        pos: 0,
        phase: Phase::Done,
        results: Seq::empty(),
        failure: None,
    }
}

/// Whether `targets` asks for every registered script, in registry order.
pub open spec fn all_targets(scripts: Seq<RsbinScript>, targets: Seq<Target>) -> bool {
    &&& targets.len() == scripts.len()
    &&& forall|i: int|
        0 <= i < targets.len() ==> (#[trigger] targets[i]).name == scripts[i].name
            && targets[i].script == Some(i as usize)
}

/// Whether `targets` asks for `names`, in order, each resolved to the first
/// script of that name.
pub open spec fn named_targets(scripts: Seq<RsbinScript>, names: Seq<String>, targets: Seq<Target>) -> bool {
    &&& targets.len() == names.len()
    &&& forall|i: int|
        0 <= i < targets.len() ==> (#[trigger] targets[i]).name == names[i] && match targets[i].script {
            Some(j) => first_named(scripts, names[i]@, j as int),
            None => none_named(scripts, names[i]@),
        }
}

impl Session {
    pub closed spec fn wf(&self) -> bool {
        session_wf(self@)
    }

    /// Moves past unresolved names, reporting each as not found.
    fn settle(&mut self)
        requires
            0 <= old(self)@.pos <= old(self)@.targets.len(),
            old(self)@.results.len() == old(self)@.pos,
            old(self)@.failure is None,
            session_wf((SessionView { phase: Phase::Done, ..old(self)@ })),
        ensures
            final(self)@ == settled(old(self)@),
            session_wf(final(self)@),
    {
        let ghost v = self@;
        while self.pos < self.targets.len() && self.targets[self.pos].script.is_none()
            invariant
                v.pos <= self@.pos <= self@.targets.len(),
                next_found(self@.targets, self@.pos) == next_found(v.targets, v.pos),
                self@.results == v.results + not_found_reports(v.targets, v.pos, self@.pos),
                self@ == (SessionView { pos: self@.pos, results: self@.results, ..v }),
                session_wf((SessionView { phase: Phase::Done, ..self@ })),
            decreases self@.targets.len() - self@.pos,
        {
            let ghost before = self@.results;
            let name = self.targets[self.pos].name.clone();
            self.results.push(Report { name, outcome: RsbinUpdateResult::NotFound });
            proof {
                assert(self@.results =~= v.results + not_found_reports(v.targets, v.pos, self@.pos + 1));
            }
            self.pos = self.pos + 1;
        }
        if self.pos < self.targets.len() {
            self.phase = Phase::Inspect;
        } else if self.run_args.is_some() {
            self.phase = Phase::Execute;
        } else {
            self.phase = Phase::Done;
        }
    }

    /// An update of every registered script, in registry order.
    pub fn update_all(env: RsbinEnv, cfg: RsbinConfig, force: bool) -> (r: Session)
        ensures
            r.wf(),
            all_targets(cfg.scripts@, r@.targets),
            r@ == settled(fresh(env, cfg.scripts@, r@.targets, force, None)),
    {
        let mut targets: Vec<Target> = Vec::new();
        let mut i: usize = 0;
        while i < cfg.scripts.len()
            invariant
                i <= cfg.scripts.len(),
                all_targets(cfg.scripts@.take(i as int), targets@),
            decreases cfg.scripts.len() - i,
        {
            targets.push(Target { name: cfg.scripts[i].name.clone(), script: Some(i) });
            i = i + 1;
        }
        proof {
            assert(cfg.scripts@.take(i as int) =~= cfg.scripts@);
        }
        let mut s = Session {
            env,
            scripts: cfg.scripts,
            targets,
            force,
            run_args: None,
            pos: 0,
            phase: Phase::Done,
            results: Vec::new(),
            failure: None,
        };
        s.settle();
        s
    }

    /// An update of the scripts named, in the order given. A name that no
    /// script has is reported as not found, and the update goes on.
    pub fn update_named(env: RsbinEnv, cfg: RsbinConfig, names: Vec<String>, force: bool) -> (r: Session)
        ensures
            r.wf(),
            named_targets(cfg.scripts@, names@, r@.targets),
            r@ == settled(fresh(env, cfg.scripts@, r@.targets, force, None)),
    {
        let mut targets: Vec<Target> = Vec::new();
        let mut i: usize = 0;
        while i < names.len()
            invariant
                i <= names.len(),
                named_targets(cfg.scripts@, names@.take(i as int), targets@),
            decreases names.len() - i,
        {
            let found = lookup_script(&cfg, &names[i]);
            targets.push(Target { name: names[i].clone(), script: found });
            i = i + 1;
        }
        proof {
            assert(names@.take(i as int) =~= names@);
        }
        let mut s = Session {
            env,
            scripts: cfg.scripts,
            targets,
            force,
            run_args: None,
            pos: 0,
            phase: Phase::Done,
            results: Vec::new(),
            failure: None,
        };
        s.settle();
        s
    }

    /// What the caller must do next.
    pub fn action(&self) -> (r: Action)
        requires
            self.wf(),
        ensures
            action_spec(self@, r),
    {
        match &self.phase {
            Phase::Inspect => {
                let scr = &self.scripts[self.targets[self.pos].script.unwrap()];
                Action::Inspect {
                    source: scr.path.clone(),
                    record: self.env.hash_path(scr),
                    artifact: self.env.bin_path(scr),
                }
            },
            Phase::Build(_, inv) => Action::Build(
                BuildInvocation {
                    program: inv.program.clone(),
                    args: copy_strings(&inv.args),
                    scratch_dir: inv.scratch_dir.clone(),
                },
            ),
            Phase::Record(h) => {
                let scr = &self.scripts[self.targets[self.pos].script.unwrap()];
                Action::WriteHash { record: self.env.hash_path(scr), digest: h.clone() }
            },
            Phase::Execute => {
                let scr = &self.scripts[self.targets[0].script.unwrap()];
                let args = match &self.run_args {
                    Some(a) => copy_strings(a),
                    None => Vec::new(),
                };
                Action::Execute { program: self.env.bin_path(scr), args }
            },
            Phase::Done => Action::Finish,
        }
    }

    /// Ends the session with `e`.
    fn fail(&mut self, e: RsbinError)
        requires
            session_wf(old(self)@),
        ensures
            final(self)@ == failed(old(self)@, e),
            session_wf(final(self)@),
    {
        self.phase = Phase::Done;
        self.failure = Some(e);
    }

    /// Finishes the current target with `outcome` and moves on.
    fn finish_target(&mut self, outcome: RsbinUpdateResult)
        requires
            session_wf(old(self)@),
            old(self)@.phase is Inspect || old(self)@.phase is Record,
            outcome != RsbinUpdateResult::NotFound,
        ensures
            final(self)@ == finished_target(old(self)@, outcome),
            session_wf(final(self)@),
    {
        let n = self.targets.len();
        let name = self.targets[self.pos].name.clone();
        self.results.push(Report { name, outcome });
        proof {
            assert(self.pos < n);
        }
        self.pos = self.pos + 1;
        self.settle();
    }

    /// Decides on the current target from what inspecting it found.
    fn inspected(
        &mut self,
        digest: Result<String, String>,
        stored: Result<Option<String>, String>,
        artifact_exists: bool,
    )
        requires
            session_wf(old(self)@),
            old(self)@.phase is Inspect,
        ensures
            inspect_step(old(self)@, final(self)@, digest, stored, artifact_exists),
            session_wf(final(self)@),
    {
        let idx = self.targets[self.pos].script.unwrap();
        let h = match digest {
            Ok(h) => h,
            Err(m) => {
                let mut msg = String::from_str("Unable to calculate hash of ");
                msg.append(self.scripts[idx].path.as_str());
                let e = RsbinError::new(ErrorCause::Io, m).context(msg);
                proof {
                    assert(texts(e.context@) =~= seq![
                        "Unable to calculate hash of "@ + self@.scripts[idx as int].path@,
                        m@,
                    ]);
                }
                self.fail(e);
                return ;
            },
        };
        let stored_value = match stored {
            Ok(v) => v,
            Err(m) => {
                if !self.force {
                    let e = RsbinError::new(ErrorCause::Io, m).context(String::from_str("Unable to read hash"));
                    proof {
                        assert(texts(e.context@) =~= seq!["Unable to read hash"@, m@]);
                    }
                    self.fail(e);
                    return ;
                }
                None
            },
        };
        if needs_rebuild(self.force, &h, &stored_value, artifact_exists) {
            match self.scripts[idx].compile(&self.env) {
                Ok(inv) => {
                    self.phase = Phase::Build(h, inv);
                },
                Err(e) => {
                    self.fail(e);
                },
            }
        } else {
            self.finish_target(RsbinUpdateResult::Latest);
        }
    }

    /// Advances the session on what the caller observed. An event that does
    /// not answer the pending action changes nothing.
    pub fn step(&mut self, event: Event)
        requires
            old(self).wf(),
        ensures
            final(self).wf(),
            step_spec(old(self)@, final(self)@, event),
    {
        match event {
            Event::Inspected { digest, stored, artifact_exists } => {
                if matches!(self.phase, Phase::Inspect) {
                    self.inspected(digest, stored, artifact_exists);
                }
            },
            Event::ScratchFailed(m) => {
                if let Phase::Build(_, inv) = &self.phase {
                    let mut msg = String::from_str("Unable to create directory ");
                    match &inv.scratch_dir {
                        Some(d) => msg.append(d.as_str()),
                        None => {},
                    }
                    proof {
                        assert(msg@ =~= scratch_context(*inv));
                    }
                    let e = RsbinError::new(ErrorCause::Io, m).context(msg);
                    proof {
                        assert(texts(e.context@) =~= seq![msg@, m@]);
                    }
                    self.fail(e);
                }
            },
            Event::Built(st) => {
                if let Phase::Build(h, inv) = &self.phase {
                    match run_command(inv.program.as_str(), st, true) {
                        Ok(()) => {
                            self.phase = Phase::Record(h.clone());
                        },
                        Err(e) => {
                            self.fail(e);
                        },
                    }
                }
            },
            Event::Written(w) => {
                if matches!(self.phase, Phase::Record(_)) {
                    match w {
                        Ok(()) => {
                            self.finish_target(RsbinUpdateResult::Compiled);
                        },
                        Err(m) => {
                            let e = RsbinError::new(ErrorCause::Io, m).context(String::from_str("Unable to write hash"));
                            proof {
                                assert(texts(e.context@) =~= seq!["Unable to write hash"@, m@]);
                            }
                            self.fail(e);
                        },
                    }
                }
            },
            Event::Executed(st) => {
                if matches!(self.phase, Phase::Execute) {
                    let scr = &self.scripts[self.targets[0].script.unwrap()];
                    let path = self.env.bin_path(scr);
                    match run_command(path.as_str(), st, false) {
                        Ok(()) => {
                            self.phase = Phase::Done;
                        },
                        Err(e) => {
                            self.fail(e);
                        },
                    }
                }
            },
        }
    }

    /// Whether the session is over.
    pub fn is_done(&self) -> (r: bool)
        ensures
            r == (self@.phase is Done),
    {
        matches!(self.phase, Phase::Done)
    }

    /// The reports so far, one for each finished target, in order.
    pub fn reports(&self) -> (r: &Vec<Report>)
        ensures
            r@ == self@.results,
    {
        &self.results
    }

    /// The failure that ended the session, if any.
    pub fn failure(&self) -> (r: &Option<RsbinError>)
        ensures
            *r == self@.failure,
    {
        &self.failure
    }
}

/// The session of `update`: `-f` as the first argument forces rebuilds; no
/// names means every registered script, otherwise the scripts named.
pub fn update(env: RsbinEnv, cfg: RsbinConfig, args: Vec<String>) -> (r: Session)
    ensures
        r.wf(),
        ({
            let force = args@.len() > 0 && args@[0]@ == "-f"@;
            let names = if force {
                args@.drop_first()
            } else {
                args@
            };
            &&& r@.force == force
            &&& r@.run_args is None
            &&& if names.len() == 0 {
                all_targets(cfg.scripts@, r@.targets)
            } else {
                named_targets(cfg.scripts@, names, r@.targets)
            }
            &&& r@ == settled(fresh(env, cfg.scripts@, r@.targets, force, None))
        }),
{
    let mut args = args;
    let force = args.len() > 0 && args[0] == String::from_str("-f");
    if force {
        args.remove(0);
    }
    if args.len() == 0 {
        Session::update_all(env, cfg, force)
    } else {
        Session::update_named(env, cfg, args, force)
    }
}

/// The session of `run`: the first argument names the script, the rest are
/// handed to it. The script is first brought up to date without forcing,
/// and runs only if that succeeds.
pub fn run(env: RsbinEnv, cfg: RsbinConfig, args: Vec<String>) -> (r: Result<Session, RsbinError>)
    ensures
        args@.len() == 0 ==> (r matches Err(e) && e.cause == ErrorCause::MissingScriptName),
        args@.len() > 0 && none_named(cfg.scripts@, args@[0]@) ==> (r matches Err(e) && e.cause
            == ErrorCause::ScriptNotFound),
        r matches Ok(s) ==> {
            &&& s.wf()
            &&& args@.len() > 0
            &&& s@.targets.len() == 1
            &&& s@.targets[0].name == args@[0]
            &&& s@.targets[0].script matches Some(i) && first_named(cfg.scripts@, args@[0]@, i as int)
            &&& s@.run_args == Some(args@.drop_first())
            &&& s@ == settled(fresh(env, cfg.scripts@, s@.targets, false, Some(args@.drop_first())))
        },
        args@.len() > 0 && !none_named(cfg.scripts@, args@[0]@) ==> r is Ok,
{
    if args.len() == 0 {
        return Err(RsbinError::new(ErrorCause::MissingScriptName, String::from_str("run needs script name")));
    }
    let mut args = args;
    let ghost all = args@;
    let name = args.remove(0);
    proof {
        assert(args@ =~= all.drop_first());
    }
    match lookup_script(&cfg, &name) {
        Some(i) => {
            let mut targets: Vec<Target> = Vec::new();
            targets.push(Target { name, script: Some(i) });
            let mut s = Session {
                env,
                scripts: cfg.scripts,
                targets,
                force: false,
                run_args: Some(args),
                pos: 0,
                phase: Phase::Done,
                results: Vec::new(),
                failure: None,
            };
            s.settle();
            Ok(s)
        },
        None => Err(RsbinError::new(ErrorCause::ScriptNotFound, String::from_str("script not found"))),
    }
}

/// With its binary present and its stored digest equal to the current one,
/// an unforced update leaves a script as it is.
pub proof fn lemma_cache_hit(digest: Seq<char>)
    ensures
        !rebuild_required(false, digest, Some(digest), true),
{
}

/// A script whose content changed since its digest was stored is rebuilt.
pub proof fn lemma_changed_content_rebuilds(current: Seq<char>, stored: Seq<char>, artifact_exists: bool)
    requires
        current != stored,
    ensures
        rebuild_required(false, current, Some(stored), artifact_exists),
{
}

/// A script that was never built, having no stored digest, is built.
pub proof fn lemma_never_built_rebuilds(current: Seq<char>, artifact_exists: bool)
    ensures
        rebuild_required(false, current, None, artifact_exists),
{
}

/// A script whose binary is missing is rebuilt even when its digest matches.
pub proof fn lemma_missing_artifact_rebuilds(digest: Seq<char>)
    ensures
        rebuild_required(false, digest, Some(digest), false),
{
}

/// A forced update rebuilds whatever the digests and the binary.
pub proof fn lemma_forced_rebuilds(current: Seq<char>, stored: Option<Seq<char>>, artifact_exists: bool)
    ensures
        rebuild_required(true, current, stored, artifact_exists),
{
}

/// A failed build ends the session: the failing target gets no report, no
/// later target is attempted, and nothing is left to do.
pub proof fn lemma_build_failure_ends_batch(v: SessionView, w: SessionView, st: ProcessStatus)
    requires
        session_wf(v),
        v.phase is Build,
        failure_of(st) is Some,
        step_spec(v, w, Event::Built(st)),
    ensures
        w.phase is Done,
        w.failure is Some,
        w.pos == v.pos,
        w.results == v.results,
        forall|a: Action| action_spec(w, a) ==> a is Finish,
{
}

/// Once a session has failed, no event changes it: in particular a script
/// whose update failed is never run.
pub proof fn lemma_failed_session_is_inert(v: SessionView, w: SessionView, event: Event)
    requires
        session_wf(v),
        v.failure is Some,
        step_spec(v, w, event),
    ensures
        w == v,
{
}

/// A requested name that no script has is reported as not found, and the
/// session moves past it to the next target.
pub proof fn lemma_unknown_name_skipped(v: SessionView)
    requires
        0 <= v.pos < v.targets.len(),
        v.targets[v.pos].script is None,
    ensures
        settled(v).pos > v.pos,
        settled(v).results.len() > v.results.len(),
        settled(v).results[v.results.len() as int] == (Report {
            name: v.targets[v.pos].name,
            outcome: RsbinUpdateResult::NotFound,
        }),
{
    assert(next_found(v.targets, v.pos) == next_found(v.targets, v.pos + 1));
    lemma_next_found_bounds(v.targets, v.pos + 1);
}

proof fn lemma_next_found_bounds(targets: Seq<Target>, from: int)
    requires
        0 <= from <= targets.len(),
    ensures
        from <= next_found(targets, from) <= targets.len(),
    decreases targets.len() - from,
{
    if from < targets.len() && targets[from].script is None {
        lemma_next_found_bounds(targets, from + 1);
    }
}

} // verus!
