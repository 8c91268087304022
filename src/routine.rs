use vstd::prelude::*;
use vstd::string::StringExecFns;
use crate::config::{copy_strings, RsbinBuildType, RsbinScript};
use crate::error::{decimal, int_text, texts, ErrorCause, ProcessFailure, RsbinError};
use crate::os::{bin_path_of, tmp_path_of, RsbinEnv};

verus! {

/// A build strategy: how one family of build tools is invoked.
#[derive(Debug, Clone, Copy, PartialEq, Eq, Structural)]
pub enum BuildStrategy {
    /// A compiler called with an output path and the source path.
    NativeCompiler,
    /// A build tool that also needs a scratch directory for intermediate
    /// output, and takes the script's extra flags.
    ManagedPackageBuild,
}

/// The registered strategy of each build kind; a kind without one cannot
/// be built.
pub open spec fn strategy_of(kind: RsbinBuildType) -> Option<BuildStrategy> {
    match kind {
        RsbinBuildType::Rustc => Some(BuildStrategy::NativeCompiler),
        RsbinBuildType::Ghc => Some(BuildStrategy::ManagedPackageBuild),
        _ => None,
    }
}

pub fn strategy_for(kind: RsbinBuildType) -> (r: Option<BuildStrategy>)
    ensures
        r == strategy_of(kind),
{
    match kind {
        RsbinBuildType::Rustc => Some(BuildStrategy::NativeCompiler),
        RsbinBuildType::Ghc => Some(BuildStrategy::ManagedPackageBuild),
        _ => None,
    }
}

/// One invocation of an external build tool: the program, its arguments, and
/// the scratch directory that must exist before it starts, if any.
#[derive(Debug, Clone, PartialEq, Eq)]
pub struct BuildInvocation {
    pub program: String,
    pub args: Vec<String>,
    pub scratch_dir: Option<String>,
}

/// The program that a strategy invokes.
pub open spec fn program_of(s: BuildStrategy) -> Seq<char> {
    match s {
        BuildStrategy::NativeCompiler => "rustc"@,
        BuildStrategy::ManagedPackageBuild => "ghc"@,
    }
}

/// The arguments that a strategy passes to build `scr` into its binary.
pub open spec fn args_of(s: BuildStrategy, env: RsbinEnv, scr: RsbinScript) -> Seq<Seq<char>> {
    match s {
        BuildStrategy::NativeCompiler => seq!["-o"@, bin_path_of(env, scr.name@), scr.path@],
        BuildStrategy::ManagedPackageBuild => texts(scr.build_opts@) + seq![
            "-outputdir"@,
            tmp_path_of(env, scr.name@),
            "-o"@,
            bin_path_of(env, scr.name@),
            scr.path@,
        ],
    }
}

/// The scratch directory that a strategy needs.
pub open spec fn scratch_of(s: BuildStrategy, env: RsbinEnv, scr: RsbinScript) -> Option<Seq<char>> {
    match s {
        BuildStrategy::NativeCompiler => None,
        BuildStrategy::ManagedPackageBuild => Some(tmp_path_of(env, scr.name@)),
    }
}

/// Whether `inv` is the invocation that strategy `s` makes for `scr`.
pub open spec fn is_invocation(inv: BuildInvocation, s: BuildStrategy, env: RsbinEnv, scr: RsbinScript) -> bool {
    &&& inv.program@ == program_of(s)
    &&& texts(inv.args@) == args_of(s, env, scr)
    &&& match inv.scratch_dir {
        Some(d) => scratch_of(s, env, scr) == Some(d@),
        None => scratch_of(s, env, scr).is_none(),
    }
}

/// Whether `r` is the outcome of planning the build of `scr`.
pub open spec fn is_build_plan(r: Result<BuildInvocation, RsbinError>, env: RsbinEnv, scr: RsbinScript) -> bool {
    match strategy_of(scr.build_type) {
        Some(s) => r matches Ok(inv) && is_invocation(inv, s, env, scr),
        None => r matches Err(e) && e.cause == ErrorCause::UnsupportedBuildKind,
    }
}

fn push_text(v: &mut Vec<String>, s: &str)
    ensures
        texts(final(v)@) == texts(old(v)@).push(s@),
{
    let ghost before = v@;
    v.push(String::from_str(s));
    proof {
        assert(texts(v@) =~= texts(before).push(s@));
    }
}

impl RsbinScript {
    /// Plans the build of this script into its binary, through the strategy
    /// registered for its build kind.
    pub fn compile(&self, env: &RsbinEnv) -> (r: Result<BuildInvocation, RsbinError>)
        ensures
            is_build_plan(r, *env, *self),
    {
        proof {
            reveal_strlit("rustc");
            reveal_strlit("ghc");
            reveal_strlit("-o");
            reveal_strlit("-outputdir");
        }
        match strategy_for(self.build_type) {
            Some(BuildStrategy::NativeCompiler) => {
                let mut args: Vec<String> = Vec::new();
                push_text(&mut args, "-o");
                let dst = env.bin_path(self);
                push_text(&mut args, dst.as_str());
                push_text(&mut args, self.path.as_str());
                proof {
                    assert(texts(args@) =~= seq!["-o"@, bin_path_of(*env, self.name@), self.path@]);
                }
                Ok(BuildInvocation { program: String::from_str("rustc"), args, scratch_dir: None })
            },
            Some(BuildStrategy::ManagedPackageBuild) => {
                let tmp = env.tmp_path(self);
                let mut args = copy_strings(&self.build_opts);
                push_text(&mut args, "-outputdir");
                push_text(&mut args, tmp.as_str());
                push_text(&mut args, "-o");
                let dst = env.bin_path(self);
                push_text(&mut args, dst.as_str());
                push_text(&mut args, self.path.as_str());
                proof {
                    assert(texts(args@) =~= args_of(BuildStrategy::ManagedPackageBuild, *env, *self));
                }
                Ok(BuildInvocation { program: String::from_str("ghc"), args, scratch_dir: Some(tmp) })
            },
            None => Err(RsbinError::new(ErrorCause::UnsupportedBuildKind, String::from_str("Unsupported build-type"))),
        }
    }
}

/// How an external process ended, as the operating system reported it.
#[derive(Debug, Clone, PartialEq, Eq)]
pub enum ProcessStatus {
    /// It exited with this status code.
    Exited(i32),
    /// It was terminated by a signal, with no exit code.
    Signaled,
    /// It could not be started; the reason, as text.
    SpawnFailed(String),
}

/// The failure, if any, that a process status means: only exit code 0 is
/// success.
pub open spec fn failure_of(status: ProcessStatus) -> Option<ProcessFailure> {
    match status {
        ProcessStatus::Exited(c) => if c == 0 {
            None
        } else {
            Some(ProcessFailure::ExitCode(c))
        },
        ProcessStatus::Signaled => Some(ProcessFailure::Signal),
        ProcessStatus::SpawnFailed(_) => Some(ProcessFailure::SpawnFailed),
    }
}

/// The context messages that describe the failure of the process `path`.
pub open spec fn failure_context(path: Seq<char>, status: ProcessStatus) -> Seq<Seq<char>> {
    match status {
        ProcessStatus::Exited(c) => seq![path + ": process exited with "@ + decimal(c as int)],
        ProcessStatus::Signaled => seq![path + ": interrupted by signal"@],
        ProcessStatus::SpawnFailed(reason) => seq![path + ": execution failed"@, reason@],
    }
}

/// Classifies how the process `path` ended. `during_build` tells a build
/// tool's failure from a failure of the compiled script.
pub fn run_command(path: &str, status: ProcessStatus, during_build: bool) -> (r: Result<(), RsbinError>)
    ensures
        match failure_of(status) {
            None => r is Ok,
            Some(f) => r matches Err(e) && e.cause == (if during_build {
                ErrorCause::BuildTool(f)
            } else {
                ErrorCause::Execution(f)
            }) && texts(e.context@) == failure_context(path@, status),
        },
{
    let ghost st = status;
    let (failure, msg, reason) = match status {
        ProcessStatus::Exited(c) => {
            if c == 0 {
                return Ok(());
            }
            let mut m = String::from_str(path);
            m.append(": process exited with ");
            let code = int_text(c);
            m.append(code.as_str());
            (ProcessFailure::ExitCode(c), m, None)
        },
        ProcessStatus::Signaled => {
            let mut m = String::from_str(path);
            m.append(": interrupted by signal");
            (ProcessFailure::Signal, m, None)
        },
        ProcessStatus::SpawnFailed(why) => {
            let mut m = String::from_str(path);
            m.append(": execution failed");
            (ProcessFailure::SpawnFailed, m, Some(why))
        },
    };
    let cause = if during_build {
        ErrorCause::BuildTool(failure)
    } else {
        ErrorCause::Execution(failure)
    };
    let err = match reason {
        Some(why) => RsbinError::new(cause, why).context(msg),
        None => RsbinError::new(cause, msg),
    };
    proof {
        assert(texts(err.context@) =~= failure_context(path@, st));
    }
    Err(err)
}

} // verus!
