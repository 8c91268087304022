use vstd::prelude::*;
use vstd::string::StringExecFns;

verus! {

/// How an external process failed.
#[derive(Debug, Clone, Copy, PartialEq, Eq, Structural)]
pub enum ProcessFailure {
    /// The process exited with this non-zero status code.
    ExitCode(i32),
    /// The process was terminated by a signal and has no exit code.
    Signal,
    /// The process could not be started at all.
    SpawnFailed,
}

/// The root cause of a failed operation.
#[derive(Debug, Clone, Copy, PartialEq, Eq, Structural)]
pub enum ErrorCause {
    /// The configuration document is missing, unreadable or malformed.
    Config,
    /// A source file, hash record or directory could not be read or written.
    Io,
    /// The script's build kind has no registered build strategy.
    UnsupportedBuildKind,
    /// The build tool failed.
    BuildTool(ProcessFailure),
    /// The compiled script failed while it ran.
    Execution(ProcessFailure),
    /// `run` named a script that is not registered.
    ScriptNotFound,
    /// `run` was given no script name.
    MissingScriptName,
}

/// An error: a root cause and the human-readable context gathered on the way
/// up, outermost first.
#[derive(Debug, Clone)]
pub struct RsbinError {
    pub cause: ErrorCause,
    pub context: Vec<String>,
}

/// The texts of a sequence of strings.
pub open spec fn texts(v: Seq<String>) -> Seq<Seq<char>> {
    v.map_values(|s: String| s@)
}

/// The texts of `parts`, separated by `sep`.
pub open spec fn joined(parts: Seq<Seq<char>>, sep: Seq<char>) -> Seq<char>
    decreases parts.len(),
{
    if parts.len() == 0 {
        Seq::empty()
    } else if parts.len() == 1 {
        parts[0]
    } else {
        joined(parts.drop_last(), sep) + sep + parts.last()
    }
}

/// The decimal digits of a natural number, most significant first.
pub open spec fn digits(n: nat) -> Seq<char>
    decreases n,
{
    if n < 10 {
        seq![(('0' as u8) + (n as u8)) as char]
    } else {
        digits(n / 10) + seq![(('0' as u8) + ((n % 10) as u8)) as char]
    }
}

/// The decimal text of an integer, with a leading `-` when it is negative.
pub open spec fn decimal(n: int) -> Seq<char> {
    if n < 0 {
        seq!['-'] + digits((-n) as nat)
    } else {
        digits(n as nat)
    }
}

/// Relies on `Display` for `i32` (through `ToString::to_string`): the decimal
/// text of the number.
#[verifier::external_body]
pub(crate) fn int_text(n: i32) -> (r: String)
    ensures
        r@ == decimal(n as int),
{
    n.to_string()
}

impl RsbinError {
    /// An error with a single context message.
    pub fn new(cause: ErrorCause, msg: String) -> (r: RsbinError)
        ensures
            r.cause == cause,
            texts(r.context@) == seq![msg@],
    {
        let mut context: Vec<String> = Vec::new();
        context.push(msg);
        proof {
            assert(texts(context@) =~= seq![msg@]);
        }
        RsbinError { cause, context }
    }

    /// Wraps the error in one more, outer, context message.
    pub fn context(self, msg: String) -> (r: RsbinError)
        ensures
            r.cause == self.cause,
            texts(r.context@) == seq![msg@] + texts(self.context@),
    {
        let mut context: Vec<String> = Vec::new();
        context.push(msg);
        let mut i: usize = 0;
        while i < self.context.len()
            invariant
                i <= self.context.len(),
                texts(context@) == seq![msg@] + texts(self.context@).take(i as int),
            decreases self.context.len() - i,
        {
            let ghost before = context@;
            let item = self.context[i].clone();
            context.push(item);
            proof {
                assert(context@ =~= before.push(item));
                assert(texts(context@) =~= texts(before).push(item@));
                assert(texts(self.context@).take(i + 1) =~= texts(self.context@).take(i as int)
                    + seq![self.context@[i as int]@]);
                assert(texts(context@) =~= seq![msg@] + texts(self.context@).take(i + 1));
            }
            i = i + 1;
        }
        proof {
            assert(texts(self.context@).take(i as int) =~= texts(self.context@));
        }
        RsbinError { cause: self.cause, context }
    }

    /// The full context chain, outermost first, separated by `": "`.
    pub fn render(&self) -> (r: String)
        ensures
            r@ == joined(texts(self.context@), ": "@),
    {
        let mut out = String::new();
        let mut i: usize = 0;
        while i < self.context.len()
            invariant
                i <= self.context.len(),
                out@ == joined(texts(self.context@).take(i as int), ": "@),
            decreases self.context.len() - i,
        {
            let ghost prev = texts(self.context@).take(i as int);
            if i > 0 {
                out.append(": ");
            }
            out.append(self.context[i].as_str());
            proof {
                let next = texts(self.context@).take(i + 1);
                assert(next.drop_last() =~= prev);
                assert(next.last() == self.context@[i as int]@);
                if i == 0 {
                    assert(prev.len() == 0);
                    assert(out@ =~= joined(next, ": "@));
                }
            }
            i = i + 1;
        }
        proof {
            assert(texts(self.context@).take(i as int) =~= texts(self.context@));
        }
        out
    }
}

} // verus!
