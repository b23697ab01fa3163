//! Command dispatcher: the argument vector a sidecar is spawned with, and
//! the interpretation of what came back.
//!
//! Spawning is the caller's job: it executes the resolved path with the
//! argument vector from [`CommandInvocation::argv`], passing each element
//! as a discrete process argument (no shell, no quoting), waits for the
//! process to exit, decodes the two streams permissively, and hands the
//! outcome back as a [`CommandResult`]. Which outcomes count as failure is
//! decided here, under a per-operation [`ExitPolicy`].

use vstd::prelude::*;
use vstd::string::*;
use crate::errors::AppError;

verus! {

/// One sidecar run: which logical sidecar, the command verb, and the
/// remaining arguments, in order. Arguments are opaque strings; some hold
/// serialized JSON, which is passed through without inspection.
#[derive(Debug)]
pub struct CommandInvocation {
    pub sidecar: String,
    pub verb: String,
    pub args: Vec<String>,
}

/// What a finished sidecar process left behind: both streams, decoded
/// permissively, and whether its exit status reported success.
pub struct CommandResult {
    pub stdout: String,
    pub stderr: String,
    pub exit_success: bool,
}

/// How an operation treats a process that ran but exited non-success:
/// read-only status queries trust stdout regardless, mutating operations
/// fail and surface stderr.
#[derive(Clone, Copy, PartialEq, Eq, Structural)]
pub enum ExitPolicy {
    TrustStdout,
    FailOnNonZero,
}

/// The text that permissive UTF-8 decoding yields for these bytes, with
/// every invalid sequence replaced: `lossy_decode` returns exactly this.
pub uninterp spec fn lossy_decoded(bytes: Seq<u8>) -> Seq<char>;

/// Relies on String::from_utf8_lossy: it decodes any byte sequence,
/// replacing invalid sequences with the replacement character rather than
/// failing, and depends on the bytes alone.
#[verifier::external_body]
fn lossy_decode(bytes: &[u8]) -> (r: String)
    ensures
        r@ == lossy_decoded(bytes@),
{
    String::from_utf8_lossy(bytes).into_owned()
}

/// Build the captured outcome of a finished process from its raw output:
/// both streams are decoded permissively — invalid byte sequences are
/// replaced, never a reason to fail — and the exit status is kept as the
/// caller reports it.
pub fn capture(stdout: &[u8], stderr: &[u8], exit_success: bool) -> (r: CommandResult)
    ensures
        r.stdout@ == lossy_decoded(stdout@),
        r.stderr@ == lossy_decoded(stderr@),
        r.exit_success == exit_success,
{
    CommandResult { stdout: lossy_decode(stdout), stderr: lossy_decode(stderr), exit_success }
}

impl CommandInvocation {
    /// The process argument vector: the verb first, then the arguments,
    /// exactly in the order given.
    pub fn argv(&self) -> (r: Vec<String>)
        ensures
            r.deep_view() == seq![self.verb@] + self.args.deep_view(),
    {
        let mut out: Vec<String> = Vec::new();
        out.push(self.verb.clone());
        let mut i: usize = 0;
        while i < self.args.len()
            invariant
                0 <= i <= self.args@.len(),
                out.deep_view() == seq![self.verb@] + self.args.deep_view().take(i as int),
            decreases self.args@.len() - i,
        {
            out.push(self.args.get(i).unwrap().clone());
            proof {
                assert(seq![self.verb@] + self.args.deep_view().take(i as int) + seq![
                    self.args.deep_view()[i as int],
                ] =~= seq![self.verb@] + self.args.deep_view().take(i + 1));
            }
            i = i + 1;
        }
        proof {
            assert(self.args.deep_view().take(self.args@.len() as int) =~= self.args.deep_view());
        }
        out
    }
}

/// Interpret a captured process outcome under the operation's exit policy:
/// trusted stdout is returned as-is whatever the exit status; under the
/// strict policy a non-success exit becomes the error carrying stderr, and
/// a success exit returns stdout.
pub fn interpret(result: CommandResult, policy: ExitPolicy) -> (r: Result<String, AppError>)
    ensures
        policy is TrustStdout || result.exit_success ==> (r matches Ok(out) && out@
            == result.stdout@),
        policy is FailOnNonZero && !result.exit_success ==> (r matches Err(e) && (e matches
            AppError::SidecarExitedNonZero { stderr } && stderr@ == result.stderr@)),
{
    match policy {
        ExitPolicy::TrustStdout => Ok(result.stdout),
        ExitPolicy::FailOnNonZero => {
            if result.exit_success {
                Ok(result.stdout)
            } else {
                Err(AppError::SidecarExitedNonZero { stderr: result.stderr })
            }
        },
    }
}

} // verus!
