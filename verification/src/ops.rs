//! Operation handlers: the named entry points the shell exposes, as
//! verified decision logic.
//!
//! Each operation splits into what can be decided before the sidecar runs
//! (which invocation to spawn, or an error that forecloses spawning) and
//! what to make of the captured outcome afterwards. The caller performs
//! the spawn between the two and the file mirroring around the store
//! calls; everything decided here is verified.

use vstd::prelude::*;
use vstd::string::*;
use crate::dispatch::{CommandInvocation, CommandResult, ExitPolicy};
use crate::errors::AppError;
use crate::json::{is_valid_json, json_string_literal};
use crate::json::json_quote;
use crate::store::{spec_load, Store, StoreFile};

verus! {

/// The sidecar-backed operations the shell exposes.
#[derive(Clone, Copy, Debug, PartialEq, Eq, Structural)]
pub enum Operation {
    Authenticate,
    CheckStatus,
    ListSessions,
    GetSessionResults,
    StartBatchGeneration,
    SendEmails,
}

impl Operation {
    /// The command verb the sidecar is invoked with.
    pub open spec fn spec_verb(&self) -> Seq<char> {
        match self {
            Operation::Authenticate => "authenticate"@,
            Operation::CheckStatus => "check_status"@,
            Operation::ListSessions => "list_sessions"@,
            Operation::GetSessionResults => "get_session_results"@,
            Operation::StartBatchGeneration => "batch_generate"@,
            Operation::SendEmails => "send_emails"@,
        }
    }

    /// The command verb the sidecar is invoked with.
    pub fn verb(&self) -> (r: String)
        ensures
            r@ == self.spec_verb(),
    {
        match self {
            Operation::Authenticate => String::from_str("authenticate"),
            Operation::CheckStatus => String::from_str("check_status"),
            Operation::ListSessions => String::from_str("list_sessions"),
            Operation::GetSessionResults => String::from_str("get_session_results"),
            Operation::StartBatchGeneration => String::from_str("batch_generate"),
            Operation::SendEmails => String::from_str("send_emails"),
        }
    }

    /// How this operation treats a non-success exit status: the read-only
    /// status query trusts stdout regardless; every other operation fails
    /// and surfaces stderr.
    pub fn exit_policy(&self) -> (r: ExitPolicy)
        ensures
            self is CheckStatus <==> r is TrustStdout,
    {
        match self {
            Operation::CheckStatus => ExitPolicy::TrustStdout,
            _ => ExitPolicy::FailOnNonZero,
        }
    }
}

/// The logical name of the worker sidecar that serves every operation.
pub fn worker_sidecar() -> (r: String)
    ensures
        r@ == "google_auth"@,
{
    String::from_str("google_auth")
}

/// Assemble the invocation for `op` with `args` as the positional
/// arguments, in order, after the verb.
pub fn build_invocation(op: Operation, args: Vec<String>) -> (r: CommandInvocation)
    ensures
        r.sidecar@ == "google_auth"@,
        r.verb@ == op.spec_verb(),
        r.args == args,
{
    CommandInvocation { sidecar: worker_sidecar(), verb: op.verb(), args }
}

/// The fixed payload a status query answers with when the sidecar wrote
/// nothing at all: an unresponsive sidecar is itself meaningful status.
pub open spec fn spec_default_status() -> Seq<char> {
    "{\"status\": \"not_authenticated\", \"message\": \"No response from sidecar\"}"@
}

/// Interpret a captured outcome for `op` under its exit policy. The
/// status query returns stdout whatever the exit status, substituting the
/// fixed not-authenticated payload for empty stdout; every other
/// operation returns stdout on a success exit and fails with the captured
/// stderr otherwise.
pub fn operation_outcome(op: Operation, result: CommandResult) -> (r: Result<String, AppError>)
    ensures
        op is CheckStatus && result.stdout@.len() > 0 ==> (r matches Ok(out) && out@
            == result.stdout@),
        op is CheckStatus && result.stdout@.len() == 0 ==> (r matches Ok(out) && out@
            == spec_default_status()),
        !(op is CheckStatus) && result.exit_success ==> (r matches Ok(out) && out@
            == result.stdout@),
        !(op is CheckStatus) && !result.exit_success ==> (r matches Err(e) && (e matches
            AppError::SidecarExitedNonZero { stderr } && stderr@ == result.stderr@)),
{
    let policy = op.exit_policy();
    let ghost stdout_view = result.stdout@;
    match crate::dispatch::interpret(result, policy) {
        Ok(out) => {
            if matches!(op, Operation::CheckStatus) && out.as_str().is_empty() {
                Ok(
                    String::from_str(
                        "{\"status\": \"not_authenticated\", \"message\": \"No response from sidecar\"}",
                    ),
                )
            } else {
                Ok(out)
            }
        },
        Err(e) => Err(e),
    }
}

/// The success descriptor `save_credentials` answers with, naming the
/// final on-disk location of the persisted credentials.
pub open spec fn spec_save_success_descriptor(location: Seq<char>) -> Seq<char> {
    "{\"status\": \"success\", \"message\": \"Credentials saved successfully\", \"location\": "@
        + json_string_literal(location) + "}"@
}

/// Persist credentials content read from a caller-chosen file. The
/// content must be well-formed JSON: invalid content is rejected before
/// anything changes, so no invalid credentials document is ever written.
/// On success the store holds the content under the credentials name and
/// the answer is the success descriptor naming `location`, the path the
/// caller mirrors the document to.
pub fn save_credentials(store: &mut Store, content: String, location: &str) -> (r: Result<
    String,
    AppError,
>)
    ensures
        is_valid_json(content@) ==> (r matches Ok(d) && d@ == spec_save_success_descriptor(
            location@,
        ) && final(store)@ == old(store)@.insert(StoreFile::Credentials, content@)),
        !is_valid_json(content@) ==> (r matches Err(e) && e is InvalidFormat && final(store)@
            == old(store)@),
{
    match store.save(StoreFile::Credentials, content) {
        Ok(_) => {
            let mut d = String::from_str(
                "{\"status\": \"success\", \"message\": \"Credentials saved successfully\", \"location\": ",
            );
            let quoted = json_quote(location);
            d.append(quoted.as_str());
            d.append("}");
            Ok(d)
        },
        Err(e) => Err(e),
    }
}

/// The descriptor reported when saved credentials exist, naming the path
/// they are persisted at.
pub open spec fn spec_credentials_found_descriptor(location: Seq<char>) -> Seq<char> {
    "{\"status\": \"found\", \"path\": "@ + json_string_literal(location) + "}"@
}

/// The descriptor reported when no saved credentials exist.
pub open spec fn spec_credentials_not_found_descriptor() -> Seq<char> {
    "{\"status\": \"not_found\", \"message\": \"No saved credentials found\"}"@
}

/// Report whether saved credentials exist: a found descriptor naming
/// `location`, the path the store is mirrored to, or the fixed not-found
/// descriptor. Never fails.
pub fn get_saved_credentials(store: &Store, location: &str) -> (r: String)
    ensures
        store@.dom().contains(StoreFile::Credentials) ==> r@ == spec_credentials_found_descriptor(
            location@,
        ),
        !store@.dom().contains(StoreFile::Credentials) ==> r@
            == spec_credentials_not_found_descriptor(),
{
    match store.load(StoreFile::Credentials) {
        Some(_) => {
            let mut d = String::from_str("{\"status\": \"found\", \"path\": ");
            let quoted = json_quote(location);
            d.append(quoted.as_str());
            d.append("}");
            d
        },
        None => String::from_str(
            "{\"status\": \"not_found\", \"message\": \"No saved credentials found\"}",
        ),
    }
}

/// Decide what to authenticate with: an explicit credentials path wins;
/// otherwise the persisted credentials at `saved_path`, the path the
/// store is mirrored to; with neither, the operation fails with the
/// no-credentials error before any process is spawned — an error here
/// means no invocation exists to run.
pub fn authenticate_invocation(
    store: &Store,
    credentials_path: Option<String>,
    saved_path: &str,
) -> (r: Result<CommandInvocation, AppError>)
    ensures
        credentials_path matches Some(p) ==> (r matches Ok(inv) && inv.sidecar@ == "google_auth"@
            && inv.verb@ == "authenticate"@ && inv.args.deep_view() == seq![p@]),
        credentials_path is None && store@.dom().contains(StoreFile::Credentials) ==> (
        r matches Ok(inv) && inv.sidecar@ == "google_auth"@ && inv.verb@ == "authenticate"@
            && inv.args.deep_view() == seq![saved_path@]),
        credentials_path is None && !store@.dom().contains(StoreFile::Credentials) ==> (
        r matches Err(e) && e is NoCredentials),
{
    let path: String = match credentials_path {
        Some(p) => p,
        None => {
            match store.load(StoreFile::Credentials) {
                Some(_) => saved_path.to_owned(),
                None => {
                    return Err(AppError::NoCredentials);
                },
            }
        },
    };
    let ghost path_view = path@;
    let mut args: Vec<String> = Vec::new();
    args.push(path);
    proof {
        assert(args.deep_view() =~~= seq![path_view]);
    }
    Ok(build_invocation(Operation::Authenticate, args))
}

/// The invocation for the status query: the bare verb, no arguments.
pub fn check_status_invocation() -> (r: CommandInvocation)
    ensures
        r.sidecar@ == "google_auth"@,
        r.verb@ == "check_status"@,
        r.args.deep_view() == Seq::<Seq<char>>::empty(),
{
    let args: Vec<String> = Vec::new();
    proof {
        assert(args.deep_view() =~~= Seq::<Seq<char>>::empty());
    }
    build_invocation(Operation::CheckStatus, args)
}

/// The invocation for listing sessions: the bare verb, no arguments.
pub fn list_sessions_invocation() -> (r: CommandInvocation)
    ensures
        r.sidecar@ == "google_auth"@,
        r.verb@ == "list_sessions"@,
        r.args.deep_view() == Seq::<Seq<char>>::empty(),
{
    let args: Vec<String> = Vec::new();
    proof {
        assert(args.deep_view() =~~= Seq::<Seq<char>>::empty());
    }
    build_invocation(Operation::ListSessions, args)
}

/// The invocation for retrieving one session's form results.
pub fn get_session_results_invocation(folder_id: String) -> (r: CommandInvocation)
    ensures
        r.sidecar@ == "google_auth"@,
        r.verb@ == "get_session_results"@,
        r.args.deep_view() == seq![folder_id@],
{
    let ghost folder_view = folder_id@;
    let mut args: Vec<String> = Vec::new();
    args.push(folder_id);
    proof {
        assert(args.deep_view() =~~= seq![folder_view]);
    }
    build_invocation(Operation::GetSessionResults, args)
}

/// The invocation for batch document generation: template name, group
/// data and variables, in that order, each passed as one opaque argument.
pub fn start_batch_generation_invocation(
    template_name: String,
    group_data_json: String,
    variables_json: String,
) -> (r: CommandInvocation)
    ensures
        r.sidecar@ == "google_auth"@,
        r.verb@ == "batch_generate"@,
        r.args.deep_view() == seq![template_name@, group_data_json@, variables_json@],
{
    let ghost expected = seq![template_name@, group_data_json@, variables_json@];
    let mut args: Vec<String> = Vec::new();
    args.push(template_name);
    args.push(group_data_json);
    args.push(variables_json);
    proof {
        assert(args.deep_view() =~~= expected);
    }
    build_invocation(Operation::StartBatchGeneration, args)
}

/// The invocation for sending emails: settings, group data and form
/// results, in that order, each passed as one opaque argument.
pub fn send_emails_invocation(
    settings_json: String,
    group_data_json: String,
    form_results_json: String,
) -> (r: CommandInvocation)
    ensures
        r.sidecar@ == "google_auth"@,
        r.verb@ == "send_emails"@,
        r.args.deep_view() == seq![settings_json@, group_data_json@, form_results_json@],
{
    let ghost expected = seq![settings_json@, group_data_json@, form_results_json@];
    let mut args: Vec<String> = Vec::new();
    args.push(settings_json);
    args.push(group_data_json);
    args.push(form_results_json);
    proof {
        assert(args.deep_view() =~~= expected);
    }
    build_invocation(Operation::SendEmails, args)
}

/// Persist the email settings blob, unvalidated, and answer with the
/// fixed success descriptor. Never fails.
pub fn save_email_settings(store: &mut Store, settings: String) -> (r: String)
    ensures
        final(store)@ == old(store)@.insert(StoreFile::EmailSettings, settings@),
        r@ == "{\"status\": \"success\"}"@,
{
    match store.save(StoreFile::EmailSettings, settings) {
        Ok(_) => String::from_str("{\"status\": \"success\"}"),
        Err(_) => {
            proof {
                assert(false);
            }
            String::new()
        },
    }
}

/// The persisted email settings, or the empty JSON object when none were
/// ever saved. Never fails.
pub fn get_email_settings(store: &Store) -> (r: String)
    ensures
        r@ == spec_load(store@, StoreFile::EmailSettings),
{
    store.load_or_empty(StoreFile::EmailSettings)
}

} // verus!
