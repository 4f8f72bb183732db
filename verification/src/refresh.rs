//! Refreshing the credential cache: three runs of the vault's command-line
//! client, and the cache that the last of them lists.
//!
//! The caller runs the commands. [`refresh_command`] says what to run at a
//! step, and [`refresh_step`] says what the run's end means: the next step,
//! the new cache, or the failure that ends the refresh. The output of every
//! call is read as JSON, and a failure keeps the output of the call that
//! failed. A failure leaves the cache in use as it is, see
//! [`CredentialCache::absorb`].

use crate::cache::{listing_snapshot, CredentialCache};
use crate::json::{parsed_document, Json, JsonValue, ParseError};
use crate::vault::{arguments, failure_report, report_failure, CommandResult};
use vstd::prelude::*;
use vstd::string::StringExecFns;

verus! {

/// A call of the client that a refresh makes.
#[derive(Debug, Clone, Copy, PartialEq, Eq, Structural)]
pub enum VaultCall {
    /// Bring the local vault up to date.
    Sync,
    /// Look the folder up by its name.
    GetFolder,
    /// List the items of the folder.
    ListItems,
}

impl VaultCall {
    /// The call's name in a report of its failure.
    pub open spec fn label(self) -> Seq<char> {
        match self {
            VaultCall::Sync => "sync"@,
            VaultCall::GetFolder => "get folder"@,
            VaultCall::ListItems => "list items"@,
        }
    }

    /// The call's name in a report of its failure.
    pub fn label_str(&self) -> (label: &'static str)
        ensures
            label@ == self.label(),
    {
        match self {
            VaultCall::Sync => "sync",
            VaultCall::GetFolder => "get folder",
            VaultCall::ListItems => "list items",
        }
    }
}

/// A step of a refresh: a call, with what it needs from the steps before.
#[derive(Debug, Clone, PartialEq, Eq)]
pub enum RefreshStep {
    Sync,
    GetFolder,
    /// List the items of the folder with this id.
    ListItems { folder_id: String },
}

pub enum RefreshStepView {
    Sync,
    GetFolder,
    ListItems { folder_id: Seq<char> },
}

impl View for RefreshStep {
    type V = RefreshStepView;

    open spec fn view(&self) -> RefreshStepView {
        match self {
            RefreshStep::Sync => RefreshStepView::Sync,
            RefreshStep::GetFolder => RefreshStepView::GetFolder,
            RefreshStep::ListItems { folder_id } => RefreshStepView::ListItems { folder_id: folder_id@ },
        }
    }
}

impl RefreshStepView {
    /// The call that the step makes.
    pub open spec fn call(self) -> VaultCall {
        match self {
            RefreshStepView::Sync => VaultCall::Sync,
            RefreshStepView::GetFolder => VaultCall::GetFolder,
            RefreshStepView::ListItems { .. } => VaultCall::ListItems,
        }
    }

    /// The arguments of the step's command, for a session and the name of
    /// the folder that holds the items.
    pub open spec fn command(self, session: Seq<char>, folder: Seq<char>) -> Seq<Seq<char>> {
        match self {
            RefreshStepView::Sync => seq!["sync"@, "--session"@, session],
            RefreshStepView::GetFolder => seq!["get"@, "folder"@, folder, "--session"@, session],
            RefreshStepView::ListItems { folder_id } => seq![
                "list"@,
                "items"@,
                "--folderid"@,
                folder_id,
                "--session"@,
                session,
            ],
        }
    }
}

impl RefreshStep {
    /// The call that the step makes.
    pub fn call(&self) -> (call: VaultCall)
        ensures
            call == self@.call(),
    {
        match self {
            RefreshStep::Sync => VaultCall::Sync,
            RefreshStep::GetFolder => VaultCall::GetFolder,
            RefreshStep::ListItems { .. } => VaultCall::ListItems,
        }
    }
}

/// The step with which a refresh begins.
pub fn first_refresh_step() -> (step: RefreshStep)
    ensures
        step@ == RefreshStepView::Sync,
{
    RefreshStep::Sync
}

/// The arguments with which to run the client at `step`.
pub fn refresh_command(step: &RefreshStep, session: &str, folder: &str) -> (args: Vec<String>)
    ensures
        arguments(args@) == step@.command(session@, folder@),
{
    let mut args: Vec<String> = Vec::new();
    match step {
        RefreshStep::Sync => {
            args.push("sync".to_owned());
        },
        RefreshStep::GetFolder => {
            args.push("get".to_owned());
            args.push("folder".to_owned());
            args.push(folder.to_owned());
        },
        RefreshStep::ListItems { folder_id } => {
            args.push("list".to_owned());
            args.push("items".to_owned());
            args.push("--folderid".to_owned());
            args.push(folder_id.clone());
        },
    }
    args.push("--session".to_owned());
    args.push(session.to_owned());
    assert(arguments(args@) =~= step@.command(session@, folder@));
    args
}

/// What went wrong in a call. A call that ran keeps what it printed.
#[derive(Debug, PartialEq, Eq)]
pub enum Cause {
    /// The client could not be started.
    ClientNotStarted { reason: String },
    /// The client exited with another status than zero.
    ExitStatus { stdout: String, stderr: String },
    /// The client printed what is no JSON document; `message` is the
    /// parser's.
    UnreadableOutput { stdout: String, stderr: String, message: String },
    /// The folder that the client printed has no string `id`.
    FolderWithoutId { stdout: String, stderr: String },
    /// An item that the client listed has no string `name`.
    ItemWithoutName { stdout: String, stderr: String },
}

pub enum CauseView {
    ClientNotStarted { reason: Seq<char> },
    ExitStatus { stdout: Seq<char>, stderr: Seq<char> },
    UnreadableOutput { stdout: Seq<char>, stderr: Seq<char>, message: Seq<char> },
    FolderWithoutId { stdout: Seq<char>, stderr: Seq<char> },
    ItemWithoutName { stdout: Seq<char>, stderr: Seq<char> },
}

impl View for Cause {
    type V = CauseView;

    open spec fn view(&self) -> CauseView {
        match self {
            Cause::ClientNotStarted { reason } => CauseView::ClientNotStarted { reason: reason@ },
            Cause::ExitStatus { stdout, stderr } => CauseView::ExitStatus {
                stdout: stdout@,
                stderr: stderr@,
            },
            Cause::UnreadableOutput { stdout, stderr, message } => CauseView::UnreadableOutput {
                stdout: stdout@,
                stderr: stderr@,
                message: message@,
            },
            Cause::FolderWithoutId { stdout, stderr } => CauseView::FolderWithoutId {
                stdout: stdout@,
                stderr: stderr@,
            },
            Cause::ItemWithoutName { stdout, stderr } => CauseView::ItemWithoutName {
                stdout: stdout@,
                stderr: stderr@,
            },
        }
    }
}

/// A call of the vault's client that failed, and with it the refresh.
#[derive(Debug, PartialEq, Eq)]
pub struct VaultCallFailed {
    pub call: VaultCall,
    pub cause: Cause,
}

pub struct VaultCallFailedView {
    pub call: VaultCall,
    pub cause: CauseView,
}

impl View for VaultCallFailed {
    type V = VaultCallFailedView;

    open spec fn view(&self) -> VaultCallFailedView {
        VaultCallFailedView { call: self.call, cause: self.cause@ }
    }
}

impl VaultCallFailedView {
    /// The failure in words. For a call that ran it is the report of the
    /// call's output, see [`failure_report`], and after a line break what
    /// was wrong with the output, where the exit status was not.
    pub open spec fn message(self) -> Seq<char> {
        match self.cause {
            CauseView::ClientNotStarted { reason } => reason,
            CauseView::ExitStatus { stdout, stderr } => failure_report(self.call.label(), stdout, stderr),
            CauseView::UnreadableOutput { stdout, stderr, message } => failure_report(
                self.call.label(),
                stdout,
                stderr,
            ) + "\n"@ + message,
            CauseView::FolderWithoutId { stdout, stderr } => failure_report(
                self.call.label(),
                stdout,
                stderr,
            ) + "\nfolder has no id"@,
            CauseView::ItemWithoutName { stdout, stderr } => failure_report(
                self.call.label(),
                stdout,
                stderr,
            ) + "\nitem has no name"@,
        }
    }
}

impl VaultCallFailed {
    /// The failure in words, for the log.
    pub fn message(&self) -> (text: String)
        ensures
            text@ == self@.message(),
    {
        let label = self.call.label_str();
        match &self.cause {
            Cause::ClientNotStarted { reason } => reason.clone(),
            Cause::ExitStatus { stdout, stderr } => report_failure(label, stdout.as_str(), stderr.as_str()),
            Cause::UnreadableOutput { stdout, stderr, message } => {
                let mut text = report_failure(label, stdout.as_str(), stderr.as_str());
                text.append("\n");
                text.append(message.as_str());
                text
            },
            Cause::FolderWithoutId { stdout, stderr } => {
                let mut text = report_failure(label, stdout.as_str(), stderr.as_str());
                text.append("\nfolder has no id");
                text
            },
            Cause::ItemWithoutName { stdout, stderr } => {
                let mut text = report_failure(label, stdout.as_str(), stderr.as_str());
                text.append("\nitem has no name");
                text
            },
        }
    }
}

/// Where a refresh stands after a step.
#[derive(Debug)]
pub enum RefreshProgress {
    /// Run this step next.
    Continue(RefreshStep),
    /// The refresh is over; this is the new cache.
    Done(CredentialCache),
    /// The refresh is over and has failed.
    Failed(VaultCallFailed),
}

pub enum RefreshProgressView {
    Continue(RefreshStepView),
    Done(Map<Seq<char>, JsonValue>),
    Failed(VaultCallFailedView),
}

impl View for RefreshProgress {
    type V = RefreshProgressView;

    open spec fn view(&self) -> RefreshProgressView {
        match self {
            RefreshProgress::Continue(step) => RefreshProgressView::Continue(step@),
            RefreshProgress::Done(cache) => RefreshProgressView::Done(cache@),
            RefreshProgress::Failed(failure) => RefreshProgressView::Failed(failure@),
        }
    }
}

/// A failure of `call` for `cause`.
pub open spec fn failed(call: VaultCall, cause: CauseView) -> RefreshProgressView {
    RefreshProgressView::Failed(VaultCallFailedView { call, cause })
}

/// What a parsed text is to the refresh: the document's value, or the
/// parser's message.
pub open spec fn document_view(document: Result<Json, ParseError>) -> Result<JsonValue, Seq<char>> {
    match document {
        Ok(doc) => Ok(doc@),
        Err(error) => Err(error.message@),
    }
}

/// What the output of a call that exited with status zero means for the
/// refresh, given what the parser makes of the output.
///
/// Output that is no JSON document ends the refresh, at every step. After
/// `sync` the folder is looked up. After `get folder` the listing of the
/// folder with the printed `id` comes next; a folder without a string `id`
/// ends the refresh. After `list items` the snapshot of the listing is the
/// new cache; an item without a string `name` ends the refresh.
pub open spec fn refresh_progress(
    step: RefreshStepView,
    stdout: Seq<char>,
    stderr: Seq<char>,
    document: Result<JsonValue, Seq<char>>,
) -> RefreshProgressView {
    match document {
        Err(message) => failed(step.call(), CauseView::UnreadableOutput { stdout, stderr, message }),
        Ok(value) => match step {
            RefreshStepView::Sync => RefreshProgressView::Continue(RefreshStepView::GetFolder),
            RefreshStepView::GetFolder => match value.member_or_null("id"@).text() {
                Some(folder_id) => RefreshProgressView::Continue(
                    RefreshStepView::ListItems { folder_id },
                ),
                None => failed(VaultCall::GetFolder, CauseView::FolderWithoutId { stdout, stderr }),
            },
            RefreshStepView::ListItems { .. } => match listing_snapshot(value) {
                Some(snapshot) => RefreshProgressView::Done(snapshot),
                None => failed(VaultCall::ListItems, CauseView::ItemWithoutName { stdout, stderr }),
            },
        },
    }
}

/// How the refresh goes on after a call that exited with status zero,
/// printed `stdout` and `stderr`, and whose output the parser read as
/// `document`, see [`refresh_progress`].
pub fn interpret_output(
    step: RefreshStep,
    stdout: String,
    stderr: String,
    document: Result<Json, ParseError>,
) -> (progress: RefreshProgress)
    ensures
        progress@ == refresh_progress(step@, stdout@, stderr@, document_view(document)),
{
    let call = step.call();
    let value = match document {
        Ok(value) => value,
        Err(error) => {
            return RefreshProgress::Failed(
                VaultCallFailed {
                    call,
                    cause: Cause::UnreadableOutput { stdout, stderr, message: error.message },
                },
            );
        },
    };
    match step {
        RefreshStep::Sync => RefreshProgress::Continue(RefreshStep::GetFolder),
        RefreshStep::GetFolder => match value.str_member("id") {
            Some(folder_id) => RefreshProgress::Continue(
                RefreshStep::ListItems { folder_id: folder_id.to_owned() },
            ),
            None => RefreshProgress::Failed(
                VaultCallFailed { call, cause: Cause::FolderWithoutId { stdout, stderr } },
            ),
        },
        RefreshStep::ListItems { .. } => match CredentialCache::from_listing(&value) {
            Some(cache) => RefreshProgress::Done(cache),
            None => RefreshProgress::Failed(
                VaultCallFailed { call, cause: Cause::ItemWithoutName { stdout, stderr } },
            ),
        },
    }
}

/// Whether `document` is what the parser makes of `text`: the document that
/// `text` parses to, or some message where it parses to none.
pub open spec fn reading_of(text: Seq<char>, document: Result<JsonValue, Seq<char>>) -> bool {
    match document {
        Ok(value) => parsed_document(text) == Some(value),
        Err(_) => parsed_document(text) is None,
    }
}

/// Takes the end of the run of `step` and says how the refresh goes on.
///
/// A client that could not be started ends the refresh, and so does a run
/// that exited with another status than zero; its output is kept. The
/// output of any other run is parsed, and the refresh goes on as
/// [`refresh_progress`] says of what the parser made of it.
pub fn refresh_step(step: RefreshStep, result: CommandResult) -> (progress: RefreshProgress)
    ensures
        match result {
            CommandResult::NotStarted { reason } => progress@ == failed(
                step@.call(),
                CauseView::ClientNotStarted { reason: reason@ },
            ),
            CommandResult::Finished(output) => if !output.success {
                progress@ == failed(
                    step@.call(),
                    CauseView::ExitStatus { stdout: output.stdout@, stderr: output.stderr@ },
                )
            } else {
                exists|document: Result<JsonValue, Seq<char>>|
                    reading_of(output.stdout@, document) && progress@ == #[trigger] refresh_progress(
                        step@,
                        output.stdout@,
                        output.stderr@,
                        document,
                    )
            },
        },
{
    let call = step.call();
    match result {
        CommandResult::NotStarted { reason } => RefreshProgress::Failed(
            VaultCallFailed { call, cause: Cause::ClientNotStarted { reason } },
        ),
        CommandResult::Finished(output) => {
            if !output.success {
                RefreshProgress::Failed(
                    VaultCallFailed {
                        call,
                        cause: Cause::ExitStatus { stdout: output.stdout, stderr: output.stderr },
                    },
                )
            } else {
                let ghost step_view = step@;
                let ghost stdout = output.stdout@;
                let ghost stderr = output.stderr@;
                let document = Json::parse(output.stdout.as_str());
                let ghost reading = document_view(document);
                let progress = interpret_output(step, output.stdout, output.stderr, document);
                assert(reading_of(stdout, reading));
                assert(progress@ == refresh_progress(step_view, stdout, stderr, reading));
                progress
            }
        },
    }
}

/// Output that is no JSON document ends the refresh at the step that
/// printed it, whichever step that is, and the failure's message holds what
/// the step printed: the report of its output, then the parser's words.
pub proof fn lemma_unreadable_output_is_reported(
    step: RefreshStepView,
    stdout: Seq<char>,
    stderr: Seq<char>,
    message: Seq<char>,
)
    ensures
        refresh_progress(step, stdout, stderr, Err(message)) matches RefreshProgressView::Failed(failure)
            && failure.call == step.call() && failure.message() == failure_report(
            step.call().label(),
            stdout,
            stderr,
        ) + "\n"@ + message,
{
}

} // verus!
