//! Logging in to the vault: three runs of its command-line client, and the
//! session token that the last of them prints.
//!
//! The caller runs the commands. [`login_command`] says what to run at a
//! step, and [`login_step`] says what the run's end means: the next step, the
//! session, or the error that ends the login.

use crate::vault::{arguments, failure_report, report_failure, CommandResult};
use vstd::prelude::*;
use vstd::string::StringExecFns;

verus! {

/// The pattern that finds the session token in what `unlock` prints. Its one
/// group is the token.
pub const SESSION_PATTERN: &'static str = "export BW_SESSION=\"(.*)\"";

/// The environment variable from which `unlock` takes the master password.
pub const PASSWORD_VARIABLE: &'static str = "BW_PASSWORD";

/// A step of the login.
#[derive(Debug, Clone, Copy, PartialEq, Eq, Structural)]
pub enum LoginStep {
    /// Log out, to clear what an earlier login may have left. Best effort:
    /// its failure is ignored.
    Logout,
    /// Log in with the API key.
    Login,
    /// Unlock the vault with the master password.
    Unlock,
}

impl LoginStep {
    /// The arguments of the step's command.
    pub open spec fn command(self) -> Seq<Seq<char>> {
        match self {
            LoginStep::Logout => seq!["logout"@],
            LoginStep::Login => seq!["login"@, "--apikey"@],
            LoginStep::Unlock => seq!["unlock"@, "--passwordenv"@, PASSWORD_VARIABLE@],
        }
    }

    /// The step's name in a report of its failure.
    pub open spec fn label(self) -> Seq<char> {
        match self {
            LoginStep::Logout => "logout"@,
            LoginStep::Login => "login"@,
            LoginStep::Unlock => "unlock"@,
        }
    }

    /// The step's name in a report of its failure.
    pub fn label_str(&self) -> (label: &'static str)
        ensures
            label@ == self.label(),
    {
        match self {
            LoginStep::Logout => "logout",
            LoginStep::Login => "login",
            LoginStep::Unlock => "unlock",
        }
    }
}

/// The step with which a login begins.
pub fn first_login_step() -> (step: LoginStep)
    ensures
        step == LoginStep::Logout,
{
    LoginStep::Logout
}

/// The arguments with which to run the client at `step`.
pub fn login_command(step: LoginStep) -> (args: Vec<String>)
    ensures
        arguments(args@) == step.command(),
{
    let mut args: Vec<String> = Vec::new();
    match step {
        LoginStep::Logout => {
            args.push("logout".to_owned());
        },
        LoginStep::Login => {
            args.push("login".to_owned());
            args.push("--apikey".to_owned());
        },
        LoginStep::Unlock => {
            args.push("unlock".to_owned());
            args.push("--passwordenv".to_owned());
            args.push(PASSWORD_VARIABLE.to_owned());
        },
    }
    assert(arguments(args@) =~= step.command());
    args
}

/// Why a login did not yield a session.
#[derive(Debug, PartialEq, Eq)]
pub enum LoginError {
    /// The client could not be started for the login or the unlock.
    ClientNotStarted { step: LoginStep, reason: String },
    /// The client refused the login or the unlock.
    AuthenticationFailed { step: LoginStep, stdout: String, stderr: String },
    /// The unlock went through and printed no session token.
    SessionTokenMissing,
}

pub enum LoginErrorView {
    ClientNotStarted { step: LoginStep, reason: Seq<char> },
    AuthenticationFailed { step: LoginStep, stdout: Seq<char>, stderr: Seq<char> },
    SessionTokenMissing,
}

impl View for LoginError {
    type V = LoginErrorView;

    open spec fn view(&self) -> LoginErrorView {
        match self {
            LoginError::ClientNotStarted { step, reason } => LoginErrorView::ClientNotStarted {
                step: *step,
                reason: reason@,
            },
            LoginError::AuthenticationFailed { step, stdout, stderr } => LoginErrorView::AuthenticationFailed {
                step: *step,
                stdout: stdout@,
                stderr: stderr@,
            },
            LoginError::SessionTokenMissing => LoginErrorView::SessionTokenMissing,
        }
    }
}

impl LoginErrorView {
    /// The error in words.
    pub open spec fn message(self) -> Seq<char> {
        match self {
            LoginErrorView::ClientNotStarted { step, reason } => reason,
            LoginErrorView::AuthenticationFailed { step, stdout, stderr } => failure_report(
                step.label(),
                stdout,
                stderr,
            ),
            LoginErrorView::SessionTokenMissing => "could not find BW_SESSION in unlock output"@,
        }
    }
}

impl LoginError {
    /// The error in words, for the log.
    pub fn message(&self) -> (text: String)
        ensures
            text@ == self@.message(),
    {
        match self {
            LoginError::ClientNotStarted { step, reason } => reason.clone(),
            LoginError::AuthenticationFailed { step, stdout, stderr } => report_failure(
                step.label_str(),
                stdout.as_str(),
                stderr.as_str(),
            ),
            LoginError::SessionTokenMissing => String::from_str(
                "could not find BW_SESSION in unlock output",
            ),
        }
    }
}

/// What the `regex` crate finds for a pattern in a text: what the pattern's
/// first group holds in the first match, and `None` where the pattern does
/// not compile, nothing matches, or the group took no part in the match.
pub uninterp spec fn first_group_match(pattern: Seq<char>, text: Seq<char>) -> Option<Seq<char>>;

/// Compiles `pattern` with `regex::Regex::new`, searches `text` with
/// `Regex::captures` and takes group 1 with `Captures::get`. Assumed: the
/// outcome depends on the pattern and the text alone, so it is
/// [`first_group_match`] of the two.
#[verifier::external_body]
fn find_first_group(pattern: &str, text: &str) -> (found: Option<String>)
    ensures
        found.deep_view() == first_group_match(pattern@, text@),
{
    let compiled = regex::Regex::new(pattern).ok()?;
    let captures = compiled.captures(text)?;
    captures.get(1).map(|group| group.as_str().to_string())
}

/// The session for what the pattern found in the output of `unlock`: the
/// token where one was found, and `SessionTokenMissing` where none was.
pub fn session_from_match(found: Option<String>) -> (session: Result<String, LoginError>)
    ensures
        match found {
            Some(token) => session == Ok::<String, LoginError>(token),
            None => session == Err::<String, LoginError>(LoginError::SessionTokenMissing),
        },
{
    match found {
        Some(token) => Ok(token),
        None => Err(LoginError::SessionTokenMissing),
    }
}

/// The session token in what `unlock` printed: the group of the first match
/// of [`SESSION_PATTERN`].
pub fn extract_session(unlock_output: &str) -> (session: Result<String, LoginError>)
    ensures
        match first_group_match(SESSION_PATTERN@, unlock_output@) {
            Some(token) => session matches Ok(found) && found@ == token,
            None => session == Err::<String, LoginError>(LoginError::SessionTokenMissing),
        },
{
    session_from_match(find_first_group(SESSION_PATTERN, unlock_output))
}

/// Where a login stands after a step.
#[derive(Debug, PartialEq, Eq)]
pub enum LoginProgress {
    /// Run this step next.
    Continue(LoginStep),
    /// The login is over; this is the session.
    Done { session: String },
    /// The login is over and has failed.
    Failed(LoginError),
}

pub enum LoginProgressView {
    Continue(LoginStep),
    Done { session: Seq<char> },
    Failed(LoginErrorView),
}

impl View for LoginProgress {
    type V = LoginProgressView;

    open spec fn view(&self) -> LoginProgressView {
        match self {
            LoginProgress::Continue(step) => LoginProgressView::Continue(*step),
            LoginProgress::Done { session } => LoginProgressView::Done { session: session@ },
            LoginProgress::Failed(error) => LoginProgressView::Failed(error@),
        }
    }
}

/// What the end of a run of the client means for the login, given what the
/// session pattern finds in the run's output.
///
/// The logout is best effort: however its run ends, the login goes on. A
/// login or an unlock that exits with another status than zero ends the
/// login with `AuthenticationFailed`. After the unlock the token that the
/// pattern found is the session; without one the login ends with
/// `SessionTokenMissing`.
pub open spec fn login_progress(
    step: LoginStep,
    success: bool,
    stdout: Seq<char>,
    stderr: Seq<char>,
    token: Option<Seq<char>>,
) -> LoginProgressView {
    match step {
        LoginStep::Logout => LoginProgressView::Continue(LoginStep::Login),
        LoginStep::Login => if success {
            LoginProgressView::Continue(LoginStep::Unlock)
        } else {
            LoginProgressView::Failed(LoginErrorView::AuthenticationFailed { step, stdout, stderr })
        },
        LoginStep::Unlock => if !success {
            LoginProgressView::Failed(LoginErrorView::AuthenticationFailed { step, stdout, stderr })
        } else {
            match token {
                Some(session) => LoginProgressView::Done { session },
                None => LoginProgressView::Failed(LoginErrorView::SessionTokenMissing),
            }
        },
    }
}

/// What a client that could not be started means for the login: nothing at
/// the logout, after which the login goes on, and the end of the login at
/// the two steps that follow.
pub open spec fn login_without_client(step: LoginStep, reason: Seq<char>) -> LoginProgressView {
    match step {
        LoginStep::Logout => LoginProgressView::Continue(LoginStep::Login),
        _ => LoginProgressView::Failed(LoginErrorView::ClientNotStarted { step, reason }),
    }
}

/// Takes the end of the run of `step` and says how the login goes on, see
/// [`login_progress`] and [`login_without_client`].
pub fn login_step(step: LoginStep, result: CommandResult) -> (progress: LoginProgress)
    ensures
        progress@ == match result {
            CommandResult::NotStarted { reason } => login_without_client(step, reason@),
            CommandResult::Finished(output) => login_progress(
                step,
                output.success,
                output.stdout@,
                output.stderr@,
                first_group_match(SESSION_PATTERN@, output.stdout@),
            ),
        },
{
    match step {
        LoginStep::Logout => LoginProgress::Continue(LoginStep::Login),
        LoginStep::Login => match result {
            CommandResult::NotStarted { reason } => LoginProgress::Failed(
                LoginError::ClientNotStarted { step, reason },
            ),
            CommandResult::Finished(output) => if output.success {
                LoginProgress::Continue(LoginStep::Unlock)
            } else {
                LoginProgress::Failed(
                    LoginError::AuthenticationFailed { step, stdout: output.stdout, stderr: output.stderr },
                )
            },
        },
        LoginStep::Unlock => match result {
            CommandResult::NotStarted { reason } => LoginProgress::Failed(
                LoginError::ClientNotStarted { step, reason },
            ),
            CommandResult::Finished(output) => if !output.success {
                LoginProgress::Failed(
                    LoginError::AuthenticationFailed { step, stdout: output.stdout, stderr: output.stderr },
                )
            } else {
                match extract_session(output.stdout.as_str()) {
                    Ok(session) => LoginProgress::Done { session },
                    Err(error) => LoginProgress::Failed(error),
                }
            },
        },
    }
}

/// A logout that fails changes nothing: whatever became of its run, the
/// login goes on with the same step.
pub proof fn lemma_logout_is_best_effort(
    reason: Seq<char>,
    success: bool,
    stdout: Seq<char>,
    stderr: Seq<char>,
    token: Option<Seq<char>>,
)
    ensures
        login_without_client(LoginStep::Logout, reason) == LoginProgressView::Continue(LoginStep::Login),
        login_progress(LoginStep::Logout, success, stdout, stderr, token) == LoginProgressView::Continue(
            LoginStep::Login,
        ),
{
}

} // verus!
