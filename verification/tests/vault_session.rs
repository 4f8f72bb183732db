use bitwarden_secrets_operator::session::{
    extract_session, first_login_step, login_command, login_step, session_from_match, LoginError,
    LoginProgress, LoginStep,
};
use bitwarden_secrets_operator::vault::{report_failure, CommandOutput, CommandResult, PROGRAM};

fn finished(success: bool, stdout: &str, stderr: &str) -> CommandResult {
    CommandResult::Finished(CommandOutput {
        success,
        stdout: stdout.to_string(),
        stderr: stderr.to_string(),
    })
}

const UNLOCKED: &str = "Your vault is now unlocked!\n\nTo unlock your vault, set your session key to the `BW_SESSION` environment variable. ex:\n$ export BW_SESSION=\"abc123==\"\n> $env:BW_SESSION=\"abc123==\"\n";

#[test]
fn the_login_runs_logout_login_unlock() {
    assert_eq!(PROGRAM, "bw");
    assert_eq!(first_login_step(), LoginStep::Logout);
    assert_eq!(login_command(LoginStep::Logout), vec!["logout"]);
    assert_eq!(login_command(LoginStep::Login), vec!["login", "--apikey"]);
    assert_eq!(login_command(LoginStep::Unlock), vec!["unlock", "--passwordenv", "BW_PASSWORD"]);
}

#[test]
fn a_failed_logout_does_not_end_the_login() {
    assert_eq!(
        login_step(LoginStep::Logout, finished(false, "", "You are not logged in.")),
        LoginProgress::Continue(LoginStep::Login)
    );
    assert_eq!(
        login_step(LoginStep::Logout, finished(true, "", "")),
        LoginProgress::Continue(LoginStep::Login)
    );
}

#[test]
fn a_login_that_went_through_is_followed_by_the_unlock() {
    assert_eq!(
        login_step(LoginStep::Login, finished(true, "You are logged in!", "")),
        LoginProgress::Continue(LoginStep::Unlock)
    );
}

#[test]
fn a_refused_login_is_an_authentication_failure() {
    let progress = login_step(LoginStep::Login, finished(false, "out", "bad key"));
    let expected = LoginError::AuthenticationFailed {
        step: LoginStep::Login,
        stdout: "out".to_string(),
        stderr: "bad key".to_string(),
    };
    assert_eq!(expected.message(), "login failed: stdout: out\nstderr: bad key");
    assert_eq!(progress, LoginProgress::Failed(expected));
}

#[test]
fn a_refused_unlock_is_an_authentication_failure() {
    let progress = login_step(LoginStep::Unlock, finished(false, UNLOCKED, "Invalid master password."));
    match progress {
        LoginProgress::Failed(error) => {
            assert_eq!(
                error.message(),
                format!("unlock failed: stdout: {}\nstderr: Invalid master password.", UNLOCKED)
            );
            assert!(matches!(error, LoginError::AuthenticationFailed { step: LoginStep::Unlock, .. }));
        }
        _ => panic!("the unlock was refused"),
    }
}

#[test]
fn the_session_is_the_token_that_unlock_prints() {
    assert_eq!(
        login_step(LoginStep::Unlock, finished(true, UNLOCKED, "")),
        LoginProgress::Done { session: "abc123==".to_string() }
    );
    assert_eq!(extract_session(UNLOCKED), Ok("abc123==".to_string()));
}

#[test]
fn the_first_match_of_the_pattern_gives_the_token() {
    let two = "export BW_SESSION=\"one\"\nexport BW_SESSION=\"two\"\n";
    assert_eq!(extract_session(two), Ok("one".to_string()));
    assert_eq!(extract_session("x export BW_SESSION=\"a\" \"b\" y"), Ok("a\" \"b".to_string()));
    assert_eq!(extract_session("export BW_SESSION=\"\""), Ok("".to_string()));
}

#[test]
fn an_unlock_without_a_token_is_a_missing_session() {
    assert_eq!(
        login_step(LoginStep::Unlock, finished(true, "Your vault is now unlocked!", "")),
        LoginProgress::Failed(LoginError::SessionTokenMissing)
    );
    assert_eq!(extract_session(""), Err(LoginError::SessionTokenMissing));
    assert_eq!(extract_session("export BW_SESSION=\"abc"), Err(LoginError::SessionTokenMissing));
    assert_eq!(extract_session("export BW_SESSION=\"a\nb\""), Err(LoginError::SessionTokenMissing));
    assert_eq!(
        LoginError::SessionTokenMissing.message(),
        "could not find BW_SESSION in unlock output"
    );
}

#[test]
fn session_from_match_takes_the_token_as_it_is() {
    assert_eq!(session_from_match(Some("tok".to_string())), Ok("tok".to_string()));
    assert_eq!(session_from_match(None), Err(LoginError::SessionTokenMissing));
}

#[test]
fn a_logout_that_cannot_be_started_does_not_end_the_login() {
    assert_eq!(
        login_step(LoginStep::Logout, CommandResult::NotStarted { reason: "No such file".to_string() }),
        LoginProgress::Continue(LoginStep::Login)
    );
}

fn login_with(logout: CommandResult) -> LoginProgress {
    let mut step = first_login_step();
    let mut results = vec![
        finished(true, "export BW_SESSION=\"T\"", ""),
        finished(true, "You are logged in!", ""),
        logout,
    ];
    loop {
        match login_step(step, results.pop().unwrap()) {
            LoginProgress::Continue(next) => step = next,
            ended => return ended,
        }
    }
}

#[test]
fn a_failed_logout_changes_nothing_in_the_session() {
    let session = LoginProgress::Done { session: "T".to_string() };
    assert_eq!(login_with(finished(true, "", "")), session);
    assert_eq!(login_with(finished(false, "", "You are not logged in.")), session);
    assert_eq!(login_with(CommandResult::NotStarted { reason: "No such file".to_string() }), session);
}

#[test]
fn a_client_that_does_not_start_ends_the_login() {
    for step in [LoginStep::Login, LoginStep::Unlock] {
        let progress = login_step(step, CommandResult::NotStarted { reason: "No such file".to_string() });
        let expected = LoginError::ClientNotStarted { step, reason: "No such file".to_string() };
        assert_eq!(expected.message(), "No such file");
        assert_eq!(progress, LoginProgress::Failed(expected));
    }
}

#[test]
fn a_failure_report_holds_both_outputs() {
    assert_eq!(report_failure("sync", "a", "b"), "sync failed: stdout: a\nstderr: b");
    assert_eq!(report_failure("x", "", ""), "x failed: stdout: \nstderr: ");
}
