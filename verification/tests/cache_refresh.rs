use bitwarden_secrets_operator::json::Json;
use bitwarden_secrets_operator::refresh::{
    first_refresh_step, interpret_output, refresh_command, refresh_step, Cause, RefreshProgress,
    RefreshStep, VaultCall, VaultCallFailed,
};
use bitwarden_secrets_operator::vault::{CommandOutput, CommandResult};

const SYNCED: &str = "{\"success\": true}";

fn finished(success: bool, stdout: &str, stderr: &str) -> CommandResult {
    CommandResult::Finished(CommandOutput {
        success,
        stdout: stdout.to_string(),
        stderr: stderr.to_string(),
    })
}

fn read(step: RefreshStep, stdout: &str) -> RefreshProgress {
    interpret_output(step, stdout.to_string(), "warn".to_string(), Json::parse(stdout))
}

fn listing_step() -> RefreshStep {
    RefreshStep::ListItems { folder_id: "f".to_string() }
}

fn failure_of(progress: RefreshProgress) -> VaultCallFailed {
    match progress {
        RefreshProgress::Failed(failure) => failure,
        other => panic!("the refresh did not fail: {:?}", other),
    }
}

fn next_of(progress: RefreshProgress) -> RefreshStep {
    match progress {
        RefreshProgress::Continue(step) => step,
        other => panic!("the refresh did not go on: {:?}", other),
    }
}

#[test]
fn the_refresh_commands_carry_the_session() {
    assert_eq!(first_refresh_step(), RefreshStep::Sync);
    assert_eq!(refresh_command(&RefreshStep::Sync, "tok", "kubernetes"), vec!["sync", "--session", "tok"]);
    assert_eq!(
        refresh_command(&RefreshStep::GetFolder, "tok", "kubernetes"),
        vec!["get", "folder", "kubernetes", "--session", "tok"]
    );
    assert_eq!(
        refresh_command(&RefreshStep::ListItems { folder_id: "f-1".to_string() }, "tok", "kubernetes"),
        vec!["list", "items", "--folderid", "f-1", "--session", "tok"]
    );
}

#[test]
fn a_refresh_runs_sync_folder_listing() {
    let step = next_of(refresh_step(RefreshStep::Sync, finished(true, SYNCED, "")));
    assert_eq!(step, RefreshStep::GetFolder);
    let step = next_of(refresh_step(step, finished(true, "{\"object\": \"folder\", \"id\": \"f-1\"}", "")));
    assert_eq!(step, RefreshStep::ListItems { folder_id: "f-1".to_string() });
    let listing = "[{\"name\": \"db\", \"login\": {\"username\": \"u\", \"password\": \"p\"}}, {\"name\": \"wifi\", \"notes\": \"s\"}]";
    match refresh_step(step, finished(true, listing, "")) {
        RefreshProgress::Done(cache) => {
            assert_eq!(cache.len(), 2);
            assert_eq!(cache.get("wifi").unwrap().str_member("notes"), Some("s"));
            assert!(cache.get("db").unwrap().get("login").is_some());
        }
        other => panic!("the refresh did not end: {:?}", other),
    }
}

#[test]
fn a_call_that_exits_with_an_error_ends_the_refresh() {
    let failure = failure_of(refresh_step(RefreshStep::Sync, finished(false, "o", "e")));
    assert_eq!(
        failure,
        VaultCallFailed {
            call: VaultCall::Sync,
            cause: Cause::ExitStatus { stdout: "o".to_string(), stderr: "e".to_string() },
        }
    );
    assert_eq!(failure.message(), "sync failed: stdout: o\nstderr: e");
    let failure = failure_of(refresh_step(RefreshStep::GetFolder, finished(false, "{\"id\": \"f\"}", "e")));
    assert_eq!(failure.message(), "get folder failed: stdout: {\"id\": \"f\"}\nstderr: e");
    let failure = failure_of(refresh_step(listing_step(), finished(false, "", "Session key is invalid.")));
    assert_eq!(failure.call, VaultCall::ListItems);
    assert_eq!(failure.message(), "list items failed: stdout: \nstderr: Session key is invalid.");
}

#[test]
fn a_client_that_does_not_start_ends_the_refresh() {
    let failure = failure_of(refresh_step(
        RefreshStep::GetFolder,
        CommandResult::NotStarted { reason: "No such file or directory".to_string() },
    ));
    assert_eq!(
        failure,
        VaultCallFailed {
            call: VaultCall::GetFolder,
            cause: Cause::ClientNotStarted { reason: "No such file or directory".to_string() },
        }
    );
    assert_eq!(failure.message(), "No such file or directory");
}

#[test]
fn sync_output_that_is_no_json_ends_the_refresh_at_the_sync() {
    let failure = failure_of(refresh_step(RefreshStep::Sync, finished(true, "Syncing complete.", "")));
    assert_eq!(failure.call, VaultCall::Sync);
    match &failure.cause {
        Cause::UnreadableOutput { stdout, stderr, message } => {
            assert_eq!(stdout, "Syncing complete.");
            assert_eq!(stderr, "");
            assert!(!message.is_empty());
        }
        other => panic!("another cause: {:?}", other),
    }
    assert!(failure.message().starts_with("sync failed: stdout: Syncing complete.\nstderr: \n"));
}

#[test]
fn output_that_is_no_json_ends_the_refresh_and_is_kept() {
    let failure = failure_of(refresh_step(RefreshStep::GetFolder, finished(true, "Not found.", "warn")));
    assert_eq!(failure.call, VaultCall::GetFolder);
    match &failure.cause {
        Cause::UnreadableOutput { stdout, stderr, message } => {
            assert_eq!(stdout, "Not found.");
            assert_eq!(stderr, "warn");
            assert_eq!(
                failure.message(),
                format!("get folder failed: stdout: Not found.\nstderr: warn\n{}", message)
            );
        }
        other => panic!("another cause: {:?}", other),
    }
    let failure = failure_of(refresh_step(listing_step(), finished(true, "[{", "")));
    assert_eq!(failure.call, VaultCall::ListItems);
    assert!(matches!(failure.cause, Cause::UnreadableOutput { .. }));
    assert!(failure.message().starts_with("list items failed: stdout: [{\nstderr: \n"));
}

#[test]
fn any_json_document_passes_for_the_output_of_sync() {
    assert_eq!(next_of(read(RefreshStep::Sync, "null")), RefreshStep::GetFolder);
    assert_eq!(next_of(read(RefreshStep::Sync, "[1, 2]")), RefreshStep::GetFolder);
    assert_eq!(next_of(read(RefreshStep::Sync, SYNCED)), RefreshStep::GetFolder);
}

#[test]
fn a_folder_without_an_id_ends_the_refresh() {
    let failure = failure_of(read(RefreshStep::GetFolder, "{\"name\": \"kubernetes\"}"));
    assert_eq!(
        failure,
        VaultCallFailed {
            call: VaultCall::GetFolder,
            cause: Cause::FolderWithoutId {
                stdout: "{\"name\": \"kubernetes\"}".to_string(),
                stderr: "warn".to_string(),
            },
        }
    );
    assert_eq!(
        failure.message(),
        "get folder failed: stdout: {\"name\": \"kubernetes\"}\nstderr: warn\nfolder has no id"
    );
    let failure = failure_of(read(RefreshStep::GetFolder, "{\"id\": null}"));
    assert!(matches!(failure.cause, Cause::FolderWithoutId { .. }));
    let failure = failure_of(read(RefreshStep::GetFolder, "[]"));
    assert!(matches!(failure.cause, Cause::FolderWithoutId { .. }));
}

#[test]
fn an_item_without_a_name_ends_the_refresh() {
    let failure = failure_of(read(listing_step(), "[{\"notes\": \"x\"}]"));
    assert_eq!(
        failure,
        VaultCallFailed {
            call: VaultCall::ListItems,
            cause: Cause::ItemWithoutName {
                stdout: "[{\"notes\": \"x\"}]".to_string(),
                stderr: "warn".to_string(),
            },
        }
    );
    assert_eq!(
        failure.message(),
        "list items failed: stdout: [{\"notes\": \"x\"}]\nstderr: warn\nitem has no name"
    );
}

#[test]
fn a_listing_that_is_no_array_gives_an_empty_cache() {
    match read(listing_step(), "{\"message\": \"none\"}") {
        RefreshProgress::Done(cache) => assert_eq!(cache.len(), 0),
        other => panic!("the refresh did not end: {:?}", other),
    }
}

#[test]
fn a_failed_refresh_is_absorbed_without_loss() {
    let listing = "[{\"name\": \"db\", \"notes\": \"kept\"}]";
    let mut cache = match read(listing_step(), listing) {
        RefreshProgress::Done(cache) => cache,
        other => panic!("the refresh did not end: {:?}", other),
    };
    let refreshed = match refresh_step(RefreshStep::Sync, finished(false, "", "offline")) {
        RefreshProgress::Done(fresh) => Ok(fresh),
        RefreshProgress::Failed(failure) => Err(failure),
        RefreshProgress::Continue(_) => panic!("a failed sync goes nowhere"),
    };
    let failure = cache.absorb(refreshed).unwrap();
    assert_eq!(failure.call, VaultCall::Sync);
    assert_eq!(cache.len(), 1);
    assert_eq!(cache.get("db").unwrap().str_member("notes"), Some("kept"));
}
