//! Text truncation, presentation decisions, the blocking-work bridge, and
//! the remaining helpers.

use pika_backup::config::ConfigId;
use pika_backup::error::{Error, UserCanceled};
use pika_backup::utils::notification::BackupNote;
use pika_backup::utils::{
    ellipsize, error_presentation, is_backup_repo, str_contains, AsyncErr, BridgeCall,
    ConfirmationDialog, Presentation, StatusLevel, StatusRow,
};

#[test]
fn short_text_is_shown_in_full() {
    assert_eq!(ellipsize(""), "");
    assert_eq!(ellipsize("Backup failed"), "Backup failed");
    let at_threshold = "x".repeat(410);
    assert_eq!(ellipsize(&at_threshold), at_threshold);
}

#[test]
fn long_text_is_truncated_to_head_and_tail() {
    let long = "a".repeat(205) + &"b".repeat(206);
    let expected = format!("{}\n\u{2026}\n{}", "a".repeat(200), "b".repeat(200));
    assert_eq!(ellipsize(&long), expected);
}

#[test]
fn truncation_counts_characters_not_bytes() {
    let long = "\u{e9}".repeat(411);
    let expected = format!(
        "{}\n\u{2026}\n{}",
        "\u{e9}".repeat(200),
        "\u{e9}".repeat(200)
    );
    assert_eq!(ellipsize(&long), expected);
}

#[test]
fn visible_window_gets_a_dialog() {
    match error_presentation("Backup failed", "exit status 2", None, true) {
        Presentation::Dialog { primary, secondary } => {
            assert_eq!(primary, "Backup failed");
            assert_eq!(secondary.as_deref(), Some("exit status 2"));
        }
        other => panic!("expected a dialog, got {other:?}"),
    }
}

#[test]
fn empty_detail_is_omitted() {
    match error_presentation("Backup failed", "", None, true) {
        Presentation::Dialog { secondary, .. } => assert_eq!(secondary, None),
        other => panic!("expected a dialog, got {other:?}"),
    }
}

#[test]
fn hidden_window_gets_a_notification() {
    match error_presentation("Backup failed", "exit status 2", Some("backup-failed-x"), false) {
        Presentation::Notification { primary, body, notification_id } => {
            assert_eq!(primary, "Backup failed");
            assert_eq!(body.as_deref(), Some("exit status 2"));
            assert_eq!(notification_id.as_deref(), Some("backup-failed-x"));
        }
        other => panic!("expected a notification, got {other:?}"),
    }
}

#[test]
fn bridge_delivers_the_worker_result() {
    let mut call = BridgeCall::new();
    let outcome: Result<Result<u32, Error>, AsyncErr> = call.deliver(Some(Ok(7)));
    assert_eq!(outcome, Ok(Ok(7)));

    let mut call = BridgeCall::new();
    let outcome: Result<Result<u32, Error>, AsyncErr> =
        call.deliver(Some(Err(Error::UserCanceled)));
    assert_eq!(outcome, Ok(Err(Error::UserCanceled)));
}

#[test]
fn panicked_worker_yields_did_not_complete() {
    // the "probe" worker panicked: its channel closed without a value, and
    // the caller gets the distinct failure instead of waiting forever
    let mut call = BridgeCall::new();
    let outcome: Result<u32, AsyncErr> = call.deliver(None);
    assert_eq!(outcome, Err(AsyncErr::ThreadPanicked));
    assert_eq!(
        AsyncErr::ThreadPanicked.message_text(),
        "The operation terminated unexpectedly."
    );
}

#[test]
fn confirmation_dialog_is_built_and_answered() {
    let mut dialog = ConfirmationDialog::new("Delete backup?", "It is gone then.", "Cancel", "Delete");
    assert_eq!(dialog.title, "Delete backup?");
    assert_eq!(dialog.message, "It is gone then.");
    assert_eq!(dialog.cancel, "Cancel");
    assert_eq!(dialog.accept, "Delete");
    assert!(!dialog.destructive);

    dialog.set_destructive(true);
    assert!(dialog.destructive);

    assert_eq!(dialog.ask_outcome(true), Ok(()));
    assert_eq!(dialog.ask_outcome(false), Err(UserCanceled::new()));
}

#[test]
fn status_rows_carry_their_level() {
    let row = StatusRow {
        title: "Last backup".to_string(),
        subtitle: "Today".to_string(),
        icon_name: "emblem-default".to_string(),
        level: StatusLevel::Success,
    };
    assert_eq!(row.level, StatusLevel::Success);
    assert_ne!(StatusLevel::Warning, StatusLevel::Error);
}

#[test]
fn backup_notes_render_their_correlation_id() {
    let id = ConfigId::new("abc".to_string());
    assert_eq!(BackupNote::Warnings(&id).to_text(), "backup-warnings-abc");
    assert_eq!(BackupNote::Failed(&id).to_text(), "backup-failed-abc");
}

#[test]
fn substring_search_finds_the_marker() {
    assert!(str_contains("key = 1\n[repository]\nid = 2", "[repository]"));
    assert!(str_contains("[repository]", "[repository]"));
    assert!(!str_contains("[repo]", "[repository]"));
    assert!(!str_contains("", "[repository]"));
    assert!(str_contains("anything", ""));
}

#[test]
fn repository_detection_checks_all_three_conditions() {
    let good = "[repository]\nversion = 1";
    assert!(is_backup_repo(true, 64, good));
    assert!(!is_backup_repo(false, 64, good));
    assert!(!is_backup_repo(true, 1048576, good));
    assert!(!is_backup_repo(true, 64, "version = 1"));
}
