//! The error algebra and the task runner's routing.

use pika_backup::borg;
use pika_backup::config::{BackupExists, BackupNotFound, ConfigId};
use pika_backup::error::{
    Combined, CombinedResultExt, CombinedToError, Disposition, Error, ErrorToMessage, Handler,
    Message, SecretServiceError,
};
use pika_backup::guard::GuardRegistry;

#[test]
fn message_constructors_fill_the_fields() {
    let m = Message::new("Backup failed".to_string(), "exit status 2".to_string());
    assert_eq!(m.text(), "Backup failed");
    assert_eq!(m.secondary_text(), Some("exit status 2"));
    assert_eq!(m.notification_id(), None);

    let s = Message::short("Nothing to do".to_string());
    assert_eq!(s.text(), "Nothing to do");
    assert_eq!(s.secondary_text(), None);
    assert_eq!(s.notification_id(), None);

    let n = Message::with_notification_id(
        "Backup failed".to_string(),
        "exit status 2".to_string(),
        "backup-failed-cfg".to_string(),
    );
    assert_eq!(n.notification_id(), Some("backup-failed-cfg"));
}

#[test]
fn message_renders_as_one_block() {
    let m = Message::new("Backup failed".to_string(), "exit status 2".to_string());
    assert_eq!(m.to_text(), "Backup failed\nexit status 2");
    let s = Message::short("Backup failed".to_string());
    assert_eq!(s.to_text(), "Backup failed");
}

#[test]
fn backup_exists_uses_the_fixed_template() {
    let err = BackupExists { id: ConfigId::new("x1".to_string()) };
    match Error::from_backup_exists(err) {
        Error::Message(m) => {
            assert_eq!(m.text(), "Backup with id \u{201c}x1\u{201d} already exists.");
            assert_eq!(m.secondary_text(), None);
        }
        Error::UserCanceled => panic!("expected a message"),
    }
}

#[test]
fn backup_not_found_uses_the_fixed_template() {
    let err = BackupNotFound { id: ConfigId::new("gone".to_string()) };
    match Error::from_backup_not_found(err) {
        Error::Message(m) => {
            assert_eq!(
                m.text(),
                "Could not find backup configuration with id \u{201c}gone\u{201d}."
            );
            assert_eq!(m.secondary_text(), None);
        }
        Error::UserCanceled => panic!("expected a message"),
    }
}

#[test]
fn err_to_msg_wraps_rendered_failures() {
    let ok: Result<u32, String> = Ok(5);
    assert_eq!(ok.err_to_msg("Context".to_string()), Ok(5));

    let failed: Result<u32, String> = Err("boom".to_string());
    let expected = Message::new("Context".to_string(), "boom".to_string());
    assert_eq!(failed.err_to_msg("Context".to_string()), Err(Error::Message(expected)));
}

#[test]
fn user_abort_is_detected() {
    let aborted: Result<(), Combined> =
        Err(Combined::from_borg(borg::Error::Aborted(borg::Abort::User)));
    assert!(aborted.is_borg_err_user_aborted());

    let signal: Result<(), Combined> =
        Err(Combined::from_borg(borg::Error::Aborted(borg::Abort::Signal)));
    assert!(!signal.is_borg_err_user_aborted());

    let ui: Result<(), Combined> = Err(Combined::from_ui(Error::UserCanceled));
    assert!(!ui.is_borg_err_user_aborted());

    let ok: Result<(), Combined> = Ok(());
    assert!(!ok.is_borg_err_user_aborted());
}

#[test]
fn user_abort_becomes_user_canceled() {
    let aborted: Result<(), Combined> =
        Err(Combined::from_borg(borg::Error::Aborted(borg::Abort::User)));
    assert_eq!(aborted.into_message("Backup failed".to_string()), Err(Error::UserCanceled));
}

#[test]
fn other_abort_reasons_are_still_shown() {
    // the suppression is narrow: only a user abort is silent
    let signal: Result<(), Combined> =
        Err(Combined::from_borg(borg::Error::Aborted(borg::Abort::Signal)));
    let expected = Message::new("Backup failed".to_string(), "Aborted by signal.".to_string());
    assert_eq!(
        signal.into_message("Backup failed".to_string()),
        Err(Error::Message(expected))
    );
}

#[test]
fn engine_failures_lift_into_messages() {
    let failed: Result<(), Combined> =
        Err(Combined::from_borg(borg::Error::Failed("exit status 2".to_string())));
    let expected = Message::new("Creating a backup failed".to_string(), "exit status 2".to_string());
    assert_eq!(
        failed.into_message("Creating a backup failed".to_string()),
        Err(Error::Message(expected))
    );

    let ok: Result<u8, Combined> = Ok(3);
    assert_eq!(ok.into_message("Context".to_string()), Ok(3));

    let ui: Result<u8, Combined> = Err(Combined::from_ui(Error::UserCanceled));
    assert_eq!(ui.into_message("Context".to_string()), Err(Error::UserCanceled));
}

#[test]
fn into_borg_error_splits_the_domains() {
    let ok: Result<u8, Combined> = Ok(1);
    assert_eq!(ok.into_borg_error(), Ok(Ok(1)));

    let engine: Result<u8, Combined> =
        Err(Combined::from_borg(borg::Error::Failed("lock".to_string())));
    assert_eq!(engine.into_borg_error(), Ok(Err(borg::Error::Failed("lock".to_string()))));

    let ui: Result<u8, Combined> = Err(Combined::from_ui(Error::UserCanceled));
    assert_eq!(ui.into_borg_error(), Err(Error::UserCanceled));
}

#[test]
fn secret_service_cancellation_explains_the_missing_keyring() {
    let m = Message::from_secret_service(
        "Could not store password".to_string(),
        SecretServiceError::CancelledPortalRequest,
    );
    assert_eq!(m.text(), "Could not store password");
    assert_eq!(
        m.secondary_text(),
        Some(
            "The keyring is not available. Pika Backup requires a keyring daemon (\u{201c}secret service\u{201d}) to store passwords. For installation instructions see the operating system documentation."
        )
    );

    let other = Message::from_secret_service(
        "Could not store password".to_string(),
        SecretServiceError::Other("access denied".to_string()),
    );
    assert_eq!(other.secondary_text(), Some("access denied"));
}

#[test]
fn handler_routes_success_and_cancellation_silently() {
    let h: Handler<u32> = Handler::new();
    assert!(matches!(h.handle_sync(Ok(())), Disposition::Silent));

    let h: Handler<u32> = Handler::new();
    assert!(matches!(h.handle_sync(Err(Error::UserCanceled)), Disposition::Silent));
}

#[test]
fn handler_shows_messages_anchored_to_its_context() {
    let m = Message::short("Backup failed".to_string());
    let h = Handler::new().error_transient_for(42u32);
    match h.handle_sync(Err(Error::Message(m.clone()))) {
        Disposition::Show { message, transient_for } => {
            assert_eq!(message, m);
            assert_eq!(transient_for, Some(42));
        }
        Disposition::Silent => panic!("a message must be shown"),
    }

    let bare: Handler<u32> = Handler::default();
    assert!(bare.transient_for.is_none());
    match bare.handle_sync(Err(Error::Message(m.clone()))) {
        Disposition::Show { transient_for, .. } => assert_eq!(transient_for, None),
        Disposition::Silent => panic!("a message must be shown"),
    }
}

#[test]
fn user_abort_ends_silent_and_guards_balance() {
    let mut registry = GuardRegistry::new();
    let before = registry.live_guards();

    // the dispatcher acquires a guard for the triggered operation
    let guard = registry.acquire();

    // the engine immediately reports an abort by the user
    let outcome: Result<(), Combined> =
        Err(Combined::from_borg(borg::Error::Aborted(borg::Abort::User)));
    let converted = outcome.into_message("Backup failed".to_string());

    // the operation concluded: the guard is released on this exit path too
    registry.release(guard);

    // no dialog, no notification; the counter is back at its prior value
    let h: Handler<u32> = Handler::new();
    assert!(matches!(h.handle_sync(converted), Disposition::Silent));
    assert_eq!(registry.live_guards(), before);
}
