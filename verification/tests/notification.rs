use log_ingest::entry::render_entry;
use log_ingest::handler::log_path_or_default;
use log_ingest::handler::response_for_persist;
use log_ingest::handler::should_notify;
use log_ingest::notify::build_notification;
use log_ingest::notify::notification_text;
use log_ingest::notify::notify_outcome;
use log_ingest::notify::prepare_notification;
use log_ingest::notify::NotifyError;
use log_ingest::timestamp::Timestamp;

#[test]
fn missing_bot_token_fails_first() {
    let r = build_notification(&None, &None, "x");
    assert!(matches!(r, Err(NotifyError::MissingBotToken)));
    let r = build_notification(&None, &Some("42".to_string()), "x");
    assert!(matches!(r, Err(NotifyError::MissingBotToken)));
}

#[test]
fn missing_chat_id_fails_next() {
    let r = build_notification(&Some("abc".to_string()), &None, "x");
    assert!(matches!(r, Err(NotifyError::MissingChatId)));
}

#[test]
fn builds_decorated_notification() {
    let token = Some("abc:def".to_string());
    let chat = Some("42".to_string());
    let request = build_notification(&token, &chat, "[t] hello").expect("configured");
    assert_eq!(request.url, "https://api.telegram.org/botabc:def/sendMessage");
    assert_eq!(request.message.chat_id, "42");
    assert_eq!(
        request.message.text,
        "\u{1F514} **Log Entry**\n```\n[t] hello\n```"
    );
    assert_eq!(request.message.parse_mode.as_deref(), Some("Markdown"));
}

#[test]
fn trims_entry_before_decorating() {
    let trimmed = notification_text("[t] msg  \n");
    assert_eq!(trimmed, "[t] msg");
}

#[test]
fn prepares_notification_from_entry() {
    let ts = Timestamp::from_parts(2024, 1, 2, 3, 4, 5).expect("valid parts");
    let entry = render_entry(&ts, "disk at 91%");
    let token = Some("abc".to_string());
    let chat = Some("42".to_string());
    let request = prepare_notification(&token, &chat, &entry).expect("configured");
    assert_eq!(
        request.message.text,
        "\u{1F514} **Log Entry**\n```\n[2024-01-02 03:04:05 UTC] disk at 91%\n```"
    );
}

#[test]
fn success_statuses_succeed() {
    assert!(notify_outcome(200, None).is_ok());
    assert!(notify_outcome(204, Some("ignored".to_string())).is_ok());
    assert!(notify_outcome(299, None).is_ok());
}

#[test]
fn failure_statuses_carry_the_body() {
    let r = notify_outcome(404, Some("chat not found".to_string()));
    match r {
        Err(NotifyError::Api(detail)) => assert_eq!(detail, "chat not found"),
        _ => panic!("a status outside the success range must fail"),
    }
    let r = notify_outcome(500, None);
    match r {
        Err(NotifyError::Api(detail)) => assert_eq!(detail, "Unknown error"),
        _ => panic!("a status outside the success range must fail"),
    }
    assert!(notify_outcome(199, None).is_err());
    assert!(notify_outcome(300, None).is_err());
}

#[test]
fn notification_failure_never_changes_the_response() {
    let persisted: Result<(), String> = Ok(());
    let with_failed_notify = response_for_persist(&persisted).expect("persisted");
    let failed_notify = notify_outcome(500, Some("boom".to_string()));
    assert!(failed_notify.is_err());
    let with_ok_notify = response_for_persist(&persisted).expect("persisted");
    assert!(notify_outcome(200, None).is_ok());
    assert_eq!(with_failed_notify.status, with_ok_notify.status);
    assert_eq!(with_failed_notify.message, with_ok_notify.message);
    assert_eq!(with_failed_notify.status, "success");
}

#[test]
fn notifies_only_after_successful_persist() {
    let persisted: Result<(), String> = Ok(());
    assert!(should_notify(&persisted));
    let failed: Result<(), String> = Err("disk full".to_string());
    assert!(!should_notify(&failed));
}

#[test]
fn log_path_defaults_when_unconfigured() {
    assert_eq!(log_path_or_default(None), "server.log");
    assert_eq!(log_path_or_default(Some("audit.log".to_string())), "audit.log");
}
