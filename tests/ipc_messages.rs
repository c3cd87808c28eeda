use promptkey::ipc::{
    inject_request_message, panel_for_message, parse_message, parse_request, show_selector_message,
    show_wheel_message, IPCClient, Panel, DEBOUNCE_MS,
};

#[test]
fn test_message_format() {
    let prompt_id = 123;
    let expected = "INJECT_PROMPT:123\n";
    let actual = inject_request_message(prompt_id);
    assert_eq!(actual, expected);
}

#[test]
fn negative_id_message() {
    assert_eq!(inject_request_message(-7), "INJECT_PROMPT:-7\n");
}

#[test]
fn parse_message_reads_id() {
    assert_eq!(parse_message("INJECT_PROMPT:42\n"), Some(42));
    assert_eq!(parse_message("  INJECT_PROMPT:+5  "), Some(5));
    assert_eq!(parse_message("INJECT_PROMPT:-3"), Some(-3));
}

#[test]
fn parse_message_rejects_malformed() {
    assert_eq!(parse_message("INJECT_PROMPT:"), None);
    assert_eq!(parse_message("INJECT_PROMPT:12a"), None);
    assert_eq!(parse_message("INJECT_PROMPT: 12"), None);
    assert_eq!(parse_message("SHOW_SELECTOR"), None);
    assert_eq!(parse_message("INJECT_PROMPT:99999999999"), None);
}

#[test]
fn parse_request_needs_exact_prefix() {
    assert_eq!(parse_request("inject_prompt:1"), None);
    assert_eq!(parse_request("INJECT_PROMPT:2147483647"), Some(i32::MAX));
    assert_eq!(parse_request("INJECT_PROMPT:-2147483648"), Some(i32::MIN));
}

#[test]
fn message_round_trip() {
    let msg = inject_request_message(2024);
    assert_eq!(parse_message(&msg), Some(2024));
}

#[test]
fn selector_notification_text() {
    assert_eq!(show_selector_message(), "SHOW_SELECTOR\n");
}

#[test]
fn debounce_drops_close_notifications() {
    let mut client = IPCClient::new("\\\\.\\pipe\\test_pipe".to_string());
    assert_eq!(client.pipe_name(), "\\\\.\\pipe\\test_pipe");
    assert!(client.should_send(1000));
    assert!(!client.should_send(1100));
    assert!(!client.should_send(1000 + DEBOUNCE_MS - 1));
    assert!(client.should_send(1550));
    assert!(!client.should_send(1600));
}

#[test]
fn default_client_uses_selector_pipe() {
    let client = IPCClient::default();
    assert_eq!(client.pipe_name(), "\\\\.\\pipe\\promptkey_selector");
}

#[test]
fn panel_notifications() {
    assert_eq!(panel_for_message("SHOW_SELECTOR\n"), Some(Panel::Selector));
    assert_eq!(panel_for_message(show_wheel_message()), Some(Panel::Wheel));
    assert_eq!(panel_for_message(" show_wheel "), None);
    assert_eq!(panel_for_message("INJECT_PROMPT:1"), None);
}
