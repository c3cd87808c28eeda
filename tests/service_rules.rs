use promptkey::gui_config;
use promptkey::prompt::Prompt;
use promptkey::service::{
    hotkey_command, parse_hotkey, request_context, request_source, selected_prompt,
    service_hotkeys, AppContext, HotkeyCommand, PromptSource, ServiceState, MOD_ALT, MOD_CONTROL,
    MOD_SHIFT, MOD_WIN, VK_RETURN, VK_SPACE,
};

#[test]
fn hotkey_strings() {
    assert_eq!(parse_hotkey("Ctrl+Alt+Space"), Ok((VK_SPACE, MOD_CONTROL | MOD_ALT)));
    assert_eq!(parse_hotkey(" ctrl + shift + h "), Ok((b'H' as u16, MOD_CONTROL | MOD_SHIFT)));
    assert_eq!(parse_hotkey("Win+Enter"), Ok((VK_RETURN, MOD_WIN)));
    assert_eq!(parse_hotkey("Ctrl+7"), Ok((b'7' as u16, MOD_CONTROL)));
    assert_eq!(parse_hotkey("Ctrl+Hyper+Q"), Err("Hyper".to_string()));
    assert_eq!(parse_hotkey("Ctrl++Q"), Err(String::new()));
}

#[test]
fn hotkey_ids() {
    assert_eq!(hotkey_command(1), HotkeyCommand::Inject);
    assert_eq!(hotkey_command(2), HotkeyCommand::Inject);
    assert_eq!(hotkey_command(3), HotkeyCommand::ShowSelector);
    assert_eq!(hotkey_command(4), HotkeyCommand::ShowWheel);
    assert_eq!(hotkey_command(9), HotkeyCommand::Ignore);
    let keys = service_hotkeys("Ctrl+Alt+Space");
    assert_eq!(keys[1], (3, "Ctrl+Shift+H".to_string()));
    assert_eq!(keys[2], (4, "Ctrl+Alt+Q".to_string()));
}

#[test]
fn request_planning() {
    assert_eq!(request_source(Some(5)), (PromptSource::ById(5), "wheel_select"));
    assert_eq!(request_source(None), (PromptSource::Selected, "hotkey_inject"));
    assert_eq!(selected_prompt(0), None);
    assert_eq!(selected_prompt(12), Some(12));
    let remembered = AppContext { process_name: "a.exe".to_string(), window_title: "A".to_string(), window_handle: 9 };
    let c = request_context(Some(&remembered), None);
    assert_eq!(c.process_name, "a.exe");
    assert_eq!(c.window_handle, 9);
    let u = request_context(None, None);
    assert_eq!(u.process_name, "Unknown");
    assert_eq!(u.window_title, "Unknown");
}

#[test]
fn service_state_transitions() {
    let mut s = ServiceState::new();
    assert!(!s.is_running());
    assert!(s.start_service());
    assert!(s.is_running());
    assert!(!s.start_service());
    s.stop_service();
    assert!(!s.is_running());
}

#[test]
fn interface_config_defaults() {
    gui_config::init();
    let c = gui_config::Config::with_appdata(Some("C:\\AppData"));
    assert_eq!(c.database_path, "C:\\AppData\\PromptManager\\promptmgr.db");
    assert_eq!(c.injection.order, vec!["uia".to_string(), "clipboard".to_string(), "sendinput".to_string()]);
    assert_eq!(gui_config::Config::with_appdata(None).database_path, "promptmgr.db");
}

#[test]
fn prompt_category_is_first_tag() {
    let mut p = Prompt {
        id: Some(1),
        name: "n".to_string(),
        tags: Some(vec!["work".to_string(), "mail".to_string()]),
        content: "c".to_string(),
        content_type: None,
        variables_json: None,
        app_scopes_json: None,
        inject_order: None,
        version: Some(1),
        updated_at: None,
    };
    assert_eq!(p.category(), Some(&"work".to_string()));
    p.tags = Some(Vec::new());
    assert_eq!(p.category(), None);
}

#[test]
fn settings_hotkey_normalization() {
    assert_eq!(gui_config::normalize_hotkey(None), "Ctrl+Alt+Space");
    assert_eq!(gui_config::normalize_hotkey(Some("shift + q")), "Shift+Ctrl+Alt+Q");
    assert_eq!(gui_config::normalize_hotkey(Some("ctrl+alt+F5")), "Ctrl+Alt+Space");
    assert_eq!(gui_config::normalize_hotkey(Some("Control+Alt+7")), "Ctrl+Alt+7");
    assert_eq!(gui_config::normalize_hotkey(Some("alt+ctrl+SPACE")), "Alt+Ctrl+Space");
}
