use promptkey::clipboard::{ClipAction, ClipEvent, ClipboardTransaction};
use promptkey::orchestrator::{InjectionError, Orchestration, OrchestratorAction};
use promptkey::strategy::InjectionStrategy;
use promptkey::writer::{
    AccessibilityWriter, Delivery, InsertionMode, TargetInfo, WriterAction, WriterError,
    WriterEvent, WriterOutcome, WriterSettings, WriterStage,
};

fn settings(mode: InsertionMode, max_retries: u32) -> WriterSettings {
    WriterSettings {
        mode,
        pre_inject_delay: 80,
        focus_retry_count: 3,
        verify: true,
        max_retries,
        allow_clipboard: true,
    }
}

fn target(value: bool, read_only: bool, range: bool, password: bool) -> TargetInfo {
    TargetInfo {
        class_name: "Edit".to_string(),
        framework_id: "Win32".to_string(),
        process_name: "notepad.exe".to_string(),
        is_password: password,
        has_value: value,
        value_read_only: read_only,
        has_text_range: range,
    }
}

/// A control in a window, with a clipboard beside it, that answers the
/// writer's requests.
struct FakeControl {
    value: String,
    selection: Option<u64>,
    caret_range: bool,
    caret_at_end: bool,
    stuck_selection: bool,
    freeze_value: bool,
    clipboard_ok: bool,
    typing_ok: bool,
    requests: Vec<&'static str>,
    read_backs: u32,
    writes: Vec<String>,
    delivered: Vec<Delivery>,
    selection_at_delivery: Vec<Option<u64>>,
}

impl FakeControl {
    fn new(value: &str) -> FakeControl {
        FakeControl {
            value: value.to_string(),
            selection: None,
            caret_range: false,
            caret_at_end: false,
            stuck_selection: false,
            freeze_value: false,
            clipboard_ok: true,
            typing_ok: true,
            requests: Vec::new(),
            read_backs: 0,
            writes: Vec::new(),
            delivered: Vec::new(),
            selection_at_delivery: Vec::new(),
        }
    }
}

fn drive(w: &mut AccessibilityWriter, c: &mut FakeControl, t: TargetInfo) -> Result<WriterOutcome, WriterError> {
    let mut target = Some(t);
    let mut action = w.action();
    loop {
        let ev = match action {
            WriterAction::FocusWindow(_) => {
                c.requests.push("focus");
                WriterEvent::Focused(true)
            }
            WriterAction::LocateTarget => {
                c.requests.push("locate");
                WriterEvent::Located(target.take().unwrap())
            }
            WriterAction::SelectCaretRange => {
                c.requests.push("caret");
                WriterEvent::Done(c.caret_range)
            }
            WriterAction::ReadSelection => {
                c.requests.push("read_selection");
                WriterEvent::Selection(c.selection)
            }
            WriterAction::CollapseSelection => {
                c.requests.push("collapse");
                if !c.stuck_selection {
                    c.selection = c.selection.map(|_| 0);
                }
                WriterEvent::Selection(c.selection)
            }
            WriterAction::ProbeSelectionByCopy => {
                c.requests.push("probe");
                WriterEvent::Done(false)
            }
            WriterAction::PressRight => {
                c.requests.push("right");
                WriterEvent::Selection(c.selection.map(|_| 0))
            }
            WriterAction::FocusElement(_) => {
                c.requests.push("focus_element");
                WriterEvent::Done(true)
            }
            WriterAction::ReadValue => {
                c.requests.push("read_value");
                WriterEvent::Value(Some(c.value.clone()))
            }
            WriterAction::WriteValue(v) => {
                c.requests.push("write_value");
                c.writes.push(v.clone());
                if !c.freeze_value {
                    c.value = v;
                }
                WriterEvent::Done(true)
            }
            WriterAction::ReadBack(_) => {
                c.requests.push("read_back");
                c.read_backs += 1;
                WriterEvent::Value(Some(c.value.clone()))
            }
            WriterAction::MoveCaretToEnd => {
                c.requests.push("caret_to_end");
                c.caret_at_end = true;
                WriterEvent::Done(true)
            }
            WriterAction::Deliver(d) => {
                c.requests.push("deliver");
                c.delivered.push(d);
                c.selection_at_delivery.push(c.selection);
                WriterEvent::Done(match d {
                    Delivery::Clipboard => c.clipboard_ok,
                    Delivery::Typing => c.typing_ok,
                })
            }
            WriterAction::Finish(r) => return r,
        };
        action = w.on_event(ev);
    }
}

fn paste_through_clipboard(text: &str) -> bool {
    let mut board: Option<Vec<u16>> = Some(vec![1, 0]);
    let mut tx = ClipboardTransaction::new(text);
    let mut action = tx.action();
    loop {
        let ev = match action {
            ClipAction::Open(_) => ClipEvent::Opened(true),
            ClipAction::ReadText => ClipEvent::Read(board.clone()),
            ClipAction::ReplaceText(u) => {
                board = Some(u);
                ClipEvent::Replaced(true)
            }
            ClipAction::Paste(_) => ClipEvent::Pasted(true),
            ClipAction::RestoreText(_, u) => {
                board = Some(u);
                ClipEvent::Restored(true)
            }
            ClipAction::Finish(r) => return r.is_ok(),
        };
        action = tx.on_event(ev);
    }
}

#[test]
fn scenario_overwrite_structured_write() {
    let mut orch = Orchestration::new(vec![InjectionStrategy::UIA, InjectionStrategy::Clipboard]);
    assert_eq!(orch.action(), OrchestratorAction::Attempt(InjectionStrategy::UIA));
    let mut c = FakeControl::new("old text");
    let mut w = AccessibilityWriter::new("Hello".to_string(), settings(InsertionMode::Overwrite, 3));
    let r = drive(&mut w, &mut c, target(true, false, true, false));
    assert_eq!(r, Ok(WriterOutcome::Structured));
    assert_eq!(c.value, "Hello");
    assert_eq!(c.read_backs, 1);
    assert!(c.delivered.is_empty());
    let end = orch.report(r.is_ok(), 4200);
    assert_eq!(end, OrchestratorAction::Succeeded(InjectionStrategy::UIA, 5));
    assert_eq!(InjectionStrategy::UIA.name(), "UIA");
}

#[test]
fn scenario_append_text_range_only() {
    let mut orch = Orchestration::new(vec![InjectionStrategy::UIA, InjectionStrategy::Clipboard]);
    let mut c = FakeControl::new("abc");
    let mut w = AccessibilityWriter::new("Hello".to_string(), settings(InsertionMode::Append, 3));
    let r = drive(&mut w, &mut c, target(false, false, true, false));
    assert!(c.caret_at_end);
    let end_pos = c.requests.iter().position(|r| *r == "caret_to_end").unwrap();
    let deliver_pos = c.requests.iter().position(|r| *r == "deliver").unwrap();
    assert!(end_pos < deliver_pos);
    assert_eq!(c.delivered, vec![Delivery::Clipboard]);
    assert!(paste_through_clipboard("Hello"));
    assert_eq!(r, Ok(WriterOutcome::Delivered(Delivery::Clipboard)));
    match orch.report(r.is_ok(), 350) {
        OrchestratorAction::Succeeded(_, ms) => assert!(ms > 0),
        other => panic!("unexpected {:?}", other),
    }
}

#[test]
fn scenario_password_field_skips_structured_write() {
    let mut c = FakeControl::new("secret");
    let mut w = AccessibilityWriter::new("Hello".to_string(), settings(InsertionMode::Overwrite, 3));
    let r = drive(&mut w, &mut c, target(true, false, true, true));
    assert!(c.writes.is_empty());
    assert!(!c.requests.contains(&"write_value"));
    assert!(!c.requests.contains(&"read_value"));
    assert_eq!(c.delivered[0], Delivery::Clipboard);
    assert_eq!(r, Ok(WriterOutcome::Delivered(Delivery::Clipboard)));
}

#[test]
fn scenario_all_strategies_fail() {
    let mut orch = Orchestration::new(vec![
        InjectionStrategy::UIA,
        InjectionStrategy::Clipboard,
        InjectionStrategy::SendInput,
    ]);
    let mut c = FakeControl::new("x");
    c.clipboard_ok = false;
    c.typing_ok = false;
    let mut w = AccessibilityWriter::new("Hello".to_string(), settings(InsertionMode::Insert, 3));
    let r = drive(&mut w, &mut c, target(false, false, false, false));
    assert_eq!(r, Err(WriterError::DeliveryFailed));
    assert_eq!(c.delivered, vec![Delivery::Clipboard, Delivery::Typing]);
    assert_eq!(orch.report(false, 10), OrchestratorAction::Attempt(InjectionStrategy::Clipboard));
    assert_eq!(orch.report(false, 10), OrchestratorAction::Attempt(InjectionStrategy::SendInput));
    assert_eq!(
        orch.report(false, 10),
        OrchestratorAction::Failed(InjectionError::AllStrategiesFailed)
    );
    assert_eq!(c.value, "x");
}

#[test]
fn insert_collapses_selection_before_delivery() {
    let mut c = FakeControl::new("some text");
    c.selection = Some(4);
    let mut w = AccessibilityWriter::new("Hi".to_string(), settings(InsertionMode::Insert, 3));
    let r = drive(&mut w, &mut c, target(true, false, true, false));
    assert_eq!(r, Ok(WriterOutcome::Delivered(Delivery::Clipboard)));
    assert_eq!(c.requests, vec!["focus", "locate", "caret", "read_selection", "collapse", "deliver"]);
    assert_eq!(c.selection_at_delivery, vec![Some(0)]);
}

#[test]
fn insert_falls_back_to_move_right() {
    let mut c = FakeControl::new("some text");
    c.selection = Some(4);
    c.stuck_selection = true;
    let mut w = AccessibilityWriter::new("Hi".to_string(), settings(InsertionMode::Insert, 3));
    let r = drive(&mut w, &mut c, target(false, false, true, false));
    assert_eq!(r, Ok(WriterOutcome::Delivered(Delivery::Clipboard)));
    assert!(c.requests.contains(&"right"));
}

#[test]
fn selection_that_never_collapses_fails() {
    let mut w = AccessibilityWriter::new("Hi".to_string(), settings(InsertionMode::Insert, 3));
    w.on_event(WriterEvent::Focused(true));
    w.on_event(WriterEvent::Located(target(false, false, true, false)));
    w.on_event(WriterEvent::Done(false));
    w.on_event(WriterEvent::Selection(Some(3)));
    assert_eq!(w.stage(), WriterStage::Collapsing);
    w.on_event(WriterEvent::Selection(Some(3)));
    assert_eq!(w.stage(), WriterStage::MovingRight);
    let a = w.on_event(WriterEvent::Selection(Some(1)));
    assert!(matches!(a, WriterAction::Finish(Err(WriterError::SelectionNotCollapsed))));
}

#[test]
fn caret_range_fast_path() {
    let mut c = FakeControl::new("abc");
    c.caret_range = true;
    c.selection = Some(2);
    let mut w = AccessibilityWriter::new("Hi".to_string(), settings(InsertionMode::Insert, 3));
    drive(&mut w, &mut c, target(false, false, true, false)).unwrap();
    assert_eq!(c.requests, vec!["focus", "locate", "caret", "deliver"]);
}

#[test]
fn verification_reads_max_retries_times() {
    let mut c = FakeControl::new("old");
    c.freeze_value = true;
    let mut w = AccessibilityWriter::new("Hello".to_string(), settings(InsertionMode::Overwrite, 3));
    let r = drive(&mut w, &mut c, target(true, false, true, false));
    assert_eq!(c.read_backs, 3);
    assert_eq!(r, Ok(WriterOutcome::Delivered(Delivery::Clipboard)));
}

#[test]
fn verification_reads_once_when_retries_zero() {
    let mut c = FakeControl::new("old");
    c.freeze_value = true;
    let mut w = AccessibilityWriter::new("Hello".to_string(), settings(InsertionMode::Overwrite, 0));
    drive(&mut w, &mut c, target(true, false, true, false)).unwrap();
    assert_eq!(c.read_backs, 1);
}

#[test]
fn append_writes_current_value_plus_payload() {
    let mut c = FakeControl::new("abc");
    let mut w = AccessibilityWriter::new("Hello".to_string(), settings(InsertionMode::Append, 3));
    let r = drive(&mut w, &mut c, target(true, false, true, false));
    assert_eq!(r, Ok(WriterOutcome::Structured));
    assert_eq!(c.writes, vec!["abcHello".to_string()]);
}

#[test]
fn read_only_value_goes_to_delivery() {
    let mut c = FakeControl::new("abc");
    let mut w = AccessibilityWriter::new("Hello".to_string(), settings(InsertionMode::Overwrite, 3));
    drive(&mut w, &mut c, target(true, true, true, false)).unwrap();
    assert!(c.writes.is_empty());
    assert_eq!(c.delivered, vec![Delivery::Clipboard]);
}

#[test]
fn chromium_prefers_typing_and_no_clipboard_means_typing_only() {
    let mut w = AccessibilityWriter::new("Hi".to_string(), settings(InsertionMode::Overwrite, 3));
    w.on_event(WriterEvent::Focused(true));
    let mut t = target(false, false, false, false);
    t.framework_id = "Chrome".to_string();
    let a = w.on_event(WriterEvent::Located(t));
    assert!(matches!(a, WriterAction::Deliver(Delivery::Typing)));

    let mut s = settings(InsertionMode::Overwrite, 3);
    s.allow_clipboard = false;
    let mut w = AccessibilityWriter::new("Hi".to_string(), s);
    w.on_event(WriterEvent::Focused(true));
    w.on_event(WriterEvent::Located(target(false, false, false, false)));
    let a = w.on_event(WriterEvent::Done(false));
    assert!(matches!(a, WriterAction::Finish(Err(WriterError::DeliveryFailed))));
}

#[test]
fn unfocusable_window_is_access_error() {
    let mut w = AccessibilityWriter::new("Hi".to_string(), settings(InsertionMode::Insert, 3));
    assert!(matches!(w.action(), WriterAction::FocusWindow(80)));
    let a = w.on_event(WriterEvent::Focused(false));
    assert!(matches!(a, WriterAction::Finish(Err(WriterError::AccessError))));
}

#[test]
fn insertion_mode_names() {
    assert_eq!(InsertionMode::from_name("Append"), InsertionMode::Append);
    assert_eq!(InsertionMode::from_name("OVERWRITE"), InsertionMode::Overwrite);
    assert_eq!(InsertionMode::from_name("insert"), InsertionMode::Insert);
    assert_eq!(InsertionMode::from_name("other"), InsertionMode::Insert);
}
