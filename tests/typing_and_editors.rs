use promptkey::editor::{classify_editor, EditorType, FocusTuning};
use promptkey::typist::{key_events, KeyEvent};

#[test]
fn down_then_up_per_unit() {
    let ev = key_events("Hé");
    assert_eq!(
        ev,
        vec![
            KeyEvent { unit: 72, key_up: false },
            KeyEvent { unit: 72, key_up: true },
            KeyEvent { unit: 0xE9, key_up: false },
            KeyEvent { unit: 0xE9, key_up: true },
        ]
    );
}

#[test]
fn surrogate_pairs_are_typed_unit_by_unit() {
    let ev = key_events("\u{1F600}");
    assert_eq!(ev.len(), 4);
    assert_eq!(ev[0], KeyEvent { unit: 0xD83D, key_up: false });
    assert_eq!(ev[3], KeyEvent { unit: 0xDE00, key_up: true });
    assert!(key_events("").is_empty());
}

#[test]
fn editor_families() {
    assert_eq!(classify_editor("Scintilla", "Win32", "notepad++.exe"), EditorType::TextCanvas);
    assert_eq!(classify_editor("Chrome_RenderWidgetHostHWND", "Chrome", "chrome.exe"), EditorType::ChromiumHost);
    assert_eq!(classify_editor("Edit", "Win32", "Code.exe"), EditorType::ChromiumHost);
    assert_eq!(classify_editor("HwndWrapper", "WPF", "devenv.exe"), EditorType::ManagedUI);
    assert_eq!(classify_editor("SunAwtFrame", "Win32", "java.exe"), EditorType::JavaToolkit);
    assert_eq!(classify_editor("Edit", "Win32", "notepad.exe"), EditorType::Generic);
}

#[test]
fn focus_tuning_per_family() {
    assert_eq!(EditorType::ManagedUI.tuning(2), FocusTuning { attempts: 2, delay_ms: 150 });
    assert_eq!(EditorType::Generic.tuning(0), FocusTuning { attempts: 1, delay_ms: 50 });
    assert_eq!(EditorType::TextCanvas.tuning(3).delay_ms, 30);
}
