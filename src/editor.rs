//! Editor profiles: a coarse classification of the target control, used
//! only to tune how often and how patiently focus is retried.
use vstd::prelude::*;

use crate::text::{has_prefix, lower_of, lowercase, str_equals, str_starts_with};

verus! {

/// The editor families that need different timing.
#[derive(Debug, Clone, Copy, PartialEq, Eq, Structural)]
pub enum EditorType {
    Generic,
    /// A control that draws its own text (Scintilla).
    TextCanvas,
    /// A Chromium-hosted control (Electron editors, browsers).
    ChromiumHost,
    /// A managed UI toolkit control (WPF, XAML).
    ManagedUI,
    /// A Java toolkit control (AWT, Swing).
    JavaToolkit,
}

/// The family of a control, from its window class name, its accessibility
/// framework id and its process image name.
pub open spec fn profile_of(class_name: Seq<char>, framework: Seq<char>, process: Seq<char>) -> EditorType {
    if class_name == "Scintilla"@ {
        EditorType::TextCanvas
    } else if framework == "Chrome"@ || has_prefix(class_name, "Chrome_"@) || lower_of(process)
        == "code.exe"@ {
        EditorType::ChromiumHost
    } else if framework == "WPF"@ || framework == "XAML"@ {
        EditorType::ManagedUI
    } else if has_prefix(class_name, "SunAwt"@) || lower_of(process) == "idea64.exe"@ {
        EditorType::JavaToolkit
    } else {
        EditorType::Generic
    }
}

/// Classifies a control.
pub fn classify_editor(class_name: &str, framework: &str, process: &str) -> (r: EditorType)
    ensures
        r == profile_of(class_name@, framework@, process@),
{
    let proc_low = lowercase(process);
    if str_equals(class_name, "Scintilla") {
        EditorType::TextCanvas
    } else if str_equals(framework, "Chrome") || str_starts_with(class_name, "Chrome_")
        || str_equals(proc_low.as_str(), "code.exe") {
        EditorType::ChromiumHost
    } else if str_equals(framework, "WPF") || str_equals(framework, "XAML") {
        EditorType::ManagedUI
    } else if str_starts_with(class_name, "SunAwt") || str_equals(proc_low.as_str(), "idea64.exe") {
        EditorType::JavaToolkit
    } else {
        EditorType::Generic
    }
}

/// How focus is retried before a structured write.
#[derive(Debug, Clone, Copy, PartialEq, Eq, Structural)]
pub struct FocusTuning {
    /// Focus requests at most; never zero.
    pub attempts: u32,
    /// Pause after each request, in milliseconds.
    pub delay_ms: u64,
}

/// The pause after a focus request for each family: managed toolkits
/// settle slowest.
pub open spec fn focus_delay_of(p: EditorType) -> u64 {
    match p {
        EditorType::Generic => 50,
        EditorType::TextCanvas => 30,
        EditorType::ChromiumHost => 60,
        EditorType::ManagedUI => 150,
        EditorType::JavaToolkit => 100,
    }
}

/// The tuning for a family and a configured retry count.
pub open spec fn tuning_of(p: EditorType, focus_retry_count: u32) -> FocusTuning {
    FocusTuning {
        attempts: if focus_retry_count == 0 { 1 } else { focus_retry_count },
        delay_ms: focus_delay_of(p),
    }
}

impl EditorType {
    /// The focus tuning for this family.
    pub fn tuning(&self, focus_retry_count: u32) -> (r: FocusTuning)
        ensures
            r == tuning_of(*self, focus_retry_count),
            r.attempts >= 1,
    {
        let delay_ms: u64 = match self {
            EditorType::Generic => 50,
            EditorType::TextCanvas => 30,
            EditorType::ChromiumHost => 60,
            EditorType::ManagedUI => 150,
            EditorType::JavaToolkit => 100,
        };
        FocusTuning {
            attempts: if focus_retry_count == 0 { 1 } else { focus_retry_count },
            delay_ms,
        }
    }
}

} // verus!
