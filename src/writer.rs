//! The accessibility writer: brings the target forward, refines it to the
//! editable element, then either settles the caret and delivers (insert
//! mode) or writes the value and verifies it (append and overwrite), and
//! falls back to clipboard or keystroke delivery whenever the structured
//! path is unavailable, read-only, unsafe or unverified. The caller performs
//! each request and reports back.
use vstd::prelude::*;

use crate::editor::{classify_editor, profile_of, tuning_of, EditorType, FocusTuning};
use crate::text::{has_suffix, lower_of, lowercase, str_ends_with, str_equals};

verus! {

/// Pause before each read-back of a written value, in milliseconds.
pub const VERIFY_INTERVAL_MS: u64 = 50;

/// Where the payload goes relative to the existing content.
#[derive(Debug, Clone, Copy, PartialEq, Eq, Structural)]
pub enum InsertionMode {
    /// At the caret, after collapsing any selection.
    Insert,
    /// After the current value.
    Append,
    /// In place of the current value.
    Overwrite,
}

/// The mode a configured (lower-case) name selects; anything unknown
/// inserts at the caret.
pub open spec fn mode_of_name(name: Seq<char>) -> InsertionMode {
    if name == "append"@ {
        InsertionMode::Append
    } else if name == "overwrite"@ {
        InsertionMode::Overwrite
    } else {
        InsertionMode::Insert
    }
}

impl InsertionMode {
    /// The mode configured under `name`, compared without regard to case.
    pub fn from_name(name: &str) -> (r: InsertionMode)
        ensures
            r == mode_of_name(lower_of(name@)),
    {
        let low = lowercase(name);
        if str_equals(low.as_str(), "append") {
            InsertionMode::Append
        } else if str_equals(low.as_str(), "overwrite") {
            InsertionMode::Overwrite
        } else {
            InsertionMode::Insert
        }
    }
}

/// The two ways of delivering text without a structured write.
#[derive(Debug, Clone, Copy, PartialEq, Eq, Structural)]
pub enum Delivery {
    Clipboard,
    Typing,
}

/// How the writer succeeded.
#[derive(Debug, Clone, Copy, PartialEq, Eq, Structural)]
pub enum WriterOutcome {
    /// The value was written (and, if asked, read back).
    Structured,
    /// The text was delivered this way.
    Delivered(Delivery),
}

/// Why the writer failed.
#[derive(Debug, Clone, Copy, PartialEq, Eq, Structural)]
pub enum WriterError {
    /// The target window could not be brought forward.
    AccessError,
    /// A selection was still reported after every attempt to collapse it.
    SelectionNotCollapsed,
    /// Every delivery tried failed.
    DeliveryFailed,
}

/// What the writer is configured to do.
#[derive(Debug, Clone, Copy, PartialEq, Eq, Structural)]
pub struct WriterSettings {
    pub mode: InsertionMode,
    pub pre_inject_delay: u64,
    pub focus_retry_count: u32,
    pub verify: bool,
    pub max_retries: u32,
    pub allow_clipboard: bool,
}

/// What is known of the located element.
pub struct TargetInfo {
    pub class_name: String,
    pub framework_id: String,
    pub process_name: String,
    pub is_password: bool,
    pub has_value: bool,
    pub value_read_only: bool,
    pub has_text_range: bool,
}

/// Where the writer stands.
#[derive(Debug, Clone, Copy, PartialEq, Eq, Structural)]
pub enum WriterStage {
    /// Bringing the target window forward.
    Focusing,
    /// Locating the editable element.
    Locating,
    /// Insert mode: selecting the caret range directly.
    CaretRange,
    /// Insert mode: reading the current selection.
    ReadSelection,
    /// Insert mode: collapsing a selection onto its end.
    Collapsing,
    /// Insert mode: probing for a selection by copying it.
    CopyProbe,
    /// Insert mode: collapsing a selection with a move-right keystroke.
    MovingRight,
    /// Structured write: focusing the element.
    FocusingElement,
    /// Append: reading the current value.
    ReadingValue,
    /// Structured write: writing the new value.
    WritingValue,
    /// Reading the value back; the number of reads already made.
    Verifying(u32),
    /// Append without a value capability: moving the caret to the end.
    MovingToEnd,
    /// Delivering by the preferred way.
    DeliverFirst,
    /// Delivering by the other way.
    DeliverSecond,
    Succeeded(WriterOutcome),
    Failed(WriterError),
}

/// What the caller reports after a request.
pub enum WriterEvent {
    /// Whether the window came forward.
    Focused(bool),
    /// The element found.
    Located(TargetInfo),
    /// Whether the request succeeded; for the copy probe, whether a
    /// selection was found.
    Done(bool),
    /// The selection length reported by the text-range API, or nothing
    /// when the API is unavailable.
    Selection(Option<u64>),
    /// The element's value, when it could be read.
    Value(Option<String>),
}

/// What the writer asks of its caller.
pub enum WriterAction {
    /// Bring the window forward, then wait this many milliseconds.
    FocusWindow(u64),
    /// Find the focused element and refine it with the locator.
    LocateTarget,
    /// Select the caret range through the richer text-range API.
    SelectCaretRange,
    /// Report the current selection's length.
    ReadSelection,
    /// Move the selection's start onto its end, re-select, and report
    /// the selection's length.
    CollapseSelection,
    /// Back up the clipboard, copy, report whether text appeared, restore.
    ProbeSelectionByCopy,
    /// Send one move-right keystroke and report the selection's length.
    PressRight,
    /// Focus the element with this retry tuning.
    FocusElement(FocusTuning),
    /// Report the element's value.
    ReadValue,
    /// Write this value.
    WriteValue(String),
    /// Wait this many milliseconds and report the element's value.
    ReadBack(u64),
    /// Move the caret to the end of the document.
    MoveCaretToEnd,
    /// Deliver the payload this way.
    Deliver(Delivery),
    /// The writer is done.
    Finish(Result<WriterOutcome, WriterError>),
}

/// The delivery ways to try, in order: typing alone when the clipboard may
/// not be used; typing first for Chromium-hosted controls; clipboard first
/// otherwise.
pub open spec fn delivery_order(profile: EditorType, allow_clipboard: bool) -> Seq<Delivery> {
    if !allow_clipboard {
        seq![Delivery::Typing]
    } else if profile == EditorType::ChromiumHost {
        seq![Delivery::Typing, Delivery::Clipboard]
    } else {
        seq![Delivery::Clipboard, Delivery::Typing]
    }
}

/// How many read-backs the verification makes at most.
pub open spec fn verify_attempts(max_retries: u32) -> u32 {
    if max_retries == 0 {
        1
    } else {
        max_retries
    }
}

/// A read-back confirms the write: it ends with the payload when
/// appending, and equals it otherwise.
pub open spec fn read_back_matches(mode: InsertionMode, payload: Seq<char>, value: Option<String>) -> bool {
    match value {
        Some(v) => if mode == InsertionMode::Append {
            has_suffix(v@, payload)
        } else {
            v@ == payload
        },
        None => false,
    }
}

/// Where the writer goes once the element is known.
pub open spec fn stage_after_locate(mode: InsertionMode, t: TargetInfo) -> WriterStage {
    if t.is_password {
        WriterStage::DeliverFirst
    } else if mode == InsertionMode::Insert {
        WriterStage::CaretRange
    } else if t.has_value {
        if t.value_read_only {
            WriterStage::DeliverFirst
        } else {
            WriterStage::FocusingElement
        }
    } else if t.has_text_range && mode == InsertionMode::Append {
        WriterStage::MovingToEnd
    } else {
        WriterStage::DeliverFirst
    }
}

/// The mathematical value of a writer: payload, settings, profile, the
/// value to write, stage.
pub type WriterView = (Seq<char>, WriterSettings, EditorType, Seq<char>, WriterStage);

/// The writer after one report. A report that does not answer the
/// current request changes nothing.
pub open spec fn writer_next(v: WriterView, ev: WriterEvent) -> WriterView {
    let (payload, settings, profile, pending, stage) = v;
    let at = |s: WriterStage| (payload, settings, profile, pending, s);
    match (stage, ev) {
        (WriterStage::Focusing, WriterEvent::Focused(ok)) => if ok {
            at(WriterStage::Locating)
        } else {
            at(WriterStage::Failed(WriterError::AccessError))
        },
        (WriterStage::Locating, WriterEvent::Located(t)) => (
            payload,
            settings,
            profile_of(t.class_name@, t.framework_id@, t.process_name@),
            pending,
            stage_after_locate(settings.mode, t),
        ),
        (WriterStage::CaretRange, WriterEvent::Done(ok)) => if ok {
            at(WriterStage::DeliverFirst)
        } else {
            at(WriterStage::ReadSelection)
        },
        (WriterStage::ReadSelection, WriterEvent::Selection(sel)) => match sel {
            None => at(WriterStage::CopyProbe),
            Some(n) => if n == 0 {
                at(WriterStage::DeliverFirst)
            } else {
                at(WriterStage::Collapsing)
            },
        },
        (WriterStage::Collapsing, WriterEvent::Selection(sel)) => if sel == Some(0u64) {
            at(WriterStage::DeliverFirst)
        } else {
            at(WriterStage::MovingRight)
        },
        (WriterStage::CopyProbe, WriterEvent::Done(found)) => if found {
            at(WriterStage::MovingRight)
        } else {
            at(WriterStage::DeliverFirst)
        },
        (WriterStage::MovingRight, WriterEvent::Selection(sel)) => match sel {
            Some(n) => if n == 0 {
                at(WriterStage::DeliverFirst)
            } else {
                at(WriterStage::Failed(WriterError::SelectionNotCollapsed))
            },
            None => at(WriterStage::DeliverFirst),
        },
        (WriterStage::FocusingElement, WriterEvent::Done(ok)) => if !ok {
            at(WriterStage::DeliverFirst)
        } else if settings.mode == InsertionMode::Append {
            at(WriterStage::ReadingValue)
        } else {
            (payload, settings, profile, payload, WriterStage::WritingValue)
        },
        (WriterStage::ReadingValue, WriterEvent::Value(cur)) => (
            payload,
            settings,
            profile,
            match cur {
                Some(c) => c@ + payload,
                None => payload,
            },
            WriterStage::WritingValue,
        ),
        (WriterStage::WritingValue, WriterEvent::Done(ok)) => if !ok {
            at(WriterStage::DeliverFirst)
        } else if settings.verify {
            at(WriterStage::Verifying(0))
        } else {
            at(WriterStage::Succeeded(WriterOutcome::Structured))
        },
        (WriterStage::Verifying(k), WriterEvent::Value(cur)) => if read_back_matches(
            settings.mode,
            payload,
            cur,
        ) {
            at(WriterStage::Succeeded(WriterOutcome::Structured))
        } else if k + 1 < verify_attempts(settings.max_retries) {
            at(WriterStage::Verifying((k + 1) as u32))
        } else {
            at(WriterStage::DeliverFirst)
        },
        (WriterStage::MovingToEnd, WriterEvent::Done(_)) => at(WriterStage::DeliverFirst),
        (WriterStage::DeliverFirst, WriterEvent::Done(ok)) => {
            let order = delivery_order(profile, settings.allow_clipboard);
            if ok {
                at(WriterStage::Succeeded(WriterOutcome::Delivered(order[0])))
            } else if order.len() > 1 {
                at(WriterStage::DeliverSecond)
            } else {
                at(WriterStage::Failed(WriterError::DeliveryFailed))
            }
        },
        (WriterStage::DeliverSecond, WriterEvent::Done(ok)) => if ok && delivery_order(
            profile,
            settings.allow_clipboard,
        ).len() > 1 {
            at(
                WriterStage::Succeeded(
                    WriterOutcome::Delivered(delivery_order(profile, settings.allow_clipboard)[1]),
                ),
            )
        } else {
            at(WriterStage::Failed(WriterError::DeliveryFailed))
        },
        _ => v,
    }
}

/// The request that goes with a writer's stage.
pub open spec fn writer_action_matches(v: WriterView, a: WriterAction) -> bool {
    let (payload, settings, profile, pending, stage) = v;
    let order = delivery_order(profile, settings.allow_clipboard);
    match stage {
        WriterStage::Focusing => a == WriterAction::FocusWindow(settings.pre_inject_delay),
        WriterStage::Locating => a is LocateTarget,
        WriterStage::CaretRange => a is SelectCaretRange,
        WriterStage::ReadSelection => a is ReadSelection,
        WriterStage::Collapsing => a is CollapseSelection,
        WriterStage::CopyProbe => a is ProbeSelectionByCopy,
        WriterStage::MovingRight => a is PressRight,
        WriterStage::FocusingElement => a == WriterAction::FocusElement(
            tuning_of(profile, settings.focus_retry_count),
        ),
        WriterStage::ReadingValue => a is ReadValue,
        WriterStage::WritingValue => a matches WriterAction::WriteValue(s) && s@ == pending,
        WriterStage::Verifying(_) => a == WriterAction::ReadBack(VERIFY_INTERVAL_MS),
        WriterStage::MovingToEnd => a is MoveCaretToEnd,
        WriterStage::DeliverFirst => a == WriterAction::Deliver(order[0]),
        WriterStage::DeliverSecond => if order.len() > 1 {
            a == WriterAction::Deliver(order[1])
        } else {
            a == WriterAction::Finish(Err(WriterError::DeliveryFailed))
        },
        WriterStage::Succeeded(o) => a == WriterAction::Finish(Ok(o)),
        WriterStage::Failed(e) => a == WriterAction::Finish(Err(e)),
    }
}

/// One run of the accessibility writer.
pub struct AccessibilityWriter {
    payload: String,
    settings: WriterSettings,
    profile: EditorType,
    pending: String,
    stage: WriterStage,
}

impl View for AccessibilityWriter {
    type V = WriterView;

    closed spec fn view(&self) -> WriterView {
        (self.payload@, self.settings, self.profile, self.pending@, self.stage)
    }
}

fn delivery_at(profile: EditorType, allow_clipboard: bool, i: usize) -> (r: Option<Delivery>)
    ensures
        r == if i < delivery_order(profile, allow_clipboard).len() {
            Some(delivery_order(profile, allow_clipboard)[i as int])
        } else {
            None::<Delivery>
        },
{
    if !allow_clipboard {
        if i == 0 {
            Some(Delivery::Typing)
        } else {
            None
        }
    } else if profile == EditorType::ChromiumHost {
        if i == 0 {
            Some(Delivery::Typing)
        } else if i == 1 {
            Some(Delivery::Clipboard)
        } else {
            None
        }
    } else {
        if i == 0 {
            Some(Delivery::Clipboard)
        } else if i == 1 {
            Some(Delivery::Typing)
        } else {
            None
        }
    }
}

fn matches_read_back(mode: InsertionMode, payload: &String, value: &Option<String>) -> (r: bool)
    ensures
        r == read_back_matches(mode, payload@, *value),
{
    match value {
        Some(v) => if mode == InsertionMode::Append {
            str_ends_with(v.as_str(), payload.as_str())
        } else {
            str_equals(v.as_str(), payload.as_str())
        },
        None => false,
    }
}

impl AccessibilityWriter {
    /// A writer that will deliver `payload` under `settings`.
    pub fn new(payload: String, settings: WriterSettings) -> (r: AccessibilityWriter)
        ensures
            r@ == (payload@, settings, EditorType::Generic, payload@, WriterStage::Focusing),
    {
        let pending = payload.clone();
        AccessibilityWriter { payload, settings, profile: EditorType::Generic, pending, stage: WriterStage::Focusing }
    }

    /// Where the writer stands.
    pub fn stage(&self) -> (r: WriterStage)
        ensures
            r == self@.4,
    {
        self.stage
    }

    /// The editor family of the located element.
    pub fn profile(&self) -> (r: EditorType)
        ensures
            r == self@.2,
    {
        self.profile
    }

    /// What the caller is asked to do now.
    pub fn action(&self) -> (r: WriterAction)
        ensures
            writer_action_matches(self@, r),
    {
        match self.stage {
            WriterStage::Focusing => WriterAction::FocusWindow(self.settings.pre_inject_delay),
            WriterStage::Locating => WriterAction::LocateTarget,
            WriterStage::CaretRange => WriterAction::SelectCaretRange,
            WriterStage::ReadSelection => WriterAction::ReadSelection,
            WriterStage::Collapsing => WriterAction::CollapseSelection,
            WriterStage::CopyProbe => WriterAction::ProbeSelectionByCopy,
            WriterStage::MovingRight => WriterAction::PressRight,
            WriterStage::FocusingElement => WriterAction::FocusElement(
                self.profile.tuning(self.settings.focus_retry_count),
            ),
            WriterStage::ReadingValue => WriterAction::ReadValue,
            WriterStage::WritingValue => WriterAction::WriteValue(self.pending.clone()),
            WriterStage::Verifying(_) => WriterAction::ReadBack(VERIFY_INTERVAL_MS),
            WriterStage::MovingToEnd => WriterAction::MoveCaretToEnd,
            WriterStage::DeliverFirst => match delivery_at(
                self.profile,
                self.settings.allow_clipboard,
                0,
            ) {
                Some(d) => WriterAction::Deliver(d),
                None => WriterAction::Finish(Err(WriterError::DeliveryFailed)),
            },
            WriterStage::DeliverSecond => match delivery_at(
                self.profile,
                self.settings.allow_clipboard,
                1,
            ) {
                Some(d) => WriterAction::Deliver(d),
                None => WriterAction::Finish(Err(WriterError::DeliveryFailed)),
            },
            WriterStage::Succeeded(o) => WriterAction::Finish(Ok(o)),
            WriterStage::Failed(e) => WriterAction::Finish(Err(e)),
        }
    }

    /// Records a report and moves on.
    pub fn on_event(&mut self, ev: WriterEvent) -> (r: WriterAction)
        ensures
            final(self)@ == writer_next(old(self)@, ev),
            writer_action_matches(final(self)@, r),
    {
        match (self.stage, ev) {
            (WriterStage::Focusing, WriterEvent::Focused(ok)) => {
                self.stage = if ok {
                    WriterStage::Locating
                } else {
                    WriterStage::Failed(WriterError::AccessError)
                };
            },
            (WriterStage::Locating, WriterEvent::Located(t)) => {
                self.profile = classify_editor(
                    t.class_name.as_str(),
                    t.framework_id.as_str(),
                    t.process_name.as_str(),
                );
                self.stage = if t.is_password {
                    WriterStage::DeliverFirst
                } else if self.settings.mode == InsertionMode::Insert {
                    WriterStage::CaretRange
                } else if t.has_value {
                    if t.value_read_only {
                        WriterStage::DeliverFirst
                    } else {
                        WriterStage::FocusingElement
                    }
                } else if t.has_text_range && self.settings.mode == InsertionMode::Append {
                    WriterStage::MovingToEnd
                } else {
                    WriterStage::DeliverFirst
                };
            },
            (WriterStage::CaretRange, WriterEvent::Done(ok)) => {
                self.stage = if ok {
                    WriterStage::DeliverFirst
                } else {
                    WriterStage::ReadSelection
                };
            },
            (WriterStage::ReadSelection, WriterEvent::Selection(sel)) => {
                self.stage = match sel {
                    None => WriterStage::CopyProbe,
                    Some(n) => if n == 0 {
                        WriterStage::DeliverFirst
                    } else {
                        WriterStage::Collapsing
                    },
                };
            },
            (WriterStage::Collapsing, WriterEvent::Selection(sel)) => {
                self.stage = match sel {
                    Some(n) => if n == 0 {
                        WriterStage::DeliverFirst
                    } else {
                        WriterStage::MovingRight
                    },
                    None => WriterStage::MovingRight,
                };
            },
            (WriterStage::CopyProbe, WriterEvent::Done(found)) => {
                self.stage = if found {
                    WriterStage::MovingRight
                } else {
                    WriterStage::DeliverFirst
                };
            },
            (WriterStage::MovingRight, WriterEvent::Selection(sel)) => {
                self.stage = match sel {
                    Some(n) => if n == 0 {
                        WriterStage::DeliverFirst
                    } else {
                        WriterStage::Failed(WriterError::SelectionNotCollapsed)
                    },
                    None => WriterStage::DeliverFirst,
                };
            },
            (WriterStage::FocusingElement, WriterEvent::Done(ok)) => {
                if !ok {
                    self.stage = WriterStage::DeliverFirst;
                } else if self.settings.mode == InsertionMode::Append {
                    self.stage = WriterStage::ReadingValue;
                } else {
                    self.pending = self.payload.clone();
                    self.stage = WriterStage::WritingValue;
                }
            },
            (WriterStage::ReadingValue, WriterEvent::Value(cur)) => {
                self.pending = match cur {
                    Some(c) => c.concat(self.payload.as_str()),
                    None => self.payload.clone(),
                };
                self.stage = WriterStage::WritingValue;
            },
            (WriterStage::WritingValue, WriterEvent::Done(ok)) => {
                self.stage = if !ok {
                    WriterStage::DeliverFirst
                } else if self.settings.verify {
                    WriterStage::Verifying(0)
                } else {
                    WriterStage::Succeeded(WriterOutcome::Structured)
                };
            },
            (WriterStage::Verifying(k), WriterEvent::Value(cur)) => {
                let limit: u32 = if self.settings.max_retries == 0 {
                    1
                } else {
                    self.settings.max_retries
                };
                self.stage = if matches_read_back(self.settings.mode, &self.payload, &cur) {
                    WriterStage::Succeeded(WriterOutcome::Structured)
                } else if k < limit - 1 {
                    WriterStage::Verifying(k + 1)
                } else {
                    WriterStage::DeliverFirst
                };
            },
            (WriterStage::MovingToEnd, WriterEvent::Done(_)) => {
                self.stage = WriterStage::DeliverFirst;
            },
            (WriterStage::DeliverFirst, WriterEvent::Done(ok)) => {
                assert(delivery_order(self.profile, self.settings.allow_clipboard).len() >= 1);
                let first = delivery_at(self.profile, self.settings.allow_clipboard, 0);
                let second = delivery_at(self.profile, self.settings.allow_clipboard, 1);
                self.stage = match first {
                    Some(d) => if ok {
                        WriterStage::Succeeded(WriterOutcome::Delivered(d))
                    } else if second.is_some() {
                        WriterStage::DeliverSecond
                    } else {
                        WriterStage::Failed(WriterError::DeliveryFailed)
                    },
                    None => WriterStage::Failed(WriterError::DeliveryFailed),
                };
            },
            (WriterStage::DeliverSecond, WriterEvent::Done(ok)) => {
                let second = delivery_at(self.profile, self.settings.allow_clipboard, 1);
                self.stage = match second {
                    Some(d) => if ok {
                        WriterStage::Succeeded(WriterOutcome::Delivered(d))
                    } else {
                        WriterStage::Failed(WriterError::DeliveryFailed)
                    },
                    None => WriterStage::Failed(WriterError::DeliveryFailed),
                };
            },
            _ => {},
        }
        self.action()
    }
}

/// The writer after a sequence of reports.
pub open spec fn writer_run(v: WriterView, evs: Seq<WriterEvent>) -> WriterView
    decreases evs.len(),
{
    if evs.len() == 0 {
        v
    } else {
        writer_next(writer_run(v, evs.drop_last()), evs.last())
    }
}

/// The stages that deliver text.
pub open spec fn is_delivery_stage(s: WriterStage) -> bool {
    s == WriterStage::DeliverFirst || s == WriterStage::DeliverSecond
}

/// While the text-range API reports a non-empty selection, no delivery
/// starts: a selection of length N > 0 is collapsed first, and text is
/// delivered only once a length of 0 is reported.
pub proof fn lemma_no_delivery_over_selection(v: WriterView, n: u64)
    requires
        n > 0,
        v.4 == WriterStage::ReadSelection || v.4 == WriterStage::Collapsing || v.4
            == WriterStage::MovingRight,
    ensures
        !is_delivery_stage(writer_next(v, WriterEvent::Selection(Some(n))).4),
        v.4 == WriterStage::ReadSelection ==> writer_next(v, WriterEvent::Selection(Some(n))).4
            == WriterStage::Collapsing,
        v.4 == WriterStage::Collapsing ==> writer_next(v, WriterEvent::Selection(Some(0))).4
            == WriterStage::DeliverFirst,
        v.4 == WriterStage::MovingRight ==> writer_next(v, WriterEvent::Selection(Some(0))).4
            == WriterStage::DeliverFirst,
{
}

/// A read-back report that does not confirm the write.
pub open spec fn failed_read(mode: InsertionMode, payload: Seq<char>, ev: WriterEvent) -> bool {
    match ev {
        WriterEvent::Value(c) => !read_back_matches(mode, payload, c),
        _ => false,
    }
}

proof fn lemma_verify_reads_step(v: WriterView, reads: Seq<WriterEvent>)
    requires
        v.4 == WriterStage::Verifying(0),
        reads.len() <= verify_attempts(v.1.max_retries),
        forall|i: int|
            0 <= i < reads.len() ==> failed_read(v.1.mode, v.0, #[trigger] reads[i]),
    ensures
        writer_run(v, reads).0 == v.0,
        writer_run(v, reads).1 == v.1,
        reads.len() < verify_attempts(v.1.max_retries) ==> writer_run(v, reads).4
            == WriterStage::Verifying(reads.len() as u32),
        reads.len() == verify_attempts(v.1.max_retries) ==> writer_run(v, reads).4
            == WriterStage::DeliverFirst,
    decreases reads.len(),
{
    if reads.len() > 0 {
        let prev = reads.drop_last();
        assert forall|i: int| 0 <= i < prev.len() implies failed_read(v.1.mode, v.0, #[trigger] prev[i]) by {
            assert(prev[i] == reads[i]);
        }
        lemma_verify_reads_step(v, prev);
        assert(reads[reads.len() - 1] == reads.last());
    }
}

/// When no read-back ever matches, verification makes exactly
/// max(1, max_retries) reads, one per read-back request, and then falls
/// back to delivery.
pub proof fn lemma_verification_gives_up(v: WriterView, reads: Seq<WriterEvent>)
    requires
        v.4 == WriterStage::Verifying(0),
        reads.len() == verify_attempts(v.1.max_retries),
        forall|i: int|
            0 <= i < reads.len() ==> failed_read(v.1.mode, v.0, #[trigger] reads[i]),
    ensures
        writer_run(v, reads).4 == WriterStage::DeliverFirst,
        forall|k: int|
            0 <= k < reads.len() ==> (#[trigger] writer_run(v, reads.take(k))).4
                == WriterStage::Verifying(k as u32),
{
    lemma_verify_reads_step(v, reads);
    assert forall|k: int| 0 <= k < reads.len() implies (#[trigger] writer_run(
        v,
        reads.take(k),
    )).4 == WriterStage::Verifying(k as u32) by {
        let t = reads.take(k);
        assert forall|i: int| 0 <= i < t.len() implies failed_read(v.1.mode, v.0, #[trigger] t[i]) by {
            assert(t[i] == reads[i]);
        }
        lemma_verify_reads_step(v, t);
    }
}

} // verus!
