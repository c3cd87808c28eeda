//! The clipboard transaction: acquire the clipboard with bounded retries,
//! back up its text, replace it with the payload, paste, and put the backup
//! back. The caller performs each clipboard operation and reports back.
use vstd::prelude::*;

verus! {

/// How many times the clipboard is asked for before giving up.
pub const OPEN_ATTEMPTS: u32 = 5;

/// Pause between two requests for the clipboard, in milliseconds.
pub const OPEN_BACKOFF_MS: u64 = 10;

/// Pause before the paste keystroke, so that hotkey modifiers are released.
pub const PASTE_SETTLE_MS: u64 = 80;

/// Pause between the paste and the restore, so that the target can read
/// the clipboard first.
pub const RESTORE_DELAY_MS: u64 = 100;

/// Largest backup kept, in UTF-16 units, terminator included.
pub const BACKUP_CAP: usize = 1048576;

/// The UTF-16 encoding of one character.
pub open spec fn utf16_char(c: char) -> Seq<u16> {
    let v = c as u32;
    if v < 0x10000 {
        seq![v as u16]
    } else {
        let u = (v - 0x10000) as u32;
        seq![(0xD800 + u / 0x400) as u16, (0xDC00 + u % 0x400) as u16]
    }
}

/// The UTF-16 encoding of a string.
pub open spec fn utf16_of(s: Seq<char>) -> Seq<u16>
    decreases s.len(),
{
    if s.len() == 0 {
        Seq::empty()
    } else {
        utf16_of(s.drop_last()) + utf16_char(s.last())
    }
}

/// Relies on `str::encode_utf16`: the standard UTF-16 encoding of the text.
#[verifier::external_body]
pub(crate) fn encode_utf16(text: &str) -> (r: Vec<u16>)
    ensures
        r@ == utf16_of(text@),
{
    text.encode_utf16().collect()
}

/// What the clipboard receives for a payload: its UTF-16 units and a
/// terminating zero.
pub fn clipboard_units(text: &str) -> (r: Vec<u16>)
    ensures
        r@ == utf16_of(text@).push(0u16),
{
    let mut units = encode_utf16(text);
    units.push(0u16);
    units
}

/// What is kept of the clipboard's text: all of it within the cap, else
/// its first units up to the cap with the terminator in the last place.
pub open spec fn bounded_backup(content: Seq<u16>) -> Seq<u16> {
    if content.len() <= BACKUP_CAP {
        content
    } else {
        content.take(BACKUP_CAP - 1).push(0u16)
    }
}

/// Keeps at most `BACKUP_CAP` units of the clipboard's text.
pub fn backup_of(content: Vec<u16>) -> (r: Vec<u16>)
    ensures
        r@ == bounded_backup(content@),
{
    if content.len() <= BACKUP_CAP {
        content
    } else {
        let mut kept: Vec<u16> = Vec::new();
        let mut i: usize = 0;
        while i < BACKUP_CAP - 1
            invariant
                content@.len() > BACKUP_CAP,
                i <= BACKUP_CAP - 1,
                kept@ =~= content@.take(i as int),
            decreases BACKUP_CAP - 1 - i,
        {
            kept.push(content[i]);
            i = i + 1;
        }
        kept.push(0u16);
        kept
    }
}

/// A copy of a list of UTF-16 units.
pub fn copy_units(v: &Vec<u16>) -> (r: Vec<u16>)
    ensures
        r@ == v@,
{
    let mut out: Vec<u16> = Vec::new();
    let mut i: usize = 0;
    while i < v.len()
        invariant
            i <= v@.len(),
            out@ =~= v@.take(i as int),
        decreases v@.len() - i,
    {
        out.push(v[i]);
        i = i + 1;
    }
    assert(v@.take(v@.len() as int) =~= v@);
    out
}

/// Why a clipboard transaction failed.
#[derive(Debug, Clone, Copy, PartialEq, Eq, Structural)]
pub enum ClipboardError {
    /// The clipboard stayed held by another process through every attempt.
    AcquireFailed,
    /// The payload could not be placed on the clipboard.
    AllocFailed,
    /// The paste keystroke could not be synthesized.
    PasteFailed,
}

/// Where a transaction stands.
#[derive(Debug, Clone, Copy)]
pub enum ClipStage {
    /// Asking for the clipboard; the number of requests already refused.
    Opening(u32),
    /// Reading the text it holds.
    Reading,
    /// Replacing it with the payload (and releasing it).
    Writing,
    /// Sending the paste keystroke.
    Pasting,
    /// Putting the backup back; whether the paste went through.
    Restoring(bool),
    /// Finished.
    Done(Result<(), ClipboardError>),
}

/// What the caller reports after an operation.
pub enum ClipEvent {
    /// Whether the clipboard was granted.
    Opened(bool),
    /// The text it held, units up to and including the terminator, if any.
    Read(Option<Vec<u16>>),
    /// Whether the payload was placed on it.
    Replaced(bool),
    /// Whether the paste keystroke was sent.
    Pasted(bool),
    /// Whether the backup was put back.
    Restored(bool),
}

/// What the caller is asked to do next.
pub enum ClipAction {
    /// Wait this many milliseconds, then ask for the clipboard.
    Open(u64),
    /// Read its text.
    ReadText,
    /// Empty it, place these units on it, and release it.
    ReplaceText(Vec<u16>),
    /// Wait this many milliseconds, then send the paste keystroke.
    Paste(u64),
    /// Wait this many milliseconds, then ask for the clipboard and put
    /// these units back on it.
    RestoreText(u64, Vec<u16>),
    /// The transaction is over.
    Finish(Result<(), ClipboardError>),
}

/// The mathematical value of a transaction: payload units, backup, stage.
pub type ClipView = (Seq<u16>, Option<Seq<u16>>, ClipStage);

/// The transaction after one report.
pub open spec fn clip_next(v: ClipView, ev: ClipEvent) -> ClipView {
    let (payload, backup, stage) = v;
    match (stage, ev) {
        (ClipStage::Opening(k), ClipEvent::Opened(ok)) => if ok {
            (payload, backup, ClipStage::Reading)
        } else if k + 1 < OPEN_ATTEMPTS {
            (payload, backup, ClipStage::Opening((k + 1) as u32))
        } else {
            (payload, backup, ClipStage::Done(Err(ClipboardError::AcquireFailed)))
        },
        (ClipStage::Reading, ClipEvent::Read(content)) => (
            payload,
            match content {
                Some(c) => Some(bounded_backup(c@)),
                None => None,
            },
            ClipStage::Writing,
        ),
        (ClipStage::Writing, ClipEvent::Replaced(ok)) => if ok {
            (payload, backup, ClipStage::Pasting)
        } else {
            (payload, backup, ClipStage::Done(Err(ClipboardError::AllocFailed)))
        },
        (ClipStage::Pasting, ClipEvent::Pasted(ok)) => if backup is Some {
            (payload, backup, ClipStage::Restoring(ok))
        } else if ok {
            (payload, backup, ClipStage::Done(Ok(())))
        } else {
            (payload, backup, ClipStage::Done(Err(ClipboardError::PasteFailed)))
        },
        (ClipStage::Restoring(pasted), ClipEvent::Restored(_)) => if pasted {
            (payload, backup, ClipStage::Done(Ok(())))
        } else {
            (payload, backup, ClipStage::Done(Err(ClipboardError::PasteFailed)))
        },
        _ => v,
    }
}

/// The request that goes with each stage, as a plain value: the units it
/// carries, if any, are those of the payload or of the backup.
pub open spec fn clip_action_matches(v: ClipView, a: ClipAction) -> bool {
    let (payload, backup, stage) = v;
    match stage {
        ClipStage::Opening(k) => a == ClipAction::Open(if k == 0 { 0u64 } else { OPEN_BACKOFF_MS }),
        ClipStage::Reading => a is ReadText,
        ClipStage::Writing => a matches ClipAction::ReplaceText(u) && u@ == payload,
        ClipStage::Pasting => a == ClipAction::Paste(PASTE_SETTLE_MS),
        ClipStage::Restoring(_) => a matches ClipAction::RestoreText(d, u) && d == RESTORE_DELAY_MS
            && backup == Some(u@),
        ClipStage::Done(res) => a == ClipAction::Finish(res),
    }
}

/// One clipboard transaction.
pub struct ClipboardTransaction {
    payload: Vec<u16>,
    backup: Option<Vec<u16>>,
    stage: ClipStage,
}

impl View for ClipboardTransaction {
    type V = ClipView;

    closed spec fn view(&self) -> ClipView {
        (
            self.payload@,
            match self.backup {
                Some(b) => Some(b@),
                None => None,
            },
            self.stage,
        )
    }
}

impl ClipboardTransaction {
    /// A transaction that will paste `text`.
    pub fn new(text: &str) -> (r: ClipboardTransaction)
        ensures
            r@ == (utf16_of(text@).push(0u16), None::<Seq<u16>>, ClipStage::Opening(0)),
    {
        ClipboardTransaction { payload: clipboard_units(text), backup: None, stage: ClipStage::Opening(0) }
    }

    /// Where the transaction stands.
    pub fn stage(&self) -> (r: ClipStage)
        ensures
            r == self@.2,
    {
        self.stage
    }

    /// What the caller is asked to do now.
    pub fn action(&self) -> (r: ClipAction)
        requires
            self@.2 is Restoring ==> self@.1 is Some,
        ensures
            clip_action_matches(self@, r),
    {
        match self.stage {
            ClipStage::Opening(k) => ClipAction::Open(if k == 0 { 0u64 } else { OPEN_BACKOFF_MS }),
            ClipStage::Reading => ClipAction::ReadText,
            ClipStage::Writing => ClipAction::ReplaceText(copy_units(&self.payload)),
            ClipStage::Pasting => ClipAction::Paste(PASTE_SETTLE_MS),
            ClipStage::Restoring(_) => {
                let units = match &self.backup {
                    Some(b) => copy_units(b),
                    None => Vec::new(),
                };
                ClipAction::RestoreText(RESTORE_DELAY_MS, units)
            },
            ClipStage::Done(res) => ClipAction::Finish(res),
        }
    }

    /// Records a report and moves on; a report that does not answer the
    /// current request changes nothing.
    pub fn on_event(&mut self, ev: ClipEvent) -> (r: ClipAction)
        requires
            old(self)@.2 is Restoring ==> old(self)@.1 is Some,
        ensures
            final(self)@ == clip_next(old(self)@, ev),
            final(self)@.2 is Restoring ==> final(self)@.1 is Some,
            clip_action_matches(final(self)@, r),
    {
        match (self.stage, ev) {
            (ClipStage::Opening(k), ClipEvent::Opened(ok)) => {
                if ok {
                    self.stage = ClipStage::Reading;
                } else if k < OPEN_ATTEMPTS - 1 {
                    self.stage = ClipStage::Opening(k + 1);
                } else {
                    self.stage = ClipStage::Done(Err(ClipboardError::AcquireFailed));
                }
            },
            (ClipStage::Reading, ClipEvent::Read(content)) => {
                self.backup = match content {
                    Some(c) => Some(backup_of(c)),
                    None => None,
                };
                self.stage = ClipStage::Writing;
            },
            (ClipStage::Writing, ClipEvent::Replaced(ok)) => {
                self.stage = if ok {
                    ClipStage::Pasting
                } else {
                    ClipStage::Done(Err(ClipboardError::AllocFailed))
                };
            },
            (ClipStage::Pasting, ClipEvent::Pasted(ok)) => {
                self.stage = if self.backup.is_some() {
                    ClipStage::Restoring(ok)
                } else if ok {
                    ClipStage::Done(Ok(()))
                } else {
                    ClipStage::Done(Err(ClipboardError::PasteFailed))
                };
            },
            (ClipStage::Restoring(pasted), ClipEvent::Restored(_)) => {
                self.stage = if pasted {
                    ClipStage::Done(Ok(()))
                } else {
                    ClipStage::Done(Err(ClipboardError::PasteFailed))
                };
            },
            _ => {},
        }
        self.action()
    }
}

/// The clipboard as it stands after an operation that writes it: a
/// replacement or a restore puts those units on it; other operations
/// leave it as it was.
pub open spec fn clipboard_after(board: Option<Seq<u16>>, v: ClipView) -> Option<Seq<u16>> {
    match v.2 {
        ClipStage::Writing => Some(v.0),
        ClipStage::Restoring(_) => v.1,
        _ => board,
    }
}

/// A transaction run against a clipboard that holds text within the cap
/// and grants every request leaves that text on it, unit for unit with
/// its terminator: the payload goes on, and the backup, equal to the
/// prior text, is put back.
pub proof fn lemma_clipboard_round_trip(payload: Seq<u16>, prior: Vec<u16>)
    requires
        prior@.len() <= BACKUP_CAP,
    ensures
        ({
            let v0: ClipView = (payload, None, ClipStage::Opening(0));
            let v1 = clip_next(v0, ClipEvent::Opened(true));
            let v2 = clip_next(v1, ClipEvent::Read(Some(prior)));
            let board2 = Some(prior@);
            let v3 = clip_next(v2, ClipEvent::Replaced(true));
            let board3 = clipboard_after(board2, v2);
            let v4 = clip_next(v3, ClipEvent::Pasted(true));
            let board4 = clipboard_after(board3, v4);
            let v5 = clip_next(v4, ClipEvent::Restored(true));
            &&& board3 == Some(payload)
            &&& v4.2 == ClipStage::Restoring(true)
            &&& board4 == Some(prior@)
            &&& v5.2 == ClipStage::Done(Ok(()))
        }),
{
}

} // verus!
