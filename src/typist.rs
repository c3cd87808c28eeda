//! The synthetic typist: one key-down and one key-up event per UTF-16 unit
//! of the payload, in order, each carrying the unit as a Unicode scan code.
use vstd::prelude::*;

use crate::clipboard::{encode_utf16, utf16_of};

verus! {

/// Pause before the first event, so that hotkey modifiers are released.
pub const TYPING_SETTLE_MS: u64 = 80;

/// One synthesized keyboard event.
#[derive(Debug, Clone, Copy, PartialEq, Eq, Structural)]
pub struct KeyEvent {
    /// The UTF-16 unit sent as the scan code.
    pub unit: u16,
    /// A key-up event when set, else a key-down event.
    pub key_up: bool,
}

/// The events for a list of units: down then up for each, in order.
pub open spec fn key_events_spec(units: Seq<u16>) -> Seq<KeyEvent>
    decreases units.len(),
{
    if units.len() == 0 {
        Seq::empty()
    } else {
        key_events_spec(units.drop_last()).push(KeyEvent { unit: units.last(), key_up: false }).push(
            KeyEvent { unit: units.last(), key_up: true },
        )
    }
}

/// The events that type `units`.
pub fn key_events_for_units(units: &Vec<u16>) -> (r: Vec<KeyEvent>)
    requires
        units@.len() * 2 <= usize::MAX,
    ensures
        r@ == key_events_spec(units@),
        r@.len() == 2 * units@.len(),
        forall|i: int|
            0 <= i < units@.len() ==> r@[2 * i] == (KeyEvent { unit: units@[i], key_up: false })
                && r@[2 * i + 1] == (KeyEvent { unit: units@[i], key_up: true }),
{
    let mut events: Vec<KeyEvent> = Vec::new();
    let mut i: usize = 0;
    while i < units.len()
        invariant
            i <= units@.len(),
            events@ == key_events_spec(units@.take(i as int)),
            events@.len() == 2 * i,
            forall|k: int|
                0 <= k < i ==> events@[2 * k] == (KeyEvent { unit: units@[k], key_up: false })
                    && events@[2 * k + 1] == (KeyEvent { unit: units@[k], key_up: true }),
        decreases units@.len() - i,
    {
        assert(units@.take(i as int + 1).drop_last() =~= units@.take(i as int));
        events.push(KeyEvent { unit: units[i], key_up: false });
        events.push(KeyEvent { unit: units[i], key_up: true });
        i = i + 1;
    }
    assert(units@.take(units@.len() as int) =~= units@);
    events
}

/// The events that type `text`, given by its UTF-16 encoding.
pub fn key_events(text: &str) -> (r: Vec<KeyEvent>)
    requires
        text@.len() * 4 <= usize::MAX,
    ensures
        r@ == key_events_spec(utf16_of(text@)),
{
    let units = encode_utf16(text);
    proof {
        lemma_utf16_len(text@);
    }
    key_events_for_units(&units)
}

/// A string encodes to at most two units per character.
pub proof fn lemma_utf16_len(s: Seq<char>)
    ensures
        utf16_of(s).len() <= 2 * s.len(),
    decreases s.len(),
{
    if s.len() > 0 {
        lemma_utf16_len(s.drop_last());
    }
}

} // verus!
