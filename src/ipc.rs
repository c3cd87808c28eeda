//! Messages between the interface and the engine: the inject request, its
//! parsing, and the debounce of "show selector" notifications.
use vstd::prelude::*;

use crate::text::{has_prefix, str_equals, str_starts_with, trim, trim_of};

verus! {

/// The pipe on which the engine listens for inject requests.
pub const INJECT_PIPE_NAME: &'static str = "\\\\.\\pipe\\promptkey_inject";

/// The pipe on which the interface listens for "show selector".
pub const SELECTOR_PIPE_NAME: &'static str = "\\\\.\\pipe\\promptkey_selector";

/// Shortest spacing between two "show selector" notifications.
pub const DEBOUNCE_MS: u64 = 500;

/// The value of a string of decimal digits.
pub open spec fn digits_value(s: Seq<char>) -> int
    decreases s.len(),
{
    if s.len() == 0 {
        0
    } else {
        digits_value(s.drop_last()) * 10 + ((s.last() as u32) - ('0' as u32))
    }
}

/// Every character is an ASCII digit.
pub open spec fn all_digits(s: Seq<char>) -> bool {
    forall|i: int| 0 <= i < s.len() ==> '0' <= #[trigger] s[i] <= '9'
}

/// An `i32` written as an optional sign and at least one decimal digit,
/// with nothing else around it, when it is in range.
pub open spec fn i32_of_text(s: Seq<char>) -> Option<i32> {
    let signed = s.len() > 0 && (s[0] == '-' || s[0] == '+');
    let body = if signed {
        s.drop_first()
    } else {
        s
    };
    let value = if s.len() > 0 && s[0] == '-' {
        -digits_value(body)
    } else {
        digits_value(body)
    };
    if body.len() == 0 || !all_digits(body) || value < i32::MIN || value > i32::MAX {
        None
    } else {
        Some(value as i32)
    }
}

/// Relies on `str::parse::<i32>`: an optional `+` or `-` followed by
/// decimal digits only, in range; anything else is an error.
#[verifier::external_body]
fn parse_i32(s: &str) -> (r: Option<i32>)
    ensures
        r == i32_of_text(s@),
{
    s.parse::<i32>().ok()
}

/// The decimal digits of a natural number.
pub open spec fn nat_digits(n: nat) -> Seq<char>
    decreases n,
{
    if n < 10 {
        seq![(('0' as u32) + n) as char]
    } else {
        nat_digits(n / 10).push((('0' as u32) + n % 10) as char)
    }
}

/// The decimal text of an integer, with a leading `-` when negative.
pub open spec fn decimal_text(n: int) -> Seq<char> {
    if n < 0 {
        seq!['-'] + nat_digits((-n) as nat)
    } else {
        nat_digits(n as nat)
    }
}

/// Relies on `i32`'s `Display` through `to_string`: its decimal text.
#[verifier::external_body]
fn i32_text(n: i32) -> (r: String)
    ensures
        r@ == decimal_text(n as int),
{
    n.to_string()
}

/// The id an already trimmed inject message carries: the text after the
/// `INJECT_PROMPT:` prefix, read as an `i32`.
pub open spec fn request_id(t: Seq<char>) -> Option<i32> {
    if has_prefix(t, "INJECT_PROMPT:"@) {
        i32_of_text(t.skip("INJECT_PROMPT:"@.len() as int))
    } else {
        None
    }
}

/// Reads the prompt id out of an inject message with no surrounding white
/// space.
pub fn parse_request(t: &str) -> (r: Option<i32>)
    ensures
        r == request_id(t@),
{
    let prefix = "INJECT_PROMPT:";
    if str_starts_with(t, prefix) {
        let n = t.unicode_len();
        let rest = t.substring_char(prefix.unicode_len(), n);
        parse_i32(rest)
    } else {
        None
    }
}

/// Reads the prompt id out of an inject message, ignoring surrounding
/// white space.
pub fn parse_message(msg: &str) -> (r: Option<i32>)
    ensures
        r == request_id(trim_of(msg@)),
{
    parse_request(trim(msg))
}

/// The inject message for a prompt: `INJECT_PROMPT:<id>` and a newline.
pub fn inject_request_message(prompt_id: i32) -> (r: String)
    ensures
        r@ == "INJECT_PROMPT:"@ + decimal_text(prompt_id as int) + "\n"@,
{
    let head = "INJECT_PROMPT:".to_string();
    let with_id = head.concat(i32_text(prompt_id).as_str());
    with_id.concat("\n")
}

/// The notification that asks the interface to show the selector.
pub fn show_selector_message() -> (r: &'static str)
    ensures
        r@ == "SHOW_SELECTOR\n"@,
{
    "SHOW_SELECTOR\n"
}

/// The notification that asks the interface to show the prompt wheel.
pub fn show_wheel_message() -> (r: &'static str)
    ensures
        r@ == "SHOW_WHEEL\n"@,
{
    "SHOW_WHEEL\n"
}

/// The interface panels a notification can ask for.
#[derive(Debug, Clone, Copy, PartialEq, Eq, Structural)]
pub enum Panel {
    Selector,
    Wheel,
}

/// The panel a notification asks for, once trimmed.
pub open spec fn panel_of(t: Seq<char>) -> Option<Panel> {
    if t == "SHOW_SELECTOR"@ {
        Some(Panel::Selector)
    } else if t == "SHOW_WHEEL"@ {
        Some(Panel::Wheel)
    } else {
        None
    }
}

/// Reads a notification received by the interface, ignoring surrounding
/// white space; anything else asks for nothing.
pub fn panel_for_message(msg: &str) -> (r: Option<Panel>)
    ensures
        r == panel_of(trim_of(msg@)),
{
    let t = trim(msg);
    if str_equals(t, "SHOW_SELECTOR") {
        Some(Panel::Selector)
    } else if str_equals(t, "SHOW_WHEEL") {
        Some(Panel::Wheel)
    } else {
        None
    }
}

/// Sends "show selector" to the interface, at most once per
/// `DEBOUNCE_MS`. Times are milliseconds on a monotonic clock; a time
/// before the last notification counts as no time passed.
pub struct IPCClient {
    pipe_name: String,
    last_send: Option<u64>,
}

/// Whether a notification at `now` goes out after one sent at `last`.
pub open spec fn send_allowed(last: Option<u64>, now: u64) -> bool {
    match last {
        Some(t) => now >= t && now - t >= DEBOUNCE_MS,
        None => true,
    }
}

impl IPCClient {
    pub closed spec fn pipe_view(&self) -> Seq<char> {
        self.pipe_name@
    }

    /// When the last notification went out.
    pub closed spec fn last_send_view(&self) -> Option<u64> {
        self.last_send
    }

    /// A client for the pipe `pipe_name` that has sent nothing yet.
    pub fn new(pipe_name: String) -> (r: IPCClient)
        ensures
            r.pipe_view() == pipe_name@,
            r.last_send_view() is None,
    {
        IPCClient { pipe_name, last_send: None }
    }

    /// A client for the interface's standard pipe.
    pub fn default() -> (r: IPCClient)
        ensures
            r.pipe_view() == SELECTOR_PIPE_NAME@,
            r.last_send_view() is None,
    {
        IPCClient::new(SELECTOR_PIPE_NAME.to_string())
    }

    /// The pipe written to.
    pub fn pipe_name(&self) -> (r: &str)
        ensures
            r@ == self.pipe_view(),
    {
        self.pipe_name.as_str()
    }

    /// Decides whether a notification at `now_ms` goes out; when it does,
    /// it is recorded as the last one. A notification within `DEBOUNCE_MS`
    /// of the last is dropped and leaves the record as it was.
    pub fn should_send(&mut self, now_ms: u64) -> (r: bool)
        ensures
            r == send_allowed(old(self).last_send_view(), now_ms),
            final(self).pipe_view() == old(self).pipe_view(),
            final(self).last_send_view() == if r {
                Some(now_ms)
            } else {
                old(self).last_send_view()
            },
    {
        let allowed = match self.last_send {
            Some(t) => now_ms >= t && now_ms - t >= DEBOUNCE_MS,
            None => true,
        };
        if allowed {
            self.last_send = Some(now_ms);
        }
        allowed
    }
}

} // verus!
