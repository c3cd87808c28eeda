//! The engine's event loop decisions: which hotkeys it registers and how
//! it reads them, what each hotkey asks for, where the prompt of a request
//! comes from, and whether the embedded engine runs.
use vstd::prelude::*;

use crate::text::{split_on, split_at_char, str_equals, trim, trim_of, upper_of, uppercase};

verus! {

/// Modifier bit for Alt.
pub const MOD_ALT: u32 = 1;
/// Modifier bit for Ctrl.
pub const MOD_CONTROL: u32 = 2;
/// Modifier bit for Shift.
pub const MOD_SHIFT: u32 = 4;
/// Modifier bit for the Windows key.
pub const MOD_WIN: u32 = 8;
/// Virtual-key code of the space bar.
pub const VK_SPACE: u16 = 0x20;
/// Virtual-key code of Enter.
pub const VK_RETURN: u16 = 0x0D;

/// What one part of a hotkey string stands for.
#[derive(Debug, Clone, Copy, PartialEq, Eq, Structural)]
pub enum KeyPart {
    Modifier(u32),
    Key(u16),
}

/// The meaning of an upper-case, trimmed part: a modifier name, a named
/// key, or a single ASCII character taken as its own key code.
pub open spec fn key_part_of(u: Seq<char>) -> Option<KeyPart> {
    if u == "CTRL"@ {
        Some(KeyPart::Modifier(MOD_CONTROL))
    } else if u == "ALT"@ {
        Some(KeyPart::Modifier(MOD_ALT))
    } else if u == "SHIFT"@ {
        Some(KeyPart::Modifier(MOD_SHIFT))
    } else if u == "WIN"@ {
        Some(KeyPart::Modifier(MOD_WIN))
    } else if u == "SPACE"@ {
        Some(KeyPart::Key(VK_SPACE))
    } else if u == "ENTER"@ {
        Some(KeyPart::Key(VK_RETURN))
    } else if u.len() == 1 && (u[0] as u32) < 128 {
        Some(KeyPart::Key(u[0] as u16))
    } else {
        None
    }
}

/// A hotkey string, already split into parts: the key code and the
/// modifier bits, or the first part that means nothing.
pub open spec fn hotkey_of_parts(parts: Seq<Seq<char>>) -> Result<(u16, u32), Seq<char>>
    decreases parts.len(),
{
    if parts.len() == 0 {
        Ok((0u16, 0u32))
    } else {
        match hotkey_of_parts(parts.drop_last()) {
            Err(e) => Err(e),
            Ok((vk, mods)) => match key_part_of(upper_of(trim_of(parts.last()))) {
                None => Err(trim_of(parts.last())),
                Some(KeyPart::Modifier(b)) => Ok((vk, mods | b)),
                Some(KeyPart::Key(k)) => Ok((k, mods)),
            },
        }
    }
}

/// A hotkey string such as `Ctrl+Alt+Space`: its parts between `+` are
/// read without regard to case or surrounding white space.
pub open spec fn hotkey_of(s: Seq<char>) -> Result<(u16, u32), Seq<char>> {
    hotkey_of_parts(split_on(s, '+'))
}

proof fn lemma_error_persists(parts: Seq<Seq<char>>, k: int)
    requires
        0 <= k <= parts.len(),
        hotkey_of_parts(parts.take(k)) is Err,
    ensures
        hotkey_of_parts(parts) == hotkey_of_parts(parts.take(k)),
    decreases parts.len(),
{
    if k < parts.len() {
        assert(parts.drop_last().take(k) =~= parts.take(k));
        lemma_error_persists(parts.drop_last(), k);
    } else {
        assert(parts.take(k) =~= parts);
    }
}

fn key_part(u: &str) -> (r: Option<KeyPart>)
    ensures
        r == key_part_of(u@),
{
    if str_equals(u, "CTRL") {
        Some(KeyPart::Modifier(MOD_CONTROL))
    } else if str_equals(u, "ALT") {
        Some(KeyPart::Modifier(MOD_ALT))
    } else if str_equals(u, "SHIFT") {
        Some(KeyPart::Modifier(MOD_SHIFT))
    } else if str_equals(u, "WIN") {
        Some(KeyPart::Modifier(MOD_WIN))
    } else if str_equals(u, "SPACE") {
        Some(KeyPart::Key(VK_SPACE))
    } else if str_equals(u, "ENTER") {
        Some(KeyPart::Key(VK_RETURN))
    } else if u.unicode_len() == 1 && (u.get_char(0) as u32) < 128 {
        Some(KeyPart::Key(u.get_char(0) as u16))
    } else {
        None
    }
}

/// Reads a hotkey string into its virtual-key code and modifier bits; the
/// error is the first part that names neither.
pub fn parse_hotkey(hotkey_str: &str) -> (r: Result<(u16, u32), String>)
    ensures
        match r {
            Ok(v) => hotkey_of(hotkey_str@) == Ok::<(u16, u32), Seq<char>>(v),
            Err(e) => hotkey_of(hotkey_str@) == Err::<(u16, u32), Seq<char>>(e@),
        },
{
    let parts = split_at_char(hotkey_str, '+');
    let ghost all = split_on(hotkey_str@, '+');
    let mut vk: u16 = 0;
    let mut mods: u32 = 0;
    let mut i: usize = 0;
    while i < parts.len()
        invariant
            i <= parts@.len(),
            all == parts@.map_values(|p: &str| p@),
            all == split_on(hotkey_str@, '+'),
            hotkey_of_parts(all.take(i as int)) == Ok::<(u16, u32), Seq<char>>((vk, mods)),
        decreases parts@.len() - i,
    {
        assert(all.take(i as int + 1).drop_last() =~= all.take(i as int));
        assert(all.take(i as int + 1).last() == parts@[i as int]@);
        let t = trim(parts[i]);
        let u = uppercase(t);
        match key_part(u.as_str()) {
            None => {
                proof {
                    lemma_error_persists(all, i as int + 1);
                }
                return Err(t.to_string());
            },
            Some(KeyPart::Modifier(b)) => {
                mods = mods | b;
            },
            Some(KeyPart::Key(k)) => {
                vk = k;
            },
        }
        i = i + 1;
    }
    assert(all.take(parts@.len() as int) =~= all);
    Ok((vk, mods))
}

/// What a hotkey asks the engine to do.
#[derive(Debug, Clone, Copy, PartialEq, Eq, Structural)]
pub enum HotkeyCommand {
    /// Inject the selected prompt into the focused window.
    Inject,
    /// Remember the focused window and show the selector.
    ShowSelector,
    /// Remember the focused window and show the prompt wheel.
    ShowWheel,
    /// Nothing.
    Ignore,
}

/// The id under which the configured injection hotkey is registered.
pub const INJECT_HOTKEY_ID: u32 = 1;
/// The id of the selector hotkey.
pub const SELECTOR_HOTKEY_ID: u32 = 3;
/// The id of the wheel hotkey.
pub const WHEEL_HOTKEY_ID: u32 = 4;

/// The command of each hotkey id.
pub open spec fn command_of(id: u32) -> HotkeyCommand {
    if id == 1 || id == 2 {
        HotkeyCommand::Inject
    } else if id == 3 {
        HotkeyCommand::ShowSelector
    } else if id == 4 {
        HotkeyCommand::ShowWheel
    } else {
        HotkeyCommand::Ignore
    }
}

/// Maps a fired hotkey id to its command.
pub fn hotkey_command(id: u32) -> (r: HotkeyCommand)
    ensures
        r == command_of(id),
{
    if id == 1 || id == 2 {
        HotkeyCommand::Inject
    } else if id == 3 {
        HotkeyCommand::ShowSelector
    } else if id == 4 {
        HotkeyCommand::ShowWheel
    } else {
        HotkeyCommand::Ignore
    }
}

/// The hotkeys the engine registers, with their ids: the configured
/// injection hotkey, `Ctrl+Shift+H` for the selector and `Ctrl+Alt+Q` for
/// the wheel.
pub fn service_hotkeys(main_hotkey: &str) -> (r: Vec<(u32, String)>)
    ensures
        r@.len() == 3,
        r@[0].0 == INJECT_HOTKEY_ID && r@[0].1@ == main_hotkey@,
        r@[1].0 == SELECTOR_HOTKEY_ID && r@[1].1@ == "Ctrl+Shift+H"@,
        r@[2].0 == WHEEL_HOTKEY_ID && r@[2].1@ == "Ctrl+Alt+Q"@,
{
    vec![
        (INJECT_HOTKEY_ID, main_hotkey.to_string()),
        (SELECTOR_HOTKEY_ID, "Ctrl+Shift+H".to_string()),
        (WHEEL_HOTKEY_ID, "Ctrl+Alt+Q".to_string()),
    ]
}

/// The window a request targets.
pub struct AppContext {
    pub process_name: String,
    pub window_title: String,
    /// The platform's number for the top-level window; zero for none.
    pub window_handle: usize,
}

impl AppContext {
    /// The context used when the foreground window cannot be read.
    pub fn unknown() -> (r: AppContext)
        ensures
            r.process_name@ == "Unknown"@,
            r.window_title@ == "Unknown"@,
            r.window_handle == 0,
    {
        AppContext {
            process_name: "Unknown".to_string(),
            window_title: "Unknown".to_string(),
            window_handle: 0,
        }
    }

    /// A copy of this context.
    pub fn duplicate(&self) -> (r: AppContext)
        ensures
            r.process_name@ == self.process_name@,
            r.window_title@ == self.window_title@,
            r.window_handle == self.window_handle,
    {
        AppContext {
            process_name: self.process_name.clone(),
            window_title: self.window_title.clone(),
            window_handle: self.window_handle,
        }
    }
}

/// The target of a request: the context remembered when a panel was
/// opened, else the foreground window, else the unknown context.
pub fn request_context(remembered: Option<&AppContext>, foreground: Option<AppContext>) -> (r:
    AppContext)
    ensures
        match remembered {
            Some(c) => r.process_name@ == c.process_name@ && r.window_title@ == c.window_title@
                && r.window_handle == c.window_handle,
            None => match foreground {
                Some(f) => r == f,
                None => r.process_name@ == "Unknown"@ && r.window_title@ == "Unknown"@
                    && r.window_handle == 0,
            },
        },
{
    match remembered {
        Some(c) => c.duplicate(),
        None => match foreground {
            Some(f) => f,
            None => AppContext::unknown(),
        },
    }
}

/// Where the prompt of a request comes from.
#[derive(Debug, Clone, Copy, PartialEq, Eq, Structural)]
pub enum PromptSource {
    /// The prompt picked in a panel.
    ById(i32),
    /// The prompt currently selected for hotkey injection.
    Selected,
}

/// The prompt source of a request, and the action it is logged under:
/// a forced id comes from a panel, no id from the hotkey.
pub fn request_source(force_id: Option<i32>) -> (r: (PromptSource, &'static str))
    ensures
        match force_id {
            Some(id) => r.0 == PromptSource::ById(id) && r.1@ == "wheel_select"@,
            None => r.0 == PromptSource::Selected && r.1@ == "hotkey_inject"@,
        },
{
    match force_id {
        Some(id) => (PromptSource::ById(id), "wheel_select"),
        None => (PromptSource::Selected, "hotkey_inject"),
    }
}

/// The selected prompt, if any: the id zero stands for none.
pub fn selected_prompt(selected_id: i32) -> (r: Option<i32>)
    ensures
        r == if selected_id == 0 {
            None
        } else {
            Some(selected_id)
        },
{
    if selected_id == 0 {
        None
    } else {
        Some(selected_id)
    }
}

/// Whether the embedded engine runs.
pub struct ServiceState {
    is_active: bool,
}

impl ServiceState {
    pub closed spec fn active(&self) -> bool {
        self.is_active
    }

    /// A stopped engine.
    pub fn new() -> (r: ServiceState)
        ensures
            !r.active(),
    {
        ServiceState { is_active: false }
    }

    /// Whether the engine runs.
    pub fn is_running(&mut self) -> (r: bool)
        ensures
            r == old(self).active(),
            final(self).active() == old(self).active(),
    {
        self.is_active
    }

    /// Marks the engine as running; true when it was stopped, that is,
    /// when the caller must start its thread.
    pub fn start_service(&mut self) -> (r: bool)
        ensures
            r == !old(self).active(),
            final(self).active(),
    {
        if self.is_active {
            return false;
        }
        self.is_active = true;
        true
    }

    /// Marks the engine as stopped.
    pub fn stop_service(&mut self)
        ensures
            !final(self).active(),
    {
        self.is_active = false;
    }
}

} // verus!
