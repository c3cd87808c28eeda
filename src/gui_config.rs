//! The interface's own view of the configuration: the hotkey, the
//! database, and the global injection order.
use vstd::prelude::*;

use crate::strategy::views_of;
use crate::text::{lower_of, lowercase, split_at_char, split_on, str_equals, upper_of, uppercase};

verus! {

/// The interface's configuration.
pub struct Config {
    pub hotkey: String,
    pub database_path: String,
    pub injection: InjectionConfig,
}

/// The global injection settings the interface shows.
pub struct InjectionConfig {
    pub order: Vec<String>,
    pub allow_clipboard: bool,
}

impl Config {
    /// The interface's defaults, with the prompt database under the
    /// application-data directory when it is known.
    pub fn with_appdata(appdata: Option<&str>) -> (r: Config)
        ensures
            r.hotkey@ == "Ctrl+Alt+Space"@,
            r.database_path@ == match appdata {
                Some(a) => a@ + "\\PromptManager\\promptmgr.db"@,
                None => "promptmgr.db"@,
            },
            views_of(r.injection.order@) == seq!["uia"@, "clipboard"@, "sendinput"@],
            r.injection.allow_clipboard,
    {
        let database_path = match appdata {
            Some(a) => a.to_string().concat("\\PromptManager\\promptmgr.db"),
            None => "promptmgr.db".to_string(),
        };
        let order = vec!["uia".to_string(), "clipboard".to_string(), "sendinput".to_string()];
        assert(views_of(order@) =~= seq!["uia"@, "clipboard"@, "sendinput"@]);
        Config {
            hotkey: "Ctrl+Alt+Space".to_string(),
            database_path,
            injection: InjectionConfig { order, allow_clipboard: true },
        }
    }
}

/// `s` without its space characters.
pub open spec fn without_spaces(s: Seq<char>) -> Seq<char> {
    s.filter(|c: char| c != ' ')
}

/// Relies on `str::replace`: every `" "` replaced by nothing.
#[verifier::external_body]
fn remove_spaces(s: &str) -> (r: String)
    ensures
        r@ == without_spaces(s@),
{
    s.replace(" ", "")
}

/// The modifier a lower-case part names.
pub open spec fn modifier_label(p: Seq<char>) -> Option<Seq<char>> {
    if p == "ctrl"@ || p == "control"@ {
        Some("Ctrl"@)
    } else if p == "alt"@ {
        Some("Alt"@)
    } else if p == "shift"@ {
        Some("Shift"@)
    } else {
        None
    }
}

/// A lower-case part that may be the main key: `space`, a letter or a digit.
pub open spec fn is_main_key(p: Seq<char>) -> bool {
    p == "space"@ || (p.len() == 1 && (('a' <= p[0] && p[0] <= 'z') || ('0' <= p[0] && p[0] <= '9')))
}

/// The modifiers named by the parts, in order, and the last main key.
pub open spec fn scan_parts(parts: Seq<Seq<char>>) -> (Seq<Seq<char>>, Option<Seq<char>>)
    decreases parts.len(),
{
    if parts.len() == 0 {
        (Seq::empty(), None)
    } else {
        let (mods, main) = scan_parts(parts.drop_last());
        match modifier_label(parts.last()) {
            Some(m) => (mods.push(m), main),
            None => if is_main_key(parts.last()) {
                (mods, Some(parts.last()))
            } else {
                (mods, main)
            },
        }
    }
}

/// The modifiers with Ctrl and Alt added when missing.
pub open spec fn with_ctrl_alt(mods: Seq<Seq<char>>) -> Seq<Seq<char>> {
    let m = if mods.contains("Ctrl"@) {
        mods
    } else {
        mods.push("Ctrl"@)
    };
    if m.contains("Alt"@) {
        m
    } else {
        m.push("Alt"@)
    }
}

/// The parts joined with `+`.
pub open spec fn join_plus(parts: Seq<Seq<char>>) -> Seq<char>
    decreases parts.len(),
{
    if parts.len() == 0 {
        Seq::empty()
    } else if parts.len() == 1 {
        parts[0]
    } else {
        join_plus(parts.drop_last()) + "+"@ + parts.last()
    }
}

/// How a hotkey typed in the settings is stored: spaces dropped, parts
/// read without regard to case, unknown parts ignored, Ctrl and Alt always
/// present, the last letter, digit or `space` as the main key (`Space`
/// when there is none), and nothing typed gives `Ctrl+Alt+Space`.
pub open spec fn normalized_hotkey(input: Option<Seq<char>>) -> Seq<char> {
    match input {
        None => "Ctrl+Alt+Space"@,
        Some(s) => {
            let (mods, main) = scan_parts(split_on(lower_of(without_spaces(s)), '+'));
            let key = match main {
                Some(k) => k,
                None => "space"@,
            };
            let label = if key == "space"@ {
                "Space"@
            } else {
                upper_of(key)
            };
            join_plus(with_ctrl_alt(mods).push(label))
        },
    }
}

fn is_main_key_exec(p: &str) -> (r: bool)
    ensures
        r == is_main_key(p@),
{
    if str_equals(p, "space") {
        return true;
    }
    if p.unicode_len() != 1 {
        return false;
    }
    let c = p.get_char(0);
    ('a' <= c && c <= 'z') || ('0' <= c && c <= '9')
}

fn modifier_label_exec(p: &str) -> (r: Option<&'static str>)
    ensures
        match r {
            Some(m) => modifier_label(p@) == Some(m@),
            None => modifier_label(p@) is None,
        },
{
    if str_equals(p, "ctrl") || str_equals(p, "control") {
        Some("Ctrl")
    } else if str_equals(p, "alt") {
        Some("Alt")
    } else if str_equals(p, "shift") {
        Some("Shift")
    } else {
        None
    }
}

fn contains_label(v: &Vec<&'static str>, x: &str) -> (r: bool)
    ensures
        r == v@.map_values(|p: &str| p@).contains(x@),
{
    let ghost vs = v@.map_values(|p: &str| p@);
    let mut i: usize = 0;
    while i < v.len()
        invariant
            i <= v@.len(),
            vs == v@.map_values(|p: &str| p@),
            forall|k: int| 0 <= k < i ==> vs[k] != x@,
        decreases v@.len() - i,
    {
        if str_equals(v[i], x) {
            assert(vs[i as int] == x@);
            return true;
        }
        i = i + 1;
    }
    false
}

/// Normalizes a hotkey typed in the settings.
pub fn normalize_hotkey(input: Option<&str>) -> (r: String)
    ensures
        r@ == normalized_hotkey(
            match input {
                Some(s) => Some(s@),
                None => None,
            },
        ),
{
    let s = match input {
        None => {
            return "Ctrl+Alt+Space".to_string();
        },
        Some(s) => s,
    };
    let compact = remove_spaces(s);
    let lower = lowercase(compact.as_str());
    let parts = split_at_char(lower.as_str(), '+');
    let ghost all = split_on(lower@, '+');
    let mut mods: Vec<&'static str> = Vec::new();
    let mut main: Option<&str> = None;
    let mut i: usize = 0;
    while i < parts.len()
        invariant
            i <= parts@.len(),
            all == parts@.map_values(|p: &str| p@),
            scan_parts(all.take(i as int)) == (
                mods@.map_values(|p: &str| p@),
                match main {
                    Some(m) => Some(m@),
                    None => None::<Seq<char>>,
                },
            ),
        decreases parts@.len() - i,
    {
        assert(all.take(i as int + 1).drop_last() =~= all.take(i as int));
        assert(all.take(i as int + 1).last() == parts@[i as int]@);
        let p = parts[i];
        match modifier_label_exec(p) {
            Some(m) => {
                let ghost before = mods@;
                mods.push(m);
                assert(mods@.map_values(|q: &str| q@) =~= before.map_values(|q: &str| q@).push(m@));
            },
            None => {
                if is_main_key_exec(p) {
                    main = Some(p);
                }
            },
        }
        i = i + 1;
    }
    assert(all.take(parts@.len() as int) =~= all);
    if !contains_label(&mods, "Ctrl") {
        let ghost before = mods@;
        mods.push("Ctrl");
        assert(mods@.map_values(|q: &str| q@) =~= before.map_values(|q: &str| q@).push("Ctrl"@));
    }
    if !contains_label(&mods, "Alt") {
        let ghost before = mods@;
        mods.push("Alt");
        assert(mods@.map_values(|q: &str| q@) =~= before.map_values(|q: &str| q@).push("Alt"@));
    }
    let key = match main {
        Some(k) => k,
        None => "space",
    };
    let label = if str_equals(key, "space") {
        "Space".to_string()
    } else {
        uppercase(key)
    };
    let ghost labels = mods@.map_values(|q: &str| q@).push(label@);
    let mut out = mods[0].to_string();
    let mut j: usize = 1;
    while j < mods.len()
        invariant
            1 <= j <= mods@.len(),
            labels == mods@.map_values(|q: &str| q@).push(label@),
            out@ == join_plus(labels.take(j as int)),
        decreases mods@.len() - j,
    {
        assert(labels.take(j as int + 1).drop_last() =~= labels.take(j as int));
        assert(labels.take(j as int + 1).last() == mods@[j as int]@);
        out = out.concat("+").concat(mods[j]);
        j = j + 1;
    }
    assert(labels.take(j as int + 1).drop_last() =~= labels.take(j as int));
    assert(labels.take(j as int + 1) =~= labels);
    out.concat("+").concat(label.as_str())
}

/// Sets up the configuration module; it keeps no state, so there is
/// nothing to do.
pub fn init() {
}

} // verus!
