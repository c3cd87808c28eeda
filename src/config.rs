//! Engine configuration: global injection settings, per-application
//! overrides, their defaults, and the clean-up applied after loading.
use vstd::prelude::*;

use crate::strategy::views_of;
use crate::text::{lower_of, lowercase, str_equals};

verus! {

/// Global injection settings.
pub struct InjectionConfig {
    pub order: Vec<String>,
    pub allow_clipboard: bool,
    pub uia_value_pattern_mode: String,
    pub debug_mode: bool,
    pub max_retries: u32,
}

/// A per-application strategy override: a primary strategy and its fallbacks.
pub struct StrategyConfig {
    pub primary: String,
    pub fallback: Vec<String>,
}

/// Per-application timing and behaviour settings.
#[derive(Debug, Clone, Copy, PartialEq, Eq, Structural)]
pub struct ApplicationSettings {
    pub pre_inject_delay: u64,
    pub focus_retry_count: u32,
    pub verify_injection: bool,
    pub use_accessibility_api: bool,
}

/// Everything configured for one application.
pub struct ApplicationConfig {
    pub display_name: String,
    pub strategies: StrategyConfig,
    pub settings: ApplicationSettings,
}

/// The whole configuration. `applications` maps a lower-case process
/// image name to its settings; the first entry for a name is the one used.
pub struct Config {
    pub hotkey: String,
    pub database_path: String,
    pub injection: InjectionConfig,
    pub applications: Vec<(String, ApplicationConfig)>,
}

/// The mathematical value of a strategy override.
pub type StrategyView = (Seq<char>, Seq<Seq<char>>);

/// The mathematical value of an application's configuration.
pub type AppView = (Seq<char>, StrategyView, ApplicationSettings);

impl View for StrategyConfig {
    type V = StrategyView;

    open spec fn view(&self) -> StrategyView {
        (self.primary@, views_of(self.fallback@))
    }
}

impl View for ApplicationConfig {
    type V = AppView;

    open spec fn view(&self) -> AppView {
        (self.display_name@, self.strategies@, self.settings)
    }
}

/// The applications of a configuration, as (name, configuration) values.
pub open spec fn apps_view(apps: Seq<(String, ApplicationConfig)>) -> Seq<(Seq<char>, AppView)> {
    apps.map_values(|e: (String, ApplicationConfig)| (e.0@, e.1@))
}

/// The first configuration recorded under `key`.
pub open spec fn lookup_app(apps: Seq<(Seq<char>, AppView)>, key: Seq<char>) -> Option<AppView>
    decreases apps.len(),
{
    if apps.len() == 0 {
        None
    } else if apps[0].0 == key {
        Some(apps[0].1)
    } else {
        lookup_app(apps.drop_first(), key)
    }
}

pub open spec fn default_settings_spec() -> ApplicationSettings {
    ApplicationSettings {
        pre_inject_delay: 80,
        focus_retry_count: 3,
        verify_injection: true,
        use_accessibility_api: false,
    }
}

/// What an application without an entry of its own is given.
pub open spec fn default_app_view() -> AppView {
    (
        "Unknown Application"@,
        ("uia"@, seq!["clipboard"@, "sendinput"@]),
        default_settings_spec(),
    )
}

/// The global order used when none is configured.
pub open spec fn default_order_spec() -> Seq<Seq<char>> {
    seq!["clipboard"@, "sendinput"@]
}

pub open spec fn predefined_count() -> int {
    4
}

/// The built-in application table, entry by entry.
pub open spec fn predefined_entry(i: int) -> (Seq<char>, AppView) {
    if i == 0 {
        (
            "code.exe"@,
            (
                "Visual Studio Code"@,
                ("textpattern_enhanced"@, seq!["sendinput"@, "clipboard"@]),
                ApplicationSettings {
                    pre_inject_delay: 150,
                    focus_retry_count: 3,
                    verify_injection: true,
                    use_accessibility_api: false,
                },
            ),
        )
    } else if i == 1 {
        (
            "idea64.exe"@,
            (
                "IntelliJ IDEA"@,
                ("clipboard"@, seq!["sendinput"@]),
                ApplicationSettings {
                    pre_inject_delay: 200,
                    focus_retry_count: 2,
                    verify_injection: true,
                    use_accessibility_api: true,
                },
            ),
        )
    } else if i == 2 {
        (
            "devenv.exe"@,
            (
                "Visual Studio"@,
                ("uia"@, seq!["clipboard"@, "sendinput"@]),
                ApplicationSettings {
                    pre_inject_delay: 50,
                    focus_retry_count: 2,
                    verify_injection: true,
                    use_accessibility_api: false,
                },
            ),
        )
    } else {
        (
            "notepad++.exe"@,
            (
                "Notepad++"@,
                ("textpattern_enhanced"@, seq!["clipboard"@, "sendinput"@]),
                ApplicationSettings {
                    pre_inject_delay: 100,
                    focus_retry_count: 2,
                    verify_injection: false,
                    use_accessibility_api: false,
                },
            ),
        )
    }
}

fn owned(s: &str) -> (r: String)
    ensures
        r@ == s@,
{
    s.to_string()
}

/// Copies a list of strings.
pub fn copy_strings(v: &Vec<String>) -> (r: Vec<String>)
    ensures
        views_of(r@) == views_of(v@),
{
    let mut out: Vec<String> = Vec::new();
    let mut i: usize = 0;
    while i < v.len()
        invariant
            i <= v@.len(),
            out@.len() == i,
            forall|k: int| 0 <= k < i ==> #[trigger] out@[k]@ == v@[k]@,
        decreases v@.len() - i,
    {
        out.push(v[i].clone());
        i = i + 1;
    }
    assert(views_of(out@) =~= views_of(v@));
    out
}

fn two_names(a: &str, b: &str) -> (r: Vec<String>)
    ensures
        views_of(r@) == seq![a@, b@],
{
    let r = vec![owned(a), owned(b)];
    assert(views_of(r@) =~= seq![a@, b@]);
    r
}

pub fn default_hotkey() -> (r: String)
    ensures
        r@ == "Ctrl+Alt+Space"@,
{
    owned("Ctrl+Alt+Space")
}

pub fn default_injection_order() -> (r: Vec<String>)
    ensures
        views_of(r@) == default_order_spec(),
{
    two_names("clipboard", "sendinput")
}

pub fn default_allow_clipboard() -> (r: bool)
    ensures
        r,
{
    true
}

pub fn default_uia_value_pattern_mode() -> (r: String)
    ensures
        r@ == "insert"@,
{
    owned("insert")
}

pub fn default_debug_mode() -> (r: bool)
    ensures
        !r,
{
    false
}

pub fn default_max_retries() -> (r: u32)
    ensures
        r == 3,
{
    3
}

pub fn default_pre_inject_delay() -> (r: u64)
    ensures
        r == 80,
{
    80
}

pub fn default_focus_retry_count() -> (r: u32)
    ensures
        r == 3,
{
    3
}

pub fn default_verify_injection() -> (r: bool)
    ensures
        r,
{
    true
}

pub fn default_use_accessibility_api() -> (r: bool)
    ensures
        !r,
{
    false
}

impl StrategyConfig {
    /// The override of an application without one of its own: the
    /// accessibility write, then clipboard, then typing.
    pub fn default_override() -> (r: StrategyConfig)
        ensures
            r@ == default_app_view().1,
    {
        StrategyConfig { primary: owned("uia"), fallback: two_names("clipboard", "sendinput") }
    }

    pub fn duplicate(&self) -> (r: StrategyConfig)
        ensures
            r@ == self@,
    {
        StrategyConfig { primary: self.primary.clone(), fallback: copy_strings(&self.fallback) }
    }
}

impl ApplicationSettings {
    pub fn default_settings() -> (r: ApplicationSettings)
        ensures
            r == default_settings_spec(),
    {
        ApplicationSettings {
            pre_inject_delay: default_pre_inject_delay(),
            focus_retry_count: default_focus_retry_count(),
            verify_injection: default_verify_injection(),
            use_accessibility_api: default_use_accessibility_api(),
        }
    }
}

impl ApplicationConfig {
    /// The configuration of an application without an entry of its own.
    pub fn default_config() -> (r: ApplicationConfig)
        ensures
            r@ == default_app_view(),
    {
        ApplicationConfig {
            display_name: owned("Unknown Application"),
            strategies: StrategyConfig::default_override(),
            settings: ApplicationSettings::default_settings(),
        }
    }

    pub fn duplicate(&self) -> (r: ApplicationConfig)
        ensures
            r@ == self@,
    {
        ApplicationConfig {
            display_name: self.display_name.clone(),
            strategies: self.strategies.duplicate(),
            settings: self.settings,
        }
    }
}

impl InjectionConfig {
    /// The global settings used when none are configured.
    pub fn default_config() -> (r: InjectionConfig)
        ensures
            views_of(r.order@) == default_order_spec(),
            r.allow_clipboard,
            r.uia_value_pattern_mode@ == "insert"@,
            !r.debug_mode,
            r.max_retries == 3,
    {
        InjectionConfig {
            order: default_injection_order(),
            allow_clipboard: default_allow_clipboard(),
            uia_value_pattern_mode: default_uia_value_pattern_mode(),
            debug_mode: default_debug_mode(),
            max_retries: default_max_retries(),
        }
    }
}

fn app_entry(
    name: &str,
    display: &str,
    primary: &str,
    fallback: Vec<String>,
    settings: ApplicationSettings,
) -> (r: (String, ApplicationConfig))
    ensures
        r.0@ == name@,
        r.1@ == (display@, (primary@, views_of(fallback@)), settings),
{
    (
        owned(name),
        ApplicationConfig {
            display_name: owned(display),
            strategies: StrategyConfig { primary: owned(primary), fallback },
            settings,
        },
    )
}

/// The configuration file inside the per-user application-data directory.
pub fn config_file_path(appdata: &str) -> (r: String)
    ensures
        r@ == appdata@ + "\\PromptKey\\config.yaml"@,
{
    owned(appdata).concat("\\PromptKey\\config.yaml")
}

/// The directory that holds the configuration file.
pub fn config_dir_path(appdata: &str) -> (r: String)
    ensures
        r@ == appdata@ + "\\PromptKey"@,
{
    owned(appdata).concat("\\PromptKey")
}

/// Where the prompt database lives: under the application-data directory
/// when it is known, else beside the program.
pub fn default_database_path(appdata: Option<&str>) -> (r: String)
    ensures
        r@ == match appdata {
            Some(a) => a@ + "\\PromptKey\\promptmgr.db"@,
            None => "promptmgr.db"@,
        },
{
    match appdata {
        Some(a) => owned(a).concat("\\PromptKey\\promptmgr.db"),
        None => owned("promptmgr.db"),
    }
}

/// The name is one of the accessibility strategies that the global order
/// no longer accepts.
pub open spec fn is_deprecated_name(name: Seq<char>) -> bool {
    lower_of(name) == "uia"@ || lower_of(name) == "textpattern_enhanced"@
}

/// The names of `order` that are not deprecated, in order.
pub open spec fn without_deprecated(order: Seq<Seq<char>>) -> Seq<Seq<char>>
    decreases order.len(),
{
    if order.len() == 0 {
        Seq::empty()
    } else if is_deprecated_name(order.last()) {
        without_deprecated(order.drop_last())
    } else {
        without_deprecated(order.drop_last()).push(order.last())
    }
}

/// The global order after loading: the default when empty, else the
/// configured names without deprecated ones, or the default when none is left.
pub open spec fn cleaned_order(order: Seq<Seq<char>>) -> Seq<Seq<char>> {
    if order.len() == 0 || without_deprecated(order).len() == 0 {
        default_order_spec()
    } else {
        without_deprecated(order)
    }
}

fn drop_deprecated(order: &Vec<String>) -> (r: Vec<String>)
    ensures
        views_of(r@) == without_deprecated(views_of(order@)),
{
    let ghost all = views_of(order@);
    let mut out: Vec<String> = Vec::new();
    let mut i: usize = 0;
    while i < order.len()
        invariant
            i <= order@.len(),
            all == views_of(order@),
            views_of(out@) == without_deprecated(all.take(i as int)),
        decreases order@.len() - i,
    {
        assert(all.take(i as int + 1).drop_last() =~= all.take(i as int));
        assert(all.take(i as int + 1).last() == order@[i as int]@);
        let low = lowercase(order[i].as_str());
        if !(str_equals(low.as_str(), "uia") || str_equals(low.as_str(), "textpattern_enhanced")) {
            let ghost before = out@;
            out.push(order[i].clone());
            assert(views_of(out@) =~= views_of(before).push(order@[i as int]@));
        }
        i = i + 1;
    }
    assert(all.take(order@.len() as int) =~= all);
    out
}

impl Config {
    /// A configuration with every default and no application entries.
    pub fn with_database_path(database_path: String) -> (r: Config)
        ensures
            r.hotkey@ == "Ctrl+Alt+Space"@,
            r.database_path@ == database_path@,
            views_of(r.injection.order@) == default_order_spec(),
            r.injection.allow_clipboard,
            r.injection.uia_value_pattern_mode@ == "insert"@,
            !r.injection.debug_mode,
            r.injection.max_retries == 3,
            r.applications@.len() == 0,
    {
        Config {
            hotkey: default_hotkey(),
            database_path,
            injection: InjectionConfig::default_config(),
            applications: Vec::new(),
        }
    }

    /// The defaults together with the built-in application table.
    pub fn default_with_predefined_apps(database_path: String) -> (r: Config)
        ensures
            r.hotkey@ == "Ctrl+Alt+Space"@,
            r.database_path@ == database_path@,
            views_of(r.injection.order@) == default_order_spec(),
            r.injection.allow_clipboard,
            r.injection.uia_value_pattern_mode@ == "insert"@,
            !r.injection.debug_mode,
            r.injection.max_retries == 3,
            r.applications@.len() == predefined_count(),
            forall|i: int|
                0 <= i < predefined_count() ==> #[trigger] apps_view(r.applications@)[i]
                    == predefined_entry(i),
    {
        let mut config = Config::with_database_path(database_path);
        config.applications = Config::get_predefined_applications();
        config
    }

    /// The built-in application table.
    pub fn get_predefined_applications() -> (r: Vec<(String, ApplicationConfig)>)
        ensures
            r@.len() == predefined_count(),
            forall|i: int|
                0 <= i < predefined_count() ==> #[trigger] apps_view(r@)[i] == predefined_entry(
                    i,
                ),
    {
        let mut apps: Vec<(String, ApplicationConfig)> = Vec::new();
        apps.push(
            app_entry(
                "code.exe",
                "Visual Studio Code",
                "textpattern_enhanced",
                two_names("sendinput", "clipboard"),
                ApplicationSettings {
                    pre_inject_delay: 150,
                    focus_retry_count: 3,
                    verify_injection: true,
                    use_accessibility_api: false,
                },
            ),
        );
        let single = vec![owned("sendinput")];
        assert(views_of(single@) =~= seq!["sendinput"@]);
        apps.push(
            app_entry(
                "idea64.exe",
                "IntelliJ IDEA",
                "clipboard",
                single,
                ApplicationSettings {
                    pre_inject_delay: 200,
                    focus_retry_count: 2,
                    verify_injection: true,
                    use_accessibility_api: true,
                },
            ),
        );
        apps.push(
            app_entry(
                "devenv.exe",
                "Visual Studio",
                "uia",
                two_names("clipboard", "sendinput"),
                ApplicationSettings {
                    pre_inject_delay: 50,
                    focus_retry_count: 2,
                    verify_injection: true,
                    use_accessibility_api: false,
                },
            ),
        );
        apps.push(
            app_entry(
                "notepad++.exe",
                "Notepad++",
                "textpattern_enhanced",
                two_names("clipboard", "sendinput"),
                ApplicationSettings {
                    pre_inject_delay: 100,
                    focus_retry_count: 2,
                    verify_injection: false,
                    use_accessibility_api: false,
                },
            ),
        );
        apps
    }

    /// Finds the entry recorded under a lower-case name.
    pub fn find_app(&self, key: &str) -> (r: Option<&ApplicationConfig>)
        ensures
            match r {
                Some(c) => lookup_app(apps_view(self.applications@), key@) == Some(c@),
                None => lookup_app(apps_view(self.applications@), key@) is None,
            },
    {
        let ghost all = apps_view(self.applications@);
        let mut i: usize = 0;
        assert(all.skip(0) =~= all);
        while i < self.applications.len()
            invariant
                i <= self.applications@.len(),
                all == apps_view(self.applications@),
                lookup_app(all, key@) == lookup_app(all.skip(i as int), key@),
            decreases self.applications@.len() - i,
        {
            let entry = &self.applications[i];
            assert(all.skip(i as int)[0] == all[i as int]);
            if str_equals(entry.0.as_str(), key) {
                return Some(&entry.1);
            }
            assert(all.skip(i as int).drop_first() =~= all.skip(i as int + 1));
            i = i + 1;
        }
        None
    }

    /// The configuration of an application, looked up by its lower-case
    /// name, or the defaults when it has no entry.
    pub fn get_app_config(&self, app_name: &str) -> (r: ApplicationConfig)
        ensures
            r@ == match lookup_app(apps_view(self.applications@), lower_of(app_name@)) {
                Some(c) => c,
                None => default_app_view(),
            },
    {
        let key = lowercase(app_name);
        match self.find_app(key.as_str()) {
            Some(c) => c.duplicate(),
            None => ApplicationConfig::default_config(),
        }
    }

    /// The clean-up applied to a freshly loaded configuration: an empty
    /// application table gets the built-in one; the global order drops
    /// deprecated names and falls back to the default when nothing is
    /// left; an empty insertion mode becomes the default; a blank database
    /// path becomes `default_db`.
    pub fn normalize(&mut self, default_db: &str)
        ensures
            final(self).hotkey == old(self).hotkey,
            old(self).applications@.len() == 0 ==> (final(self).applications@.len()
                == predefined_count() && forall|i: int|
                0 <= i < predefined_count() ==> #[trigger] apps_view(
                    final(self).applications@,
                )[i] == predefined_entry(i)),
            old(self).applications@.len() != 0 ==> final(self).applications@
                == old(self).applications@,
            views_of(final(self).injection.order@) == cleaned_order(
                views_of(old(self).injection.order@),
            ),
            final(self).injection.uia_value_pattern_mode@ == if old(
                self,
            ).injection.uia_value_pattern_mode@.len() == 0 {
                "insert"@
            } else {
                old(self).injection.uia_value_pattern_mode@
            },
            final(self).injection.allow_clipboard == old(self).injection.allow_clipboard,
            final(self).injection.debug_mode == old(self).injection.debug_mode,
            final(self).injection.max_retries == old(self).injection.max_retries,
            final(self).database_path@ == if crate::text::trim_of(old(self).database_path@).len()
                == 0 {
                default_db@
            } else {
                old(self).database_path@
            },
    {
        if self.applications.len() == 0 {
            self.applications = Config::get_predefined_applications();
        }
        if self.injection.order.len() == 0 {
            self.injection.order = default_injection_order();
        } else {
            let kept = drop_deprecated(&self.injection.order);
            if kept.len() == 0 {
                self.injection.order = default_injection_order();
            } else {
                self.injection.order = kept;
            }
        }
        if self.injection.uia_value_pattern_mode.unicode_len() == 0 {
            self.injection.uia_value_pattern_mode = default_uia_value_pattern_mode();
        }
        let trimmed = crate::text::trim(self.database_path.as_str());
        if trimmed.unicode_len() == 0 {
            self.database_path = owned(default_db);
        }
    }
}

} // verus!
