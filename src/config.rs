//! Configuration of the utility, as supplied before start and fixed for the
//! life of the process.
use vstd::prelude::*;

use crate::heuristics::{standard_thresholds, Thresholds};
use crate::text::same_text;

verus! {

/// Shortest word that auto-correction may touch.
pub const MIN_AUTOCORRECT_LEN: usize = 5;

/// Default number of buffered keys before a word is evaluated at all.
pub const DETECT_THRESHOLD: u8 = 3;

#[derive(Clone, Debug)]
pub struct Config {
    pub logging: LoggingConfig,
    pub layout_switcher: LayoutSwitcherConfig,
    pub spell_checker: SpellCheckerConfig,
    pub modules: ModulesConfig,
}

#[derive(Clone, Debug)]
pub struct LoggingConfig {
    pub level: String,
    pub output: String,
}

#[derive(Clone, Debug)]
pub struct LayoutSwitcherConfig {
    pub enabled: bool,
    /// The layout-switch chord; only "alt+shift" is understood.
    pub hotkey: String,
    pub auto_detect: bool,
    pub detect_threshold: u8,
    pub forbidden_contexts: ForbiddenContextsConfig,
    pub min_autocorrect_len: usize,
    pub thresholds: Thresholds,
}

/// Case-insensitive substrings that forbid automated action when they occur
/// in the foreground process name or window title. The input type of the
/// focused control is not known to the guard, so `blocked_input_types` is
/// carried but matches nothing.
#[derive(Clone, Debug)]
pub struct ForbiddenContextsConfig {
    pub blocked_processes: Vec<String>,
    pub blocked_windows: Vec<String>,
    pub blocked_input_types: Vec<String>,
}

#[derive(Clone, Debug)]
pub struct SpellCheckerConfig {
    pub enabled: bool,
    pub api: String,
    pub language: String,
    pub cache_size: usize,
    pub api_config: SpellCheckerApiConfig,
    pub forbidden_contexts: ForbiddenContextsConfig,
}

#[derive(Clone, Debug)]
pub struct SpellCheckerApiConfig {
    pub base_url: String,
}

#[derive(Clone, Debug)]
pub struct ModulesConfig {
    pub loaded: Vec<String>,
    pub disabled: Vec<String>,
}

impl ForbiddenContextsConfig {
    pub open spec fn is_empty(self) -> bool {
        &&& self.blocked_processes@.len() == 0
        &&& self.blocked_windows@.len() == 0
        &&& self.blocked_input_types@.len() == 0
    }
}

impl Default for ForbiddenContextsConfig {
    fn default() -> (r: Self)
        ensures
            r.is_empty(),
    {
        ForbiddenContextsConfig {
            blocked_processes: Vec::new(),
            blocked_windows: Vec::new(),
            blocked_input_types: Vec::new(),
        }
    }
}

impl Default for LoggingConfig {
    fn default() -> (r: Self)
        ensures
            r.level@ == "info"@,
            r.output@ == "console"@,
    {
        LoggingConfig { level: "info".to_string(), output: "console".to_string() }
    }
}

impl Default for LayoutSwitcherConfig {
    fn default() -> (r: Self)
        ensures
            !r.enabled,
            r.hotkey@ == "alt+shift"@,
            r.auto_detect,
            r.detect_threshold == DETECT_THRESHOLD,
            r.forbidden_contexts.is_empty(),
            r.min_autocorrect_len == MIN_AUTOCORRECT_LEN,
            r.thresholds == standard_thresholds(),
    {
        LayoutSwitcherConfig {
            enabled: false,
            hotkey: "alt+shift".to_string(),
            auto_detect: true,
            detect_threshold: DETECT_THRESHOLD,
            forbidden_contexts: ForbiddenContextsConfig::default(),
            min_autocorrect_len: MIN_AUTOCORRECT_LEN,
            thresholds: Thresholds::standard(),
        }
    }
}

impl Default for SpellCheckerApiConfig {
    fn default() -> (r: Self)
        ensures
            r.base_url@ == "https://api.languagetool.org"@,
    {
        SpellCheckerApiConfig { base_url: "https://api.languagetool.org".to_string() }
    }
}

impl Default for SpellCheckerConfig {
    fn default() -> (r: Self)
        ensures
            !r.enabled,
            r.api@ == "languagetool"@,
            r.language@ == "ru"@,
            r.cache_size == 1000,
            r.api_config.base_url@ == "https://api.languagetool.org"@,
            r.forbidden_contexts.is_empty(),
    {
        SpellCheckerConfig {
            enabled: false,
            api: "languagetool".to_string(),
            language: "ru".to_string(),
            cache_size: 1000,
            api_config: SpellCheckerApiConfig::default(),
            forbidden_contexts: ForbiddenContextsConfig::default(),
        }
    }
}

impl Default for ModulesConfig {
    fn default() -> (r: Self)
        ensures
            r.loaded@.len() == 2,
            r.loaded@[0]@ == "layout_switcher"@,
            r.loaded@[1]@ == "spell_checker"@,
            r.disabled@.len() == 0,
    {
        let mut loaded: Vec<String> = Vec::new();
        loaded.push("layout_switcher".to_string());
        loaded.push("spell_checker".to_string());
        ModulesConfig { loaded, disabled: Vec::new() }
    }
}

impl Default for Config {
    fn default() -> (r: Self)
        ensures
            r.logging.level@ == "info"@,
            r.logging.output@ == "console"@,
            !r.layout_switcher.enabled,
            r.layout_switcher.hotkey@ == "alt+shift"@,
            r.layout_switcher.auto_detect,
            r.layout_switcher.detect_threshold == DETECT_THRESHOLD,
            r.layout_switcher.forbidden_contexts.is_empty(),
            r.layout_switcher.min_autocorrect_len == MIN_AUTOCORRECT_LEN,
            r.layout_switcher.thresholds == standard_thresholds(),
            !r.spell_checker.enabled,
            r.spell_checker.api@ == "languagetool"@,
            r.spell_checker.language@ == "ru"@,
            r.spell_checker.cache_size == 1000,
            r.spell_checker.api_config.base_url@ == "https://api.languagetool.org"@,
            r.spell_checker.forbidden_contexts.is_empty(),
            r.modules.loaded@.len() == 2,
            r.modules.loaded@[0]@ == "layout_switcher"@,
            r.modules.loaded@[1]@ == "spell_checker"@,
            r.modules.disabled@.len() == 0,
    {
        Config {
            logging: LoggingConfig::default(),
            layout_switcher: LayoutSwitcherConfig::default(),
            spell_checker: SpellCheckerConfig::default(),
            modules: ModulesConfig::default(),
        }
    }
}

/// With the default configuration both modules count as loaded.
pub proof fn lemma_default_modules_loaded(config: Config)
    requires
        config.modules.loaded@.len() == 2,
        config.modules.loaded@[0]@ == "layout_switcher"@,
        config.modules.loaded@[1]@ == "spell_checker"@,
        config.modules.disabled@.len() == 0,
    ensures
        lists_name(config.modules.loaded@, "layout_switcher"@),
        lists_name(config.modules.loaded@, "spell_checker"@),
        !lists_name(config.modules.disabled@, "layout_switcher"@),
        !lists_name(config.modules.disabled@, "spell_checker"@),
{
    assert(config.modules.loaded@[0]@ == "layout_switcher"@);
    assert(config.modules.loaded@[1]@ == "spell_checker"@);
}

/// Some entry of `names` reads exactly `name`.
pub open spec fn lists_name(names: Seq<String>, name: Seq<char>) -> bool {
    exists|i: int| 0 <= i < names.len() && #[trigger] names[i]@ == name
}

fn list_contains(names: &Vec<String>, name: &str) -> (r: bool)
    ensures
        r == lists_name(names@, name@),
{
    let mut i: usize = 0;
    while i < names.len()
        invariant
            i <= names.len(),
            forall|k: int| 0 <= k < i ==> #[trigger] names@[k]@ != name@,
        decreases names.len() - i,
    {
        if same_text(names[i].as_str(), name) {
            return true;
        }
        i = i + 1;
    }
    false
}

/// A module runs only when listed as loaded and not listed as disabled.
pub fn is_module_loaded(config: &Config, name: &str) -> (r: bool)
    ensures
        r == (lists_name(config.modules.loaded@, name@) && !lists_name(
            config.modules.disabled@,
            name@,
        )),
{
    list_contains(&config.modules.loaded, name) && !list_contains(&config.modules.disabled, name)
}

} // verus!
