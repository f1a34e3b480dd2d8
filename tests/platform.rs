use smart_switcher::config::{Config, ForbiddenContextsConfig, LayoutSwitcherConfig, SpellCheckerConfig, is_module_loaded};
use smart_switcher::guard::{contains_any, contains_any_folded, is_forbidden, process_base_name, ActiveWindowInfo, WindowInfoCache};
use smart_switcher::input::{backspace_inputs, encode_utf16, unicode_inputs, KeyInput, KEYEVENTF_KEYUP, KEYEVENTF_UNICODE};
use smart_switcher::layouts::{find_layout_by_lang_id, next_layout};
use smart_switcher::platform::Platform;
use smart_switcher::spell::{check_endpoint, should_check, trimmed_text, SpellBuffer, SpellCheckerModule};
use smart_switcher::switcher::LayoutSwitcherModule;
use smart_switcher::events::KeyboardEvent;
use smart_switcher::errors::PlatformError;
use smart_switcher::text::{chars_of, same_text, string_of};

fn strings(v: &[&str]) -> Vec<String> {
    v.iter().map(|s| s.to_string()).collect()
}

fn info(title: &str, process: Option<&str>) -> ActiveWindowInfo {
    ActiveWindowInfo { title: title.to_string(), process_name: process.map(|p| p.to_string()) }
}

#[test]
fn substring_match_ignores_case() {
    assert!(contains_any("Windows PowerShell", &strings(&["powershell"])));
    assert!(contains_any("KeePassXC", &strings(&["", "KEEPASS"])));
    assert!(!contains_any("Notepad", &strings(&["", "keepass"])));
    assert!(!contains_any("Notepad", &strings(&[])));
    assert!(contains_any("ПАРОЛЬ", &strings(&["пароль"])));
    assert!(!contains_any_folded("Notepad", &strings(&["NOTE"])));
    assert!(contains_any_folded("notepad", &strings(&["note"])));
}

#[test]
fn forbidden_by_title_or_process() {
    let cfg = ForbiddenContextsConfig {
        blocked_processes: strings(&["keepass"]),
        blocked_windows: strings(&["password"]),
        blocked_input_types: strings(&["password"]),
    };
    assert!(is_forbidden(&info("Enter Password", None), &cfg));
    assert!(is_forbidden(&info("Vault", Some("KeePass.exe")), &cfg));
    assert!(!is_forbidden(&info("Notes", Some("notepad.exe")), &cfg));
    assert!(!is_forbidden(&info("Notes", None), &ForbiddenContextsConfig::default()));
}

#[test]
fn window_cache_expires() {
    let mut cache = WindowInfoCache::new();
    assert!(cache.lookup(7, 0).is_none());
    cache.store(7, info("A", Some("a.exe")), 1000);
    assert_eq!(cache.lookup(7, 1000).map(|i| i.title.clone()), Some("A".to_string()));
    assert!(cache.lookup(7, 1250).is_some());
    assert!(cache.lookup(7, 1251).is_none());
    assert!(cache.lookup(8, 1000).is_none());
    assert!(cache.lookup(7, 900).is_some());
}

#[test]
fn synthetic_inputs() {
    let b = backspace_inputs(2);
    assert_eq!(b.len(), 4);
    assert_eq!(b[0], KeyInput { vk: 0x08, scan: 0, flags: 0 });
    assert_eq!(b[1], KeyInput { vk: 0x08, scan: 0, flags: KEYEVENTF_KEYUP });
    assert!(backspace_inputs(0).is_empty());
    assert_eq!(encode_utf16("п a"), vec![0x043F, 0x20, 0x61]);
    assert_eq!(encode_utf16("😀"), "😀".encode_utf16().collect::<Vec<u16>>());
    let u = unicode_inputs(&vec![0x043F]);
    assert_eq!(u, vec![
        KeyInput { vk: 0, scan: 0x043F, flags: KEYEVENTF_UNICODE },
        KeyInput { vk: 0, scan: 0x043F, flags: KEYEVENTF_UNICODE | KEYEVENTF_KEYUP },
    ]);
}

#[test]
fn layout_cycling_and_lookup() {
    let layouts = vec![0x0409_0409usize, 0x0419_0419, 0x0422_0422];
    assert_eq!(next_layout(&layouts, 0x0409_0409), Some(0x0419_0419));
    assert_eq!(next_layout(&layouts, 0x0422_0422), Some(0x0409_0409));
    assert_eq!(next_layout(&layouts, 5), Some(0x0409_0409));
    assert_eq!(next_layout(&vec![], 5), None);
    assert_eq!(find_layout_by_lang_id(&layouts, 0x0419), Some(0x0419_0419));
    assert_eq!(find_layout_by_lang_id(&layouts, 0x0407), None);
}

#[test]
fn portable_platform_fails_closed() {
    let p = Platform::new();
    let f = ForbiddenContextsConfig::default();
    assert_eq!(p.get_active_lang_id(), Err(PlatformError::OsQueryFailure));
    assert_eq!(p.is_forbidden_context(&f), Ok(true));
    assert_eq!(smart_switcher::platform::is_forbidden_context(&f), Ok(true));
    assert_eq!(smart_switcher::platform::get_active_lang_id(), Err(PlatformError::OsQueryFailure));
    assert_eq!(p.switch_to_next_layout(&f), Ok(false));
    assert_eq!(p.set_layout_by_lang_id(&f, 0x0419), Ok(false));
    assert_eq!(p.send_backspaces(&f, 3), Ok(false));
    assert_eq!(p.send_unicode_text(&f, "x"), Ok(false));
}

#[test]
fn config_defaults_and_module_loading() {
    let mut cfg = Config::default();
    assert_eq!(cfg.layout_switcher.hotkey, "alt+shift");
    assert_eq!(cfg.layout_switcher.detect_threshold, 3);
    assert_eq!(cfg.layout_switcher.min_autocorrect_len, 5);
    assert!(cfg.layout_switcher.auto_detect);
    assert_eq!(cfg.spell_checker.api_config.base_url, "https://api.languagetool.org");
    assert_eq!(cfg.logging.level, "info");
    assert!(is_module_loaded(&cfg, "layout_switcher"));
    assert!(is_module_loaded(&cfg, "spell_checker"));
    assert!(!is_module_loaded(&cfg, "other"));
    cfg.modules.disabled.push("spell_checker".to_string());
    assert!(!is_module_loaded(&cfg, "spell_checker"));
    let m = LayoutSwitcherModule::new(LayoutSwitcherConfig::default());
    assert_eq!(m.config.hotkey, "alt+shift");
    let s = SpellCheckerModule::new(SpellCheckerConfig::default());
    assert_eq!(s.config.language, "ru");
}

#[test]
fn text_helpers() {
    assert!(same_text("abc", "abc"));
    assert!(!same_text("abc", "abd"));
    assert!(!same_text("abc", "ab"));
    assert_eq!(chars_of("ёж"), vec!['ё', 'ж']);
    assert_eq!(string_of(&vec!['ё', 'ж']), "ёж");
}

fn key(vk: u32, down: bool) -> KeyboardEvent {
    KeyboardEvent { vk_code: vk, scan_code: 0, flags: 0, is_key_down: down }
}

#[test]
fn spell_buffer_commits_trimmed_text() {
    let mut b = SpellBuffer::new();
    for vk in [0x20, 0x48, 0x49, 0x20, 0x20] {
        assert_eq!(b.on_key_event(&key(vk, true), 0x0409), None);
    }
    assert_eq!(b.on_key_event(&key(0x0D, true), 0x0409), Some("hi".to_string()));
    assert_eq!(b.on_key_event(&key(0x0D, true), 0x0409), None);
    b.on_key_event(&key(0x10, true), 0x0419);
    b.on_key_event(&key(0x47, true), 0x0419);
    b.on_key_event(&key(0x10, false), 0x0419);
    b.on_key_event(&key(0x48, true), 0x0419);
    b.on_key_event(&key(0x58, true), 0x0419);
    b.on_key_event(&key(0x08, true), 0x0419);
    assert_eq!(b.on_key_event(&key(0x0D, true), 0x0419), Some("Пр".to_string()));
    assert_eq!(trimmed_text(&vec![' ', 'a', ' ', 'b', ' ']), vec!['a', ' ', 'b']);
}

#[test]
fn spell_endpoint_and_gate() {
    assert_eq!(check_endpoint("https://api.languagetool.org//"), "https://api.languagetool.org/v2/check");
    assert_eq!(check_endpoint("http://x"), "http://x/v2/check");
    let mut cfg = SpellCheckerConfig::default();
    assert!(should_check(Ok(false), &cfg));
    assert!(!should_check(Ok(true), &cfg));
    assert!(!should_check(Err(PlatformError::OsQueryFailure), &cfg));
    cfg.api = "LanguageTool".to_string();
    assert!(should_check(Ok(false), &cfg));
    cfg.api = "other".to_string();
    assert!(!should_check(Ok(false), &cfg));
}

#[test]
fn process_name_from_image_path() {
    assert_eq!(process_base_name("C:\\Program Files\\KeePass\\KeePass.exe"), Some("KeePass.exe".to_string()));
    assert_eq!(process_base_name("/usr/bin/kitty"), Some("kitty".to_string()));
    assert_eq!(process_base_name("notepad.exe"), Some("notepad.exe".to_string()));
    assert_eq!(process_base_name("C:\\dir\\"), None);
    assert_eq!(process_base_name(""), None);
}
