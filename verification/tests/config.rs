use shortcut_finder::cache::ConfigCache;
use shortcut_finder::keybindings::get_shortcuts;
use shortcut_finder::keybindings::AppBind;
use shortcut_finder::keybindings::AppConfig;
use shortcut_finder::keybindings::KeyBinding;
use shortcut_finder::keybindings::Keybinding;
use shortcut_finder::paths::get_config_dir;
use shortcut_finder::paths::get_keybindings_config_path;
use shortcut_finder::paths::get_settings_path;
use shortcut_finder::paths::join_path;
use shortcut_finder::platform::get_platform;
use shortcut_finder::platform::OsType;
use shortcut_finder::platform::Platform;
use shortcut_finder::settings::default_hotkey;
use shortcut_finder::settings::default_overlay_duration;
use shortcut_finder::settings::get_theme_setting;
use shortcut_finder::settings::set_theme_setting;
use shortcut_finder::settings::AppSettings;
use shortcut_finder::settings::ThemeSetting;
use shortcut_finder::text::strip_exe_suffix;

#[test]
fn fresh_cache_serves_without_reread() {
    let mut cache: ConfigCache<String> = ConfigCache::new();
    assert!(cache.lookup(Some(10)).is_none());
    let persist = cache.finish_load(Some("parsed".to_string()), "default".to_string(), Some(10));
    assert!(!persist);
    // Same mtime: the cached document is served, identically, twice.
    assert_eq!(cache.lookup(Some(10)).unwrap().as_str(), "parsed");
    assert_eq!(cache.lookup(Some(10)).unwrap().as_str(), "parsed");
}

#[test]
fn changed_mtime_invalidates() {
    let mut cache: ConfigCache<String> = ConfigCache::new();
    cache.finish_load(Some("old".to_string()), "default".to_string(), Some(10));
    assert!(cache.lookup(Some(11)).is_none());
    let persist = cache.finish_load(Some("new".to_string()), "default".to_string(), Some(11));
    assert!(!persist);
    assert_eq!(cache.lookup(Some(11)).unwrap().as_str(), "new");
}

#[test]
fn absent_mtime_never_serves_the_cache() {
    let mut cache: ConfigCache<String> = ConfigCache::new();
    cache.finish_load(Some("doc".to_string()), "default".to_string(), None);
    assert!(cache.lookup(None).is_none());
}

#[test]
fn unreadable_file_falls_back_to_default_and_persists_it() {
    let mut cache: ConfigCache<String> = ConfigCache::new();
    let persist = cache.finish_load(None, "default".to_string(), Some(3));
    assert!(persist);
    assert_eq!(cache.lookup(Some(3)).unwrap().as_str(), "default");
}

#[test]
fn save_refreshes_the_cache() {
    let mut cache: ConfigCache<String> = ConfigCache::new();
    cache.adopt("written".to_string(), Some(20));
    assert_eq!(cache.lookup(Some(20)).unwrap().as_str(), "written");
    assert!(cache.lookup(Some(21)).is_none());
}

#[test]
fn default_settings_follow_the_platform() {
    let mac = AppSettings::default_for_platform(Platform::MacOS);
    assert_eq!(mac.hotkey, "Command+Shift+K");
    let win = AppSettings::default_for_platform(Platform::Windows);
    assert_eq!(win.hotkey, "Ctrl+Shift+K");
    let linux = AppSettings::default_for_platform(Platform::Linux);
    assert_eq!(linux.hotkey, "Ctrl+Shift+K");
    assert_eq!(linux.overlay_duration, 5);
    assert_eq!(linux.theme, ThemeSetting::System);
    assert_eq!(default_hotkey(Platform::MacOS), "Command+Shift+K");
    assert_eq!(default_overlay_duration(), 5);
}

#[test]
fn theme_setting_round_trip() {
    let mut settings = AppSettings::default_for_platform(Platform::Linux);
    assert_eq!(get_theme_setting(&settings), "system");
    set_theme_setting(&mut settings, "dark");
    assert_eq!(settings.theme, ThemeSetting::Dark);
    assert_eq!(get_theme_setting(&settings), "dark");
    set_theme_setting(&mut settings, "light");
    assert_eq!(get_theme_setting(&settings), "light");
    set_theme_setting(&mut settings, "anything-else");
    assert_eq!(get_theme_setting(&settings), "system");
    assert_eq!(settings.hotkey, "Ctrl+Shift+K");
    assert_eq!(settings.overlay_duration, 5);
}

#[test]
fn platform_identifiers() {
    assert_eq!(get_platform(Platform::MacOS), "darwin");
    assert_eq!(get_platform(Platform::Windows), "win32");
    assert_eq!(get_platform(Platform::Linux), "linux");
}

#[test]
fn os_tags() {
    assert_eq!(OsType::Windows.display_name(), "Windows");
    assert_eq!(OsType::MacOS.display_name(), "macOS");
    assert!(OsType::Windows.is_current_platform(Platform::Windows));
    assert!(!OsType::Windows.is_current_platform(Platform::MacOS));
    assert!(!OsType::MacOS.is_current_platform(Platform::Linux));
}

#[test]
fn paths_are_namespaced() {
    assert_eq!(join_path("base", "file.json"), "base/file.json");
    if let Some(dir) = get_config_dir() {
        assert!(dir.ends_with("/shortcut-finder"));
    }
    if let Some(p) = get_settings_path() {
        assert!(p.ends_with("/shortcut-finder/settings.json"));
    }
    if let Some(p) = get_keybindings_config_path() {
        assert!(p.ends_with("/shortcut-finder/keybindings.json"));
    }
}

#[test]
fn executable_suffixes_are_stripped_repeatedly() {
    assert_eq!(strip_exe_suffix("notepad.exe"), "notepad");
    assert_eq!(strip_exe_suffix("APP.EXE"), "APP");
    assert_eq!(strip_exe_suffix("tool.exe.exe"), "tool");
    // Lower-case suffixes are stripped first, so a lower-case one under an
    // upper-case one survives.
    assert_eq!(strip_exe_suffix("odd.exe.EXE"), "odd.exe");
    assert_eq!(strip_exe_suffix("plain"), "plain");
}

fn kb(action: &str, key: KeyBinding) -> Keybinding {
    Keybinding { action: action.to_string(), key, tags: vec!["tag".to_string()] }
}

#[test]
fn shortcuts_resolve_per_platform_and_skip_sentinel() {
    let config = vec![
        AppConfig {
            icon: Some("\u{1F310}".to_string()),
            name: Some("Browser".to_string()),
            bind: Some(AppBind::Single("browser".to_string())),
            os: None,
            keybindings: vec![
                kb("New tab", KeyBinding::Simple("Ctrl+T".to_string())),
                kb(
                    "Quit",
                    KeyBinding::Platform {
                        windows: Some("Alt+F4".to_string()),
                        macos: Some("Command+Q".to_string()),
                    },
                ),
                kb("Hidden", KeyBinding::Simple("-".to_string())),
                kb("No key here", KeyBinding::Platform { windows: None, macos: Some("X".to_string()) }),
            ],
        },
        AppConfig {
            icon: None,
            name: None,
            bind: None,
            os: Some(OsType::MacOS),
            keybindings: vec![kb("Spotlight", KeyBinding::Simple("Command+Space".to_string()))],
        },
    ];

    let on_windows = get_shortcuts(&config, Platform::Windows);
    let pairs: Vec<(&str, &str)> = on_windows
        .iter()
        .map(|s| (s.action.as_str(), s.key.as_str()))
        .collect();
    assert_eq!(pairs, vec![("New tab", "Ctrl+T"), ("Quit", "Alt+F4")]);
    assert_eq!(on_windows[0].app, "Browser");
    assert_eq!(on_windows[0].icon, "\u{1F310}");
    assert_eq!(on_windows[0].tags, vec!["tag".to_string()]);

    let on_macos = get_shortcuts(&config, Platform::MacOS);
    let pairs: Vec<(&str, &str)> = on_macos
        .iter()
        .map(|s| (s.action.as_str(), s.key.as_str()))
        .collect();
    assert_eq!(
        pairs,
        vec![
            ("New tab", "Ctrl+T"),
            ("Quit", "Command+Q"),
            ("No key here", "X"),
            ("Spotlight", "Command+Space"),
        ]
    );
    // The OS-wide entry carries the OS display name and the default icon.
    assert_eq!(on_macos[3].app, "macOS");
    assert_eq!(on_macos[3].icon, "\u{1F4CC}");
}

#[test]
fn entry_getters() {
    let os_entry = AppConfig {
        icon: None,
        name: None,
        bind: None,
        os: Some(OsType::Windows),
        keybindings: vec![],
    };
    assert_eq!(os_entry.get_name(), "Windows");
    assert_eq!(os_entry.get_binds(), vec!["Windows".to_string()]);
    assert!(os_entry.is_available(Platform::Windows));
    assert!(!os_entry.is_available(Platform::Linux));

    let named = AppConfig {
        icon: None,
        name: Some("Editor".to_string()),
        bind: Some(AppBind::Multiple(vec!["ed".to_string(), "editor".to_string()])),
        os: None,
        keybindings: vec![],
    };
    assert_eq!(named.get_name(), "Editor");
    assert_eq!(named.get_binds(), vec!["ed".to_string(), "editor".to_string()]);
    assert!(named.is_available(Platform::MacOS));

    let nameless = AppConfig { icon: None, name: None, bind: None, os: None, keybindings: vec![] };
    assert_eq!(nameless.get_name(), "");

    let single = AppBind::Single("one".to_string());
    assert_eq!(single.get_binds(), vec!["one".to_string()]);

    let simple = KeyBinding::Simple("Ctrl+C".to_string());
    assert_eq!(simple.get_key(true).as_deref(), Some("Ctrl+C"));
    assert_eq!(simple.get_key(false).as_deref(), Some("Ctrl+C"));
    let pair = KeyBinding::Platform { windows: Some("Ctrl+C".to_string()), macos: None };
    assert_eq!(pair.get_key(false).as_deref(), Some("Ctrl+C"));
    assert_eq!(pair.get_key(true), None);
}
