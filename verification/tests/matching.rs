use shortcut_finder::keybindings::AppBind;
use shortcut_finder::keybindings::AppConfig;
use shortcut_finder::matcher::get_matched_apps;
use shortcut_finder::matcher::match_apps;
use shortcut_finder::matcher::match_apps_substring;
use shortcut_finder::matcher::AppMatchRule;
use shortcut_finder::matcher::NormalizedRule;
use shortcut_finder::matcher::RuleOverride;
use shortcut_finder::platform::Platform;
use shortcut_finder::tracker::ActiveWindowInfo;

fn snapshot(process: Option<&str>, window: Option<&str>) -> ActiveWindowInfo {
    ActiveWindowInfo {
        process: process.map(|s| s.to_string()),
        window: window.map(|s| s.to_string()),
    }
}

fn entry(name: &str, binds: Option<Vec<&str>>) -> AppConfig {
    AppConfig {
        icon: None,
        name: Some(name.to_string()),
        bind: binds.map(|b| AppBind::Multiple(b.into_iter().map(|s| s.to_string()).collect())),
        os: None,
        keybindings: vec![],
    }
}

#[test]
fn exact_match_on_second_bind() {
    let info = snapshot(Some("Code"), None);
    let apps = vec![entry("VS Code", Some(vec!["VS Code", "Code"]))];
    let matched = match_apps(&info, &apps);
    assert_eq!(matched.len(), 1);
    assert_eq!(matched[0].name, "VS Code");
}

#[test]
fn exact_match_rejects_longer_name() {
    let info = snapshot(Some("Codex"), None);
    let apps = vec![entry("VS Code", Some(vec!["VS Code", "Code"]))];
    let matched = match_apps(&info, &apps);
    assert!(matched.is_empty());
}

#[test]
fn exact_match_is_case_insensitive() {
    let info = snapshot(Some("CHROME"), None);
    let apps = vec![entry("Chrome", Some(vec!["chrome"]))];
    let matched = match_apps(&info, &apps);
    assert_eq!(matched.len(), 1);
}

#[test]
fn exact_match_on_window_title() {
    let info = snapshot(None, Some("my terminal"));
    let apps = vec![entry("Terminal", Some(vec!["My Terminal"]))];
    let matched = match_apps(&info, &apps);
    assert_eq!(matched.len(), 1);
}

#[test]
fn exact_match_uses_name_where_no_bind() {
    let info = snapshot(Some("firefox"), None);
    let apps = vec![entry("Firefox", None)];
    let matched = match_apps(&info, &apps);
    assert_eq!(matched.len(), 1);
    assert_eq!(matched[0].icon, "\u{1F4CC}");
}

#[test]
fn match_keeps_document_order() {
    let info = snapshot(Some("code"), Some("Code"));
    let apps = vec![
        entry("B", Some(vec!["code"])),
        entry("A", Some(vec!["nothing"])),
        entry("C", Some(vec!["Code"])),
    ];
    let matched = match_apps(&info, &apps);
    let names: Vec<&str> = matched.iter().map(|m| m.name.as_str()).collect();
    assert_eq!(names, vec!["B", "C"]);
}

#[test]
fn no_snapshot_matches_nothing() {
    let apps = vec![entry("Chrome", None)];
    let matched = get_matched_apps(None, &apps);
    assert!(matched.is_empty());
}

#[test]
fn substring_match_ignores_case() {
    let info = snapshot(Some("chrome"), Some("Google Chrome - Tab"));
    let rules = vec![AppMatchRule::Detailed {
        display: "Chrome".to_string(),
        process: Some("Chrome".to_string()),
        window: None,
        windows_override: None,
        macos_override: None,
    }];
    let matched = match_apps_substring(&info, &rules, Platform::Linux);
    assert_eq!(matched.len(), 1);
    assert_eq!(matched[0].display, "Chrome");
}

#[test]
fn substring_match_on_window_fragment() {
    let info = snapshot(Some("chrome"), Some("Google Chrome - Tab"));
    let rules = vec![AppMatchRule::Detailed {
        display: "Tabs".to_string(),
        process: None,
        window: Some("google chrome".to_string()),
        windows_override: None,
        macos_override: None,
    }];
    let matched = match_apps_substring(&info, &rules, Platform::Windows);
    assert_eq!(matched.len(), 1);
}

#[test]
fn substring_mismatch_stays_out() {
    let info = snapshot(Some("chrome"), Some("Google Chrome - Tab"));
    let rules = vec![AppMatchRule::Detailed {
        display: "Editor".to_string(),
        process: Some("emacs".to_string()),
        window: Some("scratch".to_string()),
        windows_override: None,
        macos_override: None,
    }];
    let matched = match_apps_substring(&info, &rules, Platform::Linux);
    assert!(matched.is_empty());
}

#[test]
fn fieldless_rule_never_matches() {
    let info = snapshot(Some("anything"), Some("anything"));
    let rules = vec![AppMatchRule::Detailed {
        display: "Empty".to_string(),
        process: None,
        window: None,
        windows_override: None,
        macos_override: None,
    }];
    let matched = match_apps_substring(&info, &rules, Platform::Linux);
    assert!(matched.is_empty());
}

#[test]
fn bare_rule_serves_as_both_fragments() {
    let info = snapshot(None, Some("a slack window"));
    let rules = vec![AppMatchRule::Bare("Slack".to_string())];
    let matched = match_apps_substring(&info, &rules, Platform::MacOS);
    assert_eq!(matched.len(), 1);
    assert_eq!(matched[0].display, "Slack");
    assert_eq!(matched[0].process.as_deref(), Some("Slack"));
    assert_eq!(matched[0].window.as_deref(), Some("Slack"));
}

#[test]
fn normalize_applies_platform_override() {
    let rule = AppMatchRule::Detailed {
        display: "Files".to_string(),
        process: Some("nautilus".to_string()),
        window: None,
        windows_override: Some(RuleOverride {
            process: Some("explorer".to_string()),
            window: None,
        }),
        macos_override: Some(RuleOverride {
            process: Some("Finder".to_string()),
            window: Some("Finder".to_string()),
        }),
    };
    let on_windows = rule.normalize(Platform::Windows);
    assert_eq!(on_windows.process.as_deref(), Some("explorer"));
    assert_eq!(on_windows.window, None);
    let on_macos = rule.normalize(Platform::MacOS);
    assert_eq!(on_macos.process.as_deref(), Some("Finder"));
    assert_eq!(on_macos.window.as_deref(), Some("Finder"));
    let on_linux = rule.normalize(Platform::Linux);
    assert_eq!(on_linux.process.as_deref(), Some("nautilus"));
}

fn rules_equal(a: &NormalizedRule, b: &NormalizedRule) -> bool {
    a.display == b.display && a.process == b.process && a.window == b.window
}

#[test]
fn normalize_twice_is_idempotent() {
    let rules = vec![
        AppMatchRule::Bare("Slack".to_string()),
        AppMatchRule::Detailed {
            display: "Files".to_string(),
            process: Some("nautilus".to_string()),
            window: Some("Files".to_string()),
            windows_override: Some(RuleOverride {
                process: Some("explorer".to_string()),
                window: None,
            }),
            macos_override: None,
        },
    ];
    for platform in [Platform::Windows, Platform::MacOS, Platform::Linux] {
        for rule in &rules {
            let once = rule.normalize(platform);
            let twice = once.as_rule().normalize(platform);
            assert!(rules_equal(&once, &twice));
        }
    }
}
