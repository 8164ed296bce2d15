//! The settings document: theme choice, global hotkey, and how long the
//! overlay stays up, with their platform-appropriate defaults.

use vstd::prelude::*;
use crate::platform::Platform;
use crate::text::str_eq;

verus! {

/// The theme the UI follows.
#[derive(Clone, Copy, Debug, PartialEq, Eq, Structural)]
pub enum ThemeSetting {
    System,
    Light,
    Dark,
}

impl Default for ThemeSetting {
    fn default() -> (r: Self)
        ensures
            r is System,
    {
        ThemeSetting::System
    }
}

/// The default hotkey for a platform: the command key where the platform
/// has one, control otherwise.
pub open spec fn default_hotkey_view(current: Platform) -> Seq<char> {
    if current is MacOS {
        "Command+Shift+K"@
    } else {
        "Ctrl+Shift+K"@
    }
}

/// The platform-appropriate default hotkey.
pub fn default_hotkey(current: Platform) -> (r: String)
    ensures
        r@ == default_hotkey_view(current),
{
    if current.is_macos() {
        String::from_str("Command+Shift+K")
    } else {
        String::from_str("Ctrl+Shift+K")
    }
}

/// The default overlay duration, in seconds.
pub fn default_overlay_duration() -> (r: u32)
    ensures
        r == 5,
{
    5
}

/// The settings document.
#[derive(Clone, Debug)]
pub struct AppSettings {
    pub theme: ThemeSetting,
    /// The hotkey that toggles the main window, e.g. `"Ctrl+Shift+K"`.
    pub hotkey: String,
    /// How long the overlay stays up, in seconds.
    pub overlay_duration: u32,
}

/// Mathematical model of the settings document.
pub struct AppSettingsView {
    pub theme: ThemeSetting,
    pub hotkey: Seq<char>,
    pub overlay_duration: u32,
}

impl View for AppSettings {
    type V = AppSettingsView;

    open spec fn view(&self) -> AppSettingsView {
        AppSettingsView {
            theme: self.theme,
            hotkey: self.hotkey@,
            overlay_duration: self.overlay_duration,
        }
    }
}

impl DeepView for AppSettings {
    type V = AppSettingsView;

    open spec fn deep_view(&self) -> AppSettingsView {
        self.view()
    }
}

impl AppSettings {
    /// The settings used where no stored document can be read: system theme,
    /// the platform's default hotkey, and a five-second overlay.
    pub fn default_for_platform(current: Platform) -> (s: Self)
        ensures
            s.theme is System,
            s.hotkey@ == default_hotkey_view(current),
            s.overlay_duration == 5,
    {
        AppSettings {
            theme: ThemeSetting::default(),
            hotkey: default_hotkey(current),
            overlay_duration: default_overlay_duration(),
        }
    }

    /// A copy equal to `self`.
    pub fn duplicate(&self) -> (r: Self)
        ensures
            r == *self,
    {
        AppSettings {
            theme: self.theme,
            hotkey: self.hotkey.clone(),
            overlay_duration: self.overlay_duration,
        }
    }
}

/// The name a theme setting is reported under.
pub open spec fn theme_name_view(t: ThemeSetting) -> Seq<char> {
    match t {
        ThemeSetting::System => "system"@,
        ThemeSetting::Light => "light"@,
        ThemeSetting::Dark => "dark"@,
    }
}

/// The current theme setting as its name: `"system"`, `"light"` or `"dark"`.
pub fn get_theme_setting(settings: &AppSettings) -> (r: String)
    ensures
        r@ == theme_name_view(settings.theme),
{
    match settings.theme {
        ThemeSetting::System => String::from_str("system"),
        ThemeSetting::Light => String::from_str("light"),
        ThemeSetting::Dark => String::from_str("dark"),
    }
}

/// The theme setting a name stands for; any name but `"light"` and `"dark"`
/// falls back to the system theme.
pub open spec fn theme_from_name_view(name: Seq<char>) -> ThemeSetting {
    if name == "light"@ {
        ThemeSetting::Light
    } else if name == "dark"@ {
        ThemeSetting::Dark
    } else {
        ThemeSetting::System
    }
}

/// Replaces the theme in the settings; the hotkey and the duration stay.
pub fn set_theme_setting(settings: &mut AppSettings, theme: &str)
    ensures
        final(settings).theme == theme_from_name_view(theme@),
        final(settings).hotkey == old(settings).hotkey,
        final(settings).overlay_duration == old(settings).overlay_duration,
{
    settings.theme = if str_eq(theme, "light") {
        ThemeSetting::Light
    } else if str_eq(theme, "dark") {
        ThemeSetting::Dark
    } else {
        ThemeSetting::System
    };
}

} // verus!
