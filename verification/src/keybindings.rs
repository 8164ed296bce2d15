//! The keybindings document: entries that are either a bare app or an OS-wide
//! group, each with its keyboard shortcuts, and the platform-resolved listing
//! handed to the presentation layer.

use vstd::prelude::*;
use crate::platform::OsType;
use crate::platform::Platform;
use crate::platform::os_display_name_view;
use crate::text::str_eq;
use crate::tracker::clone_opt_string;

verus! {

/// A key entry: one string for every platform, or a per-platform pair.
#[derive(Clone, Debug)]
pub enum KeyBinding {
    Simple(String),
    Platform { windows: Option<String>, macos: Option<String> },
}

/// Mathematical model of a key entry.
pub enum KeyBindingView {
    Simple(Seq<char>),
    Platform { windows: Option<Seq<char>>, macos: Option<Seq<char>> },
}

impl View for KeyBinding {
    type V = KeyBindingView;

    open spec fn view(&self) -> KeyBindingView {
        match self {
            KeyBinding::Simple(s) => KeyBindingView::Simple(s@),
            KeyBinding::Platform { windows, macos } => KeyBindingView::Platform {
                windows: windows.deep_view(),
                macos: macos.deep_view(),
            },
        }
    }
}

impl DeepView for KeyBinding {
    type V = KeyBindingView;

    open spec fn deep_view(&self) -> KeyBindingView {
        self.view()
    }
}

/// The key a key entry resolves to on a platform, `None` where the
/// per-platform pair has no entry for it.
pub open spec fn key_for_view(kb: KeyBindingView, is_macos: bool) -> Option<Seq<char>> {
    match kb {
        KeyBindingView::Simple(k) => Some(k),
        KeyBindingView::Platform { windows, macos } => if is_macos {
            macos
        } else {
            windows
        },
    }
}

impl KeyBinding {
    /// The key for the platform, `None` where none is set for it.
    pub fn get_key(&self, is_macos: bool) -> (r: Option<String>)
        ensures
            r.deep_view() == key_for_view(self@, is_macos),
    {
        match self {
            KeyBinding::Simple(key) => Some(key.clone()),
            KeyBinding::Platform { windows, macos } => {
                if is_macos {
                    clone_opt_string(macos)
                } else {
                    clone_opt_string(windows)
                }
            },
        }
    }
}

pub(crate) fn clone_string_vec(v: &Vec<String>) -> (r: Vec<String>)
    ensures
        r@ == v@,
{
    let mut r: Vec<String> = Vec::new();
    let mut i: usize = 0;
    while i < v.len()
        invariant
            i <= v@.len(),
            r@ == v@.take(i as int),
        decreases v@.len() - i,
    {
        r.push(v[i].clone());
        proof {
            assert(r@ =~= v@.take(i + 1));
        }
        i = i + 1;
    }
    proof {
        assert(v@.take(v@.len() as int) =~= v@);
    }
    r
}

/// A bind entry: one string or several alternatives.
#[derive(Clone, Debug)]
pub enum AppBind {
    Single(String),
    Multiple(Vec<String>),
}

/// Mathematical model of a bind entry.
pub enum AppBindView {
    Single(Seq<char>),
    Multiple(Seq<Seq<char>>),
}

impl View for AppBind {
    type V = AppBindView;

    open spec fn view(&self) -> AppBindView {
        match self {
            AppBind::Single(s) => AppBindView::Single(s@),
            AppBind::Multiple(v) => AppBindView::Multiple(v.deep_view()),
        }
    }
}

impl DeepView for AppBind {
    type V = AppBindView;

    open spec fn deep_view(&self) -> AppBindView {
        self.view()
    }
}

/// The bind strings of a bind entry, in order.
pub open spec fn binds_of_view(b: AppBindView) -> Seq<Seq<char>> {
    match b {
        AppBindView::Single(s) => seq![s],
        AppBindView::Multiple(v) => v,
    }
}

impl AppBind {
    /// The bind strings, in order; a single bind becomes a one-element list.
    pub fn get_binds(&self) -> (r: Vec<String>)
        ensures
            r.deep_view() == binds_of_view(self@),
    {
        match self {
            AppBind::Single(s) => {
                let mut v: Vec<String> = Vec::new();
                v.push(s.clone());
                proof {
                    assert(v.deep_view() =~= seq![s@]);
                }
                v
            },
            AppBind::Multiple(v) => clone_string_vec(v),
        }
    }
}

/// One shortcut of an entry: what it does, its key, and its tags.
#[derive(Clone, Debug)]
pub struct Keybinding {
    pub action: String,
    pub key: KeyBinding,
    pub tags: Vec<String>,
}

/// Mathematical model of one shortcut entry.
pub struct KeybindingView {
    pub action: Seq<char>,
    pub key: KeyBindingView,
    pub tags: Seq<Seq<char>>,
}

impl View for Keybinding {
    type V = KeybindingView;

    open spec fn view(&self) -> KeybindingView {
        KeybindingView { action: self.action@, key: self.key@, tags: self.tags.deep_view() }
    }
}

impl DeepView for Keybinding {
    type V = KeybindingView;

    open spec fn deep_view(&self) -> KeybindingView {
        self.view()
    }
}

/// One entry of the keybindings document: a named app or an OS-wide group,
/// with the strings it is matched by and its shortcuts.
#[derive(Clone, Debug)]
pub struct AppConfig {
    pub icon: Option<String>,
    /// The app's name; not needed where an OS tag is given.
    pub name: Option<String>,
    pub bind: Option<AppBind>,
    /// OS tag; such an entry stands for the OS itself and is available on it
    /// alone.
    pub os: Option<OsType>,
    pub keybindings: Vec<Keybinding>,
}

/// Mathematical model of one document entry.
pub struct AppConfigView {
    pub icon: Option<Seq<char>>,
    pub name: Option<Seq<char>>,
    pub bind: Option<AppBindView>,
    pub os: Option<OsType>,
    pub keybindings: Seq<KeybindingView>,
}

impl View for AppConfig {
    type V = AppConfigView;

    open spec fn view(&self) -> AppConfigView {
        AppConfigView {
            icon: self.icon.deep_view(),
            name: self.name.deep_view(),
            bind: match &self.bind {
                Some(b) => Some(b@),
                None => None,
            },
            os: self.os,
            keybindings: self.keybindings.deep_view(),
        }
    }
}

impl DeepView for AppConfig {
    type V = AppConfigView;

    open spec fn deep_view(&self) -> AppConfigView {
        self.view()
    }
}

/// The icon shown where an entry sets none: a pushpin.
pub open spec fn default_icon_view() -> Seq<char> {
    "\u{1F4CC}"@
}

/// The icon an entry is shown with.
pub open spec fn icon_view(a: AppConfigView) -> Seq<char> {
    match a.icon {
        Some(i) => i,
        None => default_icon_view(),
    }
}

/// The display name of an entry: the OS name where an OS tag is given, else
/// the entry's own name, else empty.
pub open spec fn name_view(a: AppConfigView) -> Seq<char> {
    match a.os {
        Some(os) => os_display_name_view(os),
        None => match a.name {
            Some(n) => n,
            None => Seq::<char>::empty(),
        },
    }
}

/// The strings an entry is matched by: its binds, or its display name where
/// no bind is set.
pub open spec fn binds_view(a: AppConfigView) -> Seq<Seq<char>> {
    match a.bind {
        Some(b) => binds_of_view(b),
        None => seq![name_view(a)],
    }
}

/// Whether an entry is available on a platform: an OS tag restricts the entry
/// to that OS, an untagged entry is available everywhere.
pub open spec fn available_on(a: AppConfigView, current: Platform) -> bool {
    match a.os {
        Some(os) => os.spec_is_current_platform(current),
        None => true,
    }
}

impl AppConfig {
    /// The icon, or the default one where none is set.
    pub fn get_icon(&self) -> (r: String)
        ensures
            r@ == icon_view(self@),
    {
        match &self.icon {
            Some(i) => i.clone(),
            None => String::from_str("\u{1F4CC}"),
        }
    }

    /// The display name: the OS name where an OS tag is given, else the
    /// entry's own name, else empty.
    pub fn get_name(&self) -> (r: String)
        ensures
            r@ == name_view(self@),
    {
        match &self.os {
            Some(os) => os.display_name().to_owned(),
            None => match &self.name {
                Some(n) => n.clone(),
                None => String::new(),
            },
        }
    }

    /// The strings this entry is matched by.
    pub fn get_binds(&self) -> (r: Vec<String>)
        ensures
            r.deep_view() == binds_view(self@),
    {
        match &self.bind {
            Some(bind) => bind.get_binds(),
            None => {
                let mut v: Vec<String> = Vec::new();
                v.push(self.get_name());
                proof {
                    assert(v.deep_view() =~= seq![name_view(self@)]);
                }
                v
            },
        }
    }

    /// Whether this entry is available on the platform.
    pub fn is_available(&self, current: Platform) -> (r: bool)
        ensures
            r == available_on(self@, current),
    {
        match &self.os {
            Some(os) => os.is_current_platform(current),
            None => true,
        }
    }
}

/// A platform-resolved shortcut, ready for the presentation layer.
#[derive(Clone, Debug)]
pub struct NormalizedShortcut {
    pub app: String,
    pub icon: String,
    pub action: String,
    pub key: String,
    pub tags: Vec<String>,
}

/// Mathematical model of a resolved shortcut.
pub struct NormalizedShortcutView {
    pub app: Seq<char>,
    pub icon: Seq<char>,
    pub action: Seq<char>,
    pub key: Seq<char>,
    pub tags: Seq<Seq<char>>,
}

impl View for NormalizedShortcut {
    type V = NormalizedShortcutView;

    open spec fn view(&self) -> NormalizedShortcutView {
        NormalizedShortcutView {
            app: self.app@,
            icon: self.icon@,
            action: self.action@,
            key: self.key@,
            tags: self.tags.deep_view(),
        }
    }
}

impl DeepView for NormalizedShortcut {
    type V = NormalizedShortcutView;

    open spec fn deep_view(&self) -> NormalizedShortcutView {
        self.view()
    }
}

/// The sentinel key under which a shortcut is left out of the listing.
pub open spec fn skip_key_view() -> Seq<char> {
    "-"@
}

/// The shortcuts the first `n` keybindings of one entry contribute: each one
/// whose key resolves on the platform and is not the sentinel `"-"`.
pub open spec fn entry_shortcuts_view(
    a: AppConfigView,
    kbs: Seq<KeybindingView>,
    is_macos: bool,
) -> Seq<NormalizedShortcutView>
    decreases kbs.len(),
{
    if kbs.len() == 0 {
        Seq::empty()
    } else {
        entry_shortcuts_view(a, kbs.drop_last(), is_macos) + (match key_for_view(
            kbs.last().key,
            is_macos,
        ) {
            Some(k) => if k != skip_key_view() {
                seq![
                    NormalizedShortcutView {
                        app: name_view(a),
                        icon: icon_view(a),
                        action: kbs.last().action,
                        key: k,
                        tags: kbs.last().tags,
                    },
                ]
            } else {
                Seq::empty()
            },
            None => Seq::empty(),
        })
    }
}

/// The platform-resolved listing: available entries in document order, each
/// contributing its resolvable, non-sentinel shortcuts in order.
pub open spec fn shortcuts_view(apps: Seq<AppConfigView>, current: Platform) -> Seq<
    NormalizedShortcutView,
>
    decreases apps.len(),
{
    if apps.len() == 0 {
        Seq::empty()
    } else {
        shortcuts_view(apps.drop_last(), current) + (if available_on(apps.last(), current) {
            entry_shortcuts_view(apps.last(), apps.last().keybindings, current.spec_is_macos())
        } else {
            Seq::empty()
        })
    }
}

/// The shortcut listing for the platform: entries available on it, in
/// document order, each shortcut under its platform's key, those keyed with
/// the sentinel `"-"` left out.
pub fn get_shortcuts(config: &Vec<AppConfig>, current: Platform) -> (r: Vec<NormalizedShortcut>)
    ensures
        r.deep_view() == shortcuts_view(config.deep_view(), current),
{
    let is_macos = current.is_macos();
    let mut r: Vec<NormalizedShortcut> = Vec::new();
    let mut i: usize = 0;
    while i < config.len()
        invariant
            i <= config@.len(),
            is_macos == current.spec_is_macos(),
            r.deep_view() == shortcuts_view(config.deep_view().take(i as int), current),
        decreases config@.len() - i,
    {
        let app = &config[i];
        proof {
            assert(config.deep_view().take(i + 1).drop_last() =~= config.deep_view().take(i as int));
            assert(config.deep_view().take(i + 1).last() == app@);
        }
        if app.is_available(current) {
            let app_name = app.get_name();
            let app_icon = app.get_icon();
            let mut j: usize = 0;
            while j < app.keybindings.len()
                invariant
                    j <= app@.keybindings.len(),
                    app@ == config.deep_view()[i as int],
                    i < config@.len(),
                    is_macos == current.spec_is_macos(),
                    available_on(app@, current),
                    app_name@ == name_view(app@),
                    app_icon@ == icon_view(app@),
                    r.deep_view() == shortcuts_view(config.deep_view().take(i as int), current)
                        + entry_shortcuts_view(app@, app@.keybindings.take(j as int), is_macos),
                decreases app@.keybindings.len() - j,
            {
                let kb = &app.keybindings[j];
                proof {
                    assert(app@.keybindings.take(j + 1).drop_last() =~= app@.keybindings.take(
                        j as int,
                    ));
                    assert(app@.keybindings.take(j + 1).last() == kb@);
                }
                match kb.key.get_key(is_macos) {
                    Some(key) => {
                        if !str_eq(key.as_str(), "-") {
                            let ns = NormalizedShortcut {
                                app: app_name.clone(),
                                icon: app_icon.clone(),
                                action: kb.action.clone(),
                                key,
                                tags: clone_string_vec(&kb.tags),
                            };
                            let ghost prev = r.deep_view();
                            proof {
                                assert(ns@.tags =~= kb@.tags);
                            }
                            r.push(ns);
                            proof {
                                assert(r.deep_view() =~= prev.push(ns@));
                                assert(prev.push(ns@) =~= prev + seq![ns@]);
                            }
                        }
                    },
                    None => {},
                }
                j = j + 1;
            }
            proof {
                assert(app@.keybindings.take(app@.keybindings.len() as int) =~= app@.keybindings);
            }
        }
        i = i + 1;
    }
    proof {
        assert(config.deep_view().take(config@.len() as int) =~= config.deep_view());
    }
    r
}

} // verus!
