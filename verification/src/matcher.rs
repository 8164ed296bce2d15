//! Matching a window snapshot against app rules. Two policies exist across
//! the product's evolution and both are kept, each under its own function:
//! the deployed one compares bind strings for case-insensitive equality (any
//! one of an entry's binds suffices), the earlier one tests the rule's
//! process and window fragments as case-insensitive substrings. Both are pure
//! and keep the input rule order in their result.

use vstd::prelude::*;
use crate::keybindings::AppConfig;
use crate::keybindings::AppConfigView;
use crate::keybindings::binds_view;
use crate::keybindings::icon_view;
use crate::keybindings::name_view;
use crate::platform::Platform;
use crate::text::contains_seq;
use crate::text::contains_str;
use crate::text::lower_of;
use crate::text::lowercase;
use crate::tracker::ActiveWindowInfo;
use crate::tracker::SnapshotView;
use crate::tracker::clone_opt_string;

verus! {

/// A matched entry as handed to the presentation layer.
#[derive(Clone, Debug)]
pub struct NormalizedApp {
    pub name: String,
    pub icon: String,
}

/// Mathematical model of a matched entry.
pub struct NormalizedAppView {
    pub name: Seq<char>,
    pub icon: Seq<char>,
}

impl View for NormalizedApp {
    type V = NormalizedAppView;

    open spec fn view(&self) -> NormalizedAppView {
        NormalizedAppView { name: self.name@, icon: self.icon@ }
    }
}

impl DeepView for NormalizedApp {
    type V = NormalizedAppView;

    open spec fn deep_view(&self) -> NormalizedAppView {
        self.view()
    }
}

/// One bind string matches the snapshot: it equals the process name or the
/// window title, comparing under the lowercase view.
pub open spec fn bind_matches(info: SnapshotView, bind: Seq<char>) -> bool {
    ||| (info.process matches Some(p) && lower_of(p) == lower_of(bind))
    ||| (info.window matches Some(w) && lower_of(w) == lower_of(bind))
}

/// The entry matches the snapshot: some bind string of it does.
pub open spec fn app_matches(info: SnapshotView, a: AppConfigView) -> bool {
    exists|k: int| 0 <= k < binds_view(a).len() && bind_matches(info, binds_view(a)[k])
}

pub open spec fn normalized_app_view(a: AppConfigView) -> NormalizedAppView {
    NormalizedAppView { name: name_view(a), icon: icon_view(a) }
}

/// The matching entries, in document order, each as its name and icon.
pub open spec fn match_apps_view(info: SnapshotView, apps: Seq<AppConfigView>) -> Seq<
    NormalizedAppView,
>
    decreases apps.len(),
{
    if apps.len() == 0 {
        Seq::empty()
    } else {
        match_apps_view(info, apps.drop_last()) + (if app_matches(info, apps.last()) {
            seq![normalized_app_view(apps.last())]
        } else {
            Seq::empty()
        })
    }
}

fn bind_matches_exec(info: &ActiveWindowInfo, bind: &String) -> (r: bool)
    ensures
        r == bind_matches(info@, bind@),
{
    let bind_lower = lowercase(bind.as_str());
    let mut m = false;
    match &info.process {
        Some(p) => {
            if lowercase(p.as_str()) == bind_lower {
                m = true;
            }
        },
        None => {},
    }
    if !m {
        match &info.window {
            Some(w) => {
                if lowercase(w.as_str()) == bind_lower {
                    m = true;
                }
            },
            None => {},
        }
    }
    m
}

/// The entries matching the snapshot, under the deployed policy:
/// case-insensitive full equality of any one bind string with the process
/// name or the window title. The result keeps document order.
pub fn match_apps(info: &ActiveWindowInfo, apps: &Vec<AppConfig>) -> (r: Vec<NormalizedApp>)
    ensures
        r.deep_view() == match_apps_view(info@, apps.deep_view()),
{
    let mut r: Vec<NormalizedApp> = Vec::new();
    let mut i: usize = 0;
    while i < apps.len()
        invariant
            i <= apps@.len(),
            r.deep_view() == match_apps_view(info@, apps.deep_view().take(i as int)),
        decreases apps@.len() - i,
    {
        let app = &apps[i];
        proof {
            assert(apps.deep_view().take(i + 1).drop_last() =~= apps.deep_view().take(i as int));
            assert(apps.deep_view().take(i + 1).last() == app@);
        }
        let binds = app.get_binds();
        let mut matched = false;
        let mut k: usize = 0;
        while k < binds.len()
            invariant
                k <= binds@.len(),
                binds.deep_view() == binds_view(app@),
                matched == exists|t: int|
                    0 <= t < k && bind_matches(info@, binds_view(app@)[t]),
            decreases binds@.len() - k,
        {
            let ghost was_matched = matched;
            let here = bind_matches_exec(info, &binds[k]);
            if here {
                matched = true;
            }
            proof {
                assert(binds.deep_view()[k as int] == binds_view(app@)[k as int]);
                if here {
                    assert(bind_matches(info@, binds_view(app@)[k as int]));
                } else if !was_matched {
                    assert forall|t: int| 0 <= t < k + 1 implies !bind_matches(
                        info@,
                        binds_view(app@)[t],
                    ) by {
                        if t < k {
                            assert(!(exists|u: int|
                                0 <= u < k && bind_matches(info@, binds_view(app@)[u])));
                        }
                    }
                }
            }
            k = k + 1;
        }
        proof {
            assert(matched == app_matches(info@, app@));
        }
        if matched {
            let na = NormalizedApp { name: app.get_name(), icon: app.get_icon() };
            let ghost prev = r.deep_view();
            r.push(na);
            proof {
                assert(r.deep_view() =~= prev.push(na@));
                assert(prev.push(na@) =~= prev + seq![na@]);
            }
        }
        i = i + 1;
    }
    proof {
        assert(apps.deep_view().take(apps@.len() as int) =~= apps.deep_view());
    }
    r
}

/// The matched entries for a snapshot that may be absent: with no snapshot
/// nothing matches.
pub fn get_matched_apps(info: Option<ActiveWindowInfo>, config: &Vec<AppConfig>) -> (r: Vec<
    NormalizedApp,
>)
    ensures
        match info {
            Some(w) => r.deep_view() == match_apps_view(w@, config.deep_view()),
            None => r@.len() == 0,
        },
{
    match info {
        Some(w) => match_apps(&w, config),
        None => Vec::new(),
    }
}

/// Per-platform replacement fields of a detailed rule.
#[derive(Clone, Debug)]
pub struct RuleOverride {
    pub process: Option<String>,
    pub window: Option<String>,
}

/// Mathematical model of a per-platform override.
pub struct RuleOverrideView {
    pub process: Option<Seq<char>>,
    pub window: Option<Seq<char>>,
}

impl View for RuleOverride {
    type V = RuleOverrideView;

    open spec fn view(&self) -> RuleOverrideView {
        RuleOverrideView { process: self.process.deep_view(), window: self.window.deep_view() }
    }
}

impl DeepView for RuleOverride {
    type V = RuleOverrideView;

    open spec fn deep_view(&self) -> RuleOverrideView {
        self.view()
    }
}

/// An app-matching rule: a bare name, used both as process and window
/// fragment, or a detailed record with optional per-platform overrides.
#[derive(Clone, Debug)]
pub enum AppMatchRule {
    Bare(String),
    Detailed {
        display: String,
        process: Option<String>,
        window: Option<String>,
        windows_override: Option<RuleOverride>,
        macos_override: Option<RuleOverride>,
    },
}

/// Mathematical model of an app-matching rule.
pub enum AppMatchRuleView {
    Bare(Seq<char>),
    Detailed {
        display: Seq<char>,
        process: Option<Seq<char>>,
        window: Option<Seq<char>>,
        windows_override: Option<RuleOverrideView>,
        macos_override: Option<RuleOverrideView>,
    },
}

impl View for AppMatchRule {
    type V = AppMatchRuleView;

    open spec fn view(&self) -> AppMatchRuleView {
        match self {
            AppMatchRule::Bare(name) => AppMatchRuleView::Bare(name@),
            AppMatchRule::Detailed { display, process, window, windows_override, macos_override } => {
                AppMatchRuleView::Detailed {
                    display: display@,
                    process: process.deep_view(),
                    window: window.deep_view(),
                    windows_override: windows_override.deep_view(),
                    macos_override: macos_override.deep_view(),
                }
            },
        }
    }
}

impl DeepView for AppMatchRule {
    type V = AppMatchRuleView;

    open spec fn deep_view(&self) -> AppMatchRuleView {
        self.view()
    }
}

/// A rule resolved for one platform: a display name and the optional process
/// and window fragments it is matched by.
#[derive(Clone, Debug)]
pub struct NormalizedRule {
    pub display: String,
    pub process: Option<String>,
    pub window: Option<String>,
}

/// Mathematical model of a resolved rule.
pub struct NormalizedRuleView {
    pub display: Seq<char>,
    pub process: Option<Seq<char>>,
    pub window: Option<Seq<char>>,
}

impl View for NormalizedRule {
    type V = NormalizedRuleView;

    open spec fn view(&self) -> NormalizedRuleView {
        NormalizedRuleView {
            display: self.display@,
            process: self.process.deep_view(),
            window: self.window.deep_view(),
        }
    }
}

impl DeepView for NormalizedRule {
    type V = NormalizedRuleView;

    open spec fn deep_view(&self) -> NormalizedRuleView {
        self.view()
    }
}

/// An override field where it is set, the base field otherwise.
pub open spec fn override_or(
    o: Option<Seq<char>>,
    base: Option<Seq<char>>,
) -> Option<Seq<char>> {
    match o {
        Some(s) => Some(s),
        None => base,
    }
}

/// The per-platform override a detailed rule carries for a platform; a
/// platform with neither tag gets none.
pub open spec fn override_for(
    windows_override: Option<RuleOverrideView>,
    macos_override: Option<RuleOverrideView>,
    current: Platform,
) -> Option<RuleOverrideView> {
    match current {
        Platform::Windows => windows_override,
        Platform::MacOS => macos_override,
        Platform::Linux => None,
    }
}

/// A rule resolved for a platform: a bare name serves as display name and as
/// both fragments; a detailed rule keeps its fields, except where the
/// platform's override replaces one.
pub open spec fn normalize_view(r: AppMatchRuleView, current: Platform) -> NormalizedRuleView {
    match r {
        AppMatchRuleView::Bare(name) => NormalizedRuleView {
            display: name,
            process: Some(name),
            window: Some(name),
        },
        AppMatchRuleView::Detailed { display, process, window, windows_override, macos_override } => {
            match override_for(windows_override, macos_override, current) {
                Some(o) => NormalizedRuleView {
                    display,
                    process: override_or(o.process, process),
                    window: override_or(o.window, window),
                },
                None => NormalizedRuleView { display, process, window },
            }
        },
    }
}

fn clone_opt_override(o: &Option<RuleOverride>) -> (r: Option<RuleOverride>)
    ensures
        r.deep_view() == o.deep_view(),
{
    match o {
        Some(v) => Some(
            RuleOverride {
                process: clone_opt_string(&v.process),
                window: clone_opt_string(&v.window),
            },
        ),
        None => None,
    }
}

impl AppMatchRule {
    /// Resolves this rule for the platform.
    pub fn normalize(&self, current: Platform) -> (r: NormalizedRule)
        ensures
            r@ == normalize_view(self@, current),
    {
        match self {
            AppMatchRule::Bare(name) => NormalizedRule {
                display: name.clone(),
                process: Some(name.clone()),
                window: Some(name.clone()),
            },
            AppMatchRule::Detailed { display, process, window, windows_override, macos_override } => {
                let ov = match current {
                    Platform::Windows => clone_opt_override(windows_override),
                    Platform::MacOS => clone_opt_override(macos_override),
                    Platform::Linux => None,
                };
                match ov {
                    Some(o) => NormalizedRule {
                        display: display.clone(),
                        process: match o.process {
                            Some(p) => Some(p),
                            None => clone_opt_string(process),
                        },
                        window: match o.window {
                            Some(w) => Some(w),
                            None => clone_opt_string(window),
                        },
                    },
                    None => NormalizedRule {
                        display: display.clone(),
                        process: clone_opt_string(process),
                        window: clone_opt_string(window),
                    },
                }
            },
        }
    }
}

/// A resolved rule re-read as a detailed rule without overrides.
pub open spec fn embed_view(nr: NormalizedRuleView) -> AppMatchRuleView {
    AppMatchRuleView::Detailed {
        display: nr.display,
        process: nr.process,
        window: nr.window,
        windows_override: None,
        macos_override: None,
    }
}

impl NormalizedRule {
    /// This resolved rule as a detailed rule without overrides; normalizing
    /// it again, on any platform, gives the same resolved rule back.
    pub fn as_rule(&self) -> (r: AppMatchRule)
        ensures
            r@ == embed_view(self@),
    {
        AppMatchRule::Detailed {
            display: self.display.clone(),
            process: clone_opt_string(&self.process),
            window: clone_opt_string(&self.window),
            windows_override: None,
            macos_override: None,
        }
    }

}

/// Normalization is idempotent: resolving a rule, re-reading the result as a
/// rule, and resolving again, on the same platform flag, gives the first
/// result. Determinism needs no separate statement: `normalize_view` is a
/// function of the rule and the platform flag alone.
pub proof fn lemma_normalize_idempotent(r: AppMatchRuleView, current: Platform)
    ensures
        normalize_view(embed_view(normalize_view(r, current)), current) == normalize_view(
            r,
            current,
        ),
{
}

/// A resolved rule matches the snapshot under the earlier, substring policy:
/// its process fragment occurs in the process name, or its window fragment in
/// the window title, comparing under the lowercase view. A rule with neither
/// fragment present can never match.
pub open spec fn rule_matches_sub(info: SnapshotView, nr: NormalizedRuleView) -> bool {
    ||| (nr.process matches Some(rp) && info.process matches Some(p) && contains_seq(
        lower_of(p),
        lower_of(rp),
    ))
    ||| (nr.window matches Some(rw) && info.window matches Some(w) && contains_seq(
        lower_of(w),
        lower_of(rw),
    ))
}

/// A rule with neither comparable field present matches no snapshot.
pub proof fn lemma_fieldless_rule_never_matches(info: SnapshotView, nr: NormalizedRuleView)
    requires
        nr.process is None,
        nr.window is None,
    ensures
        !rule_matches_sub(info, nr),
{
}

/// The rules matching the snapshot under the substring policy, resolved for
/// the platform, in input order.
pub open spec fn match_rules_view(
    info: SnapshotView,
    rules: Seq<AppMatchRuleView>,
    current: Platform,
) -> Seq<NormalizedRuleView>
    decreases rules.len(),
{
    if rules.len() == 0 {
        Seq::empty()
    } else {
        match_rules_view(info, rules.drop_last(), current) + (if rule_matches_sub(
            info,
            normalize_view(rules.last(), current),
        ) {
            seq![normalize_view(rules.last(), current)]
        } else {
            Seq::empty()
        })
    }
}

fn rule_matches_exec(info: &ActiveWindowInfo, nr: &NormalizedRule) -> (r: bool)
    ensures
        r == rule_matches_sub(info@, nr@),
{
    let mut m = false;
    match (&nr.process, &info.process) {
        (Some(rp), Some(p)) => {
            let hay = lowercase(p.as_str());
            let needle = lowercase(rp.as_str());
            if contains_str(hay.as_str(), needle.as_str()) {
                m = true;
            }
        },
        _ => {},
    }
    if !m {
        match (&nr.window, &info.window) {
            (Some(rw), Some(w)) => {
                let hay = lowercase(w.as_str());
                let needle = lowercase(rw.as_str());
                if contains_str(hay.as_str(), needle.as_str()) {
                    m = true;
                }
            },
            _ => {},
        }
    }
    m
}

/// The rules matching the snapshot under the earlier, substring policy: each
/// rule is resolved for the platform, then its fragments are tested as
/// case-insensitive substrings of the snapshot's fields. The result keeps
/// input order.
pub fn match_apps_substring(
    info: &ActiveWindowInfo,
    rules: &Vec<AppMatchRule>,
    current: Platform,
) -> (r: Vec<NormalizedRule>)
    ensures
        r.deep_view() == match_rules_view(info@, rules.deep_view(), current),
{
    let mut r: Vec<NormalizedRule> = Vec::new();
    let mut i: usize = 0;
    while i < rules.len()
        invariant
            i <= rules@.len(),
            r.deep_view() == match_rules_view(info@, rules.deep_view().take(i as int), current),
        decreases rules@.len() - i,
    {
        let rule = &rules[i];
        proof {
            assert(rules.deep_view().take(i + 1).drop_last() =~= rules.deep_view().take(i as int));
            assert(rules.deep_view().take(i + 1).last() == rule@);
        }
        let nr = rule.normalize(current);
        if rule_matches_exec(info, &nr) {
            let ghost prev = r.deep_view();
            r.push(nr);
            proof {
                assert(r.deep_view() =~= prev.push(normalize_view(rule@, current)));
                assert(prev.push(normalize_view(rule@, current)) =~= prev + seq![
                    normalize_view(rule@, current),
                ]);
            }
        }
        i = i + 1;
    }
    proof {
        assert(rules.deep_view().take(rules@.len() as int) =~= rules.deep_view());
    }
    r
}

} // verus!
