//! The time-boxed "shortcut learned" overlay: the deterministic sizing rule
//! for its width, and the controller whose generation counter lets exactly
//! one deferred hide act per show.

use vstd::prelude::*;
use crate::text::contains_char;
use crate::text::contains_seq;
use crate::text::contains_str;
use crate::text::count_char;
use crate::text::count_char_str;
use crate::text::has_char;
use crate::text::lower_of;
use crate::text::lowercase;
use crate::tracker::SharedState;

verus! {

pub const BASE_WIDTH: u32 = 150;

pub const MODIFIER_WIDTH: u32 = 50;

pub const SEPARATOR_WIDTH: u32 = 20;

pub const DEFAULT_KEY_WIDTH: u32 = 30;

pub const MIN_WIDTH: u32 = 200;

pub const MAX_WIDTH: u32 = 500;

pub const OVERLAY_HEIGHT: u32 = 150;

/// The modifier increments earned by a shortcut: one per modifier family
/// detected (control, shift, alt/option, and the "super" family of
/// win/command/cmd and the command glyph), each counted once.
pub open spec fn modifier_width_sum(lowered: Seq<char>, raw: Seq<char>) -> int {
    (if contains_seq(lowered, "ctrl"@) || contains_seq(lowered, "control"@) {
        MODIFIER_WIDTH as int
    } else {
        0int
    }) + (if contains_seq(lowered, "shift"@) {
        MODIFIER_WIDTH as int
    } else {
        0int
    }) + (if contains_seq(lowered, "alt"@) || contains_seq(lowered, "option"@) {
        MODIFIER_WIDTH as int
    } else {
        0int
    }) + (if contains_seq(lowered, "win"@) || contains_seq(lowered, "command"@) || contains_seq(
        lowered,
        "cmd"@,
    ) || has_char(raw, '\u{2318}') {
        MODIFIER_WIDTH as int
    } else {
        0int
    })
}

/// The width before clamping: a base, the modifier increments, one separator
/// increment per `+`, and one increment for the non-modifier key.
pub open spec fn unclamped_width(lowered: Seq<char>, raw: Seq<char>) -> int {
    BASE_WIDTH + modifier_width_sum(lowered, raw) + SEPARATOR_WIDTH * count_char(raw, '+')
        + DEFAULT_KEY_WIDTH
}

pub open spec fn clamp_width(w: int) -> int {
    if w < MIN_WIDTH {
        MIN_WIDTH as int
    } else if w > MAX_WIDTH {
        MAX_WIDTH as int
    } else {
        w
    }
}

/// The overlay width for a shortcut, over the lowercase view of the key.
pub open spec fn overlay_width_view(lowered: Seq<char>, raw: Seq<char>) -> int {
    clamp_width(unclamped_width(lowered, raw))
}

proof fn lemma_count_char_nonneg(s: Seq<char>, c: char)
    ensures
        count_char(s, c) >= 0,
    decreases s.len(),
{
    if s.len() > 0 {
        lemma_count_char_nonneg(s.drop_last(), c);
    }
}

/// The sizing rule, given the already-lowercased key beside the raw one.
pub fn overlay_width_from(lowered: &str, raw: &str) -> (w: u32)
    ensures
        w == overlay_width_view(lowered@, raw@),
        MIN_WIDTH <= w <= MAX_WIDTH,
{
    let mut width: u32 = BASE_WIDTH;
    if contains_str(lowered, "ctrl") || contains_str(lowered, "control") {
        width = width + MODIFIER_WIDTH;
    }
    if contains_str(lowered, "shift") {
        width = width + MODIFIER_WIDTH;
    }
    if contains_str(lowered, "alt") || contains_str(lowered, "option") {
        width = width + MODIFIER_WIDTH;
    }
    if contains_str(lowered, "win") || contains_str(lowered, "command") || contains_str(
        lowered,
        "cmd",
    ) || contains_char(raw, '\u{2318}') {
        width = width + MODIFIER_WIDTH;
    }
    let separators = count_char_str(raw, '+');
    if separators >= 16 {
        proof {
            assert(unclamped_width(lowered@, raw@) >= MAX_WIDTH);
        }
        return MAX_WIDTH;
    }
    proof {
        lemma_count_char_nonneg(raw@, '+');
    }
    width = width + SEPARATOR_WIDTH * (separators as u32);
    width = width + DEFAULT_KEY_WIDTH;
    if width < MIN_WIDTH {
        MIN_WIDTH
    } else if width > MAX_WIDTH {
        MAX_WIDTH
    } else {
        width
    }
}

/// The overlay width for a shortcut key: always within the minimum and
/// maximum bound.
pub fn calculate_overlay_width(shortcut_key: &str) -> (w: u32)
    ensures
        w == overlay_width_view(lower_of(shortcut_key@), shortcut_key@),
        MIN_WIDTH <= w <= MAX_WIDTH,
{
    let lowered = lowercase(shortcut_key);
    overlay_width_from(lowered.as_str(), shortcut_key)
}

/// Everything one overlay show asks of the presentation layer: the size to
/// set, the notification payload, and the generation stamp that the deferred
/// hide must present.
pub struct OverlayShowPlan {
    pub width: u32,
    pub height: u32,
    pub shortcut_key: String,
    pub duration: u32,
    pub generation: u64,
}

/// Owns the overlay's generation counter. Each show bumps the generation, so
/// the deferred hide of an earlier show no longer acts: only the timer whose
/// stamp matches the current generation may hide the overlay.
pub struct OverlayController {
    pub generation: u64,
}

impl OverlayController {
    pub fn new() -> (c: Self)
        ensures
            c.generation == 0,
    {
        OverlayController { generation: 0 }
    }

    /// Begins one overlay show: hides the main window, sizes the overlay for
    /// the shortcut key, and stamps the plan with a fresh generation.
    pub fn show(&mut self, state: &mut SharedState, shortcut_key: String, duration: u32) -> (plan:
        OverlayShowPlan)
        requires
            old(self).generation < u64::MAX,
        ensures
            final(self).generation == old(self).generation + 1,
            *final(state) == (SharedState { main_visible: false, ..*old(state) }),
            plan.width == overlay_width_view(lower_of(shortcut_key@), shortcut_key@),
            plan.height == OVERLAY_HEIGHT,
            plan.shortcut_key == shortcut_key,
            plan.duration == duration,
            plan.generation == final(self).generation,
    {
        state.main_visible = false;
        self.generation = self.generation + 1;
        let width = calculate_overlay_width(shortcut_key.as_str());
        OverlayShowPlan {
            width,
            height: OVERLAY_HEIGHT,
            shortcut_key,
            duration,
            generation: self.generation,
        }
    }

    /// Whether a deferred hide stamped with `generation` may act: only while
    /// no newer show has happened. A show issued before an earlier timer
    /// fires bumps the generation, so the earlier timer is ignored and the
    /// overlay stays for the newer show's full duration.
    pub fn should_hide_on_timer(&self, generation: u64) -> (r: bool)
        ensures
            r == (generation == self.generation),
    {
        generation == self.generation
    }
}

} // verus!
