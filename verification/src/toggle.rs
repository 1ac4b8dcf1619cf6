//! Flipping between the two fixed presets, `minimal` and `verbose`.
//!
//! The toggle looks at nothing but the path that is active now. From the
//! `minimal` preset it leads to `verbose`; from anything else, be it
//! `verbose`, another preset or nothing at all, it leads to `minimal`.

use vstd::prelude::*;
use crate::paths::{
    lemma_fixed_presets_differ, minimal_path_of, preset_path, preset_path_of, verbose_path_of,
};
use crate::text::str_eq;

verus! {

/// One of the two presets that the toggle knows.
#[derive(Clone, Copy, Debug, PartialEq, Eq)]
pub enum FixedPreset {
    Minimal,
    Verbose,
}

impl FixedPreset {
    /// The preset's name, which is its file's name without `.toml`.
    pub open spec fn name_of(self) -> Seq<char> {
        match self {
            FixedPreset::Minimal => "minimal"@,
            FixedPreset::Verbose => "verbose"@,
        }
    }

    /// The preset's path inside the directory `dir`.
    pub open spec fn path_of(self, dir: Seq<char>) -> Seq<char> {
        preset_path_of(dir, self.name_of())
    }

    /// The line that announces the switch to this preset.
    pub open spec fn announcement_of(self) -> Seq<char> {
        match self {
            FixedPreset::Minimal => "Switching to Minimal Prompt..."@,
            FixedPreset::Verbose => "Switching to Verbose Prompt..."@,
        }
    }

    /// The preset's name.
    pub fn name(self) -> (name: &'static str)
        ensures
            name@ == self.name_of(),
    {
        match self {
            FixedPreset::Minimal => "minimal",
            FixedPreset::Verbose => "verbose",
        }
    }

    /// Builds the preset's path inside the directory `dir`.
    pub fn path(self, dir: &str) -> (path: String)
        ensures
            path@ == self.path_of(dir@),
    {
        preset_path(dir, self.name())
    }

    /// The line that announces the switch to this preset.
    pub fn announcement(self) -> (line: &'static str)
        ensures
            line@ == self.announcement_of(),
    {
        match self {
            FixedPreset::Minimal => "Switching to Minimal Prompt...",
            FixedPreset::Verbose => "Switching to Verbose Prompt...",
        }
    }
}

/// Where a toggle leads when `active` is the active path and the presets lie
/// in `dir`.
pub open spec fn toggle_choice(dir: Seq<char>, active: Seq<char>) -> FixedPreset {
    if active == minimal_path_of(dir) {
        FixedPreset::Verbose
    } else {
        FixedPreset::Minimal
    }
}

/// The path that a toggle makes active.
pub open spec fn toggle_target_of(dir: Seq<char>, active: Seq<char>) -> Seq<char> {
    toggle_choice(dir, active).path_of(dir)
}

/// Decides which preset a toggle switches to. `active` is the path that is
/// active now, empty if none is.
pub fn toggle(dir: &str, active: &str) -> (next: FixedPreset)
    ensures
        next == toggle_choice(dir@, active@),
{
    let minimal = FixedPreset::Minimal.path(dir);
    if str_eq(active, minimal.as_str()) {
        FixedPreset::Verbose
    } else {
        FixedPreset::Minimal
    }
}

/// A toggle always ends at one of the two fixed paths, whatever was active.
pub proof fn lemma_toggle_target_is_fixed(dir: Seq<char>, active: Seq<char>)
    ensures
        toggle_target_of(dir, active) == minimal_path_of(dir) || toggle_target_of(dir, active)
            == verbose_path_of(dir),
{
}

/// From `minimal` a toggle leads to `verbose`, from `verbose` to `minimal`,
/// and with nothing active it leads to `minimal`.
pub proof fn lemma_toggle_directions(dir: Seq<char>)
    ensures
        toggle_choice(dir, minimal_path_of(dir)) == FixedPreset::Verbose,
        toggle_choice(dir, verbose_path_of(dir)) == FixedPreset::Minimal,
        toggle_choice(dir, Seq::empty()) == FixedPreset::Minimal,
        toggle_target_of(dir, minimal_path_of(dir)) == verbose_path_of(dir),
        toggle_target_of(dir, verbose_path_of(dir)) == minimal_path_of(dir),
        toggle_target_of(dir, Seq::empty()) == minimal_path_of(dir),
{
    lemma_fixed_presets_differ(dir);
    reveal_strlit(".toml");
}

/// From any path but that of `minimal`, a toggle leads to `minimal`.
pub proof fn lemma_toggle_defaults_to_minimal(dir: Seq<char>, active: Seq<char>)
    requires
        active != minimal_path_of(dir),
    ensures
        toggle_target_of(dir, active) == minimal_path_of(dir),
{
}

/// Toggling again from where a toggle led never stays: the second toggle ends
/// at the other fixed preset.
pub proof fn lemma_toggle_alternates(dir: Seq<char>, active: Seq<char>)
    ensures
        toggle_target_of(dir, toggle_target_of(dir, active)) != toggle_target_of(dir, active),
        toggle_choice(dir, toggle_target_of(dir, active)) != toggle_choice(dir, active),
{
    lemma_fixed_presets_differ(dir);
}

} // verus!
