//! From a command, and from what the caller found outside, to what the
//! program prints, starts and returns.
//!
//! [`dispatch`] takes the command and the two environment values and answers
//! with a [`Step`]. A step is either the end ([`Step::Finish`]) or a question
//! that only the file system can answer: which files the preset directory
//! holds ([`Step::Enumerate`], answered through [`finish_listing`]) or whether
//! a preset file exists ([`Step::Probe`], answered through
//! [`finish_selection`]). Every end is an [`Outcome`]: lines for standard
//! output, lines for standard error, at most one shell to start after them,
//! and the exit code.

use vstd::prelude::*;
use crate::launch::{set_config, shell_launch_of, ShellLaunch, ShellLaunchView};
use crate::listing::{list_presets, preset_names_of};
use crate::paths::{
    minimal_path_of, preset_dir, preset_dir_of, preset_path, preset_path_of, verbose_path_of,
};
use crate::toggle::{toggle, toggle_choice, toggle_target_of};

verus! {

/// The exit code of every run that found what it was asked for.
pub const EXIT_OK: i32 = 0;

/// The exit code of a run that was asked for a preset without a file.
pub const EXIT_MISSING_PRESET: i32 = 1;

/// A command of the switcher.
#[derive(Debug, PartialEq, Eq)]
pub enum Command {
    /// Flip between the `minimal` and the `verbose` preset.
    Toggle,
    /// List the presets of the preset directory.
    List,
    /// Activate the preset called `preset_name`.
    SetPreset { preset_name: String },
}

/// What a [`Command`] holds, as sequences of characters.
pub enum CommandView {
    Toggle,
    List,
    SetPreset { preset_name: Seq<char> },
}

impl View for Command {
    type V = CommandView;

    open spec fn view(&self) -> CommandView {
        match self {
            Command::Toggle => CommandView::Toggle,
            Command::List => CommandView::List,
            Command::SetPreset { preset_name } => CommandView::SetPreset {
                preset_name: preset_name@,
            },
        }
    }
}

impl DeepView for Command {
    type V = CommandView;

    open spec fn deep_view(&self) -> CommandView {
        self@
    }
}

/// Which optional commands this build of the switcher offers.
#[derive(Clone, Copy, Debug, PartialEq, Eq)]
pub struct Features {
    /// Whether `toggle` is a command. Without it, a toggle is answered like a
    /// run without a command.
    pub toggle: bool,
}

/// How a run ends.
#[derive(Debug, PartialEq, Eq)]
pub struct Outcome {
    /// The lines for standard output, in order.
    pub stdout: Vec<String>,
    /// The lines for standard error, in order.
    pub stderr: Vec<String>,
    /// The shell to start once the lines are out, if any.
    pub launch: Option<ShellLaunch>,
    /// The code to exit with.
    pub exit_code: i32,
}

/// What an [`Outcome`] holds, as sequences of characters.
pub struct OutcomeView {
    pub stdout: Seq<Seq<char>>,
    pub stderr: Seq<Seq<char>>,
    pub launch: Option<ShellLaunchView>,
    pub exit_code: int,
}

impl View for Outcome {
    type V = OutcomeView;

    open spec fn view(&self) -> OutcomeView {
        OutcomeView {
            stdout: self.stdout.deep_view(),
            stderr: self.stderr.deep_view(),
            launch: self.launch.deep_view(),
            exit_code: self.exit_code as int,
        }
    }
}

/// What the caller does next.
#[derive(Debug, PartialEq, Eq)]
pub enum Step {
    /// Nothing is left to find out: end the run as the outcome says.
    Finish(Outcome),
    /// Print `header`, read the file names of the directory `dir`, and hand
    /// them to [`finish_listing`].
    Enumerate { header: String, dir: String },
    /// Find out whether the file `path` exists, and hand the answer to
    /// [`finish_selection`] together with `dir` and `preset_name`.
    Probe { preset_name: String, dir: String, path: String },
}

/// What a [`Step`] holds, as sequences of characters.
pub enum StepView {
    Finish(OutcomeView),
    Enumerate { header: Seq<char>, dir: Seq<char> },
    Probe { preset_name: Seq<char>, dir: Seq<char>, path: Seq<char> },
}

impl View for Step {
    type V = StepView;

    open spec fn view(&self) -> StepView {
        match self {
            Step::Finish(outcome) => StepView::Finish(outcome@),
            Step::Enumerate { header, dir } => StepView::Enumerate { header: header@, dir: dir@ },
            Step::Probe { preset_name, dir, path } => StepView::Probe {
                preset_name: preset_name@,
                dir: dir@,
                path: path@,
            },
        }
    }
}

/// The active path as the program sees it: empty when the variable is unset.
pub open spec fn active_of(active: Option<&str>) -> Seq<char> {
    match active {
        Some(path) => path@,
        None => Seq::empty(),
    }
}

/// The two lines that answer a run without a command: a hint, and the
/// commands on offer.
pub open spec fn guidance_of(features: Features) -> Seq<Seq<char>> {
    seq![
        "No subcommand given. Try --help or one of the subcommands:"@,
        if features.toggle {
            "  toggle, list, set"@
        } else {
            "  list, set"@
        },
    ]
}

/// The line above a listing of the directory `dir`.
pub open spec fn listing_header_of(dir: Seq<char>) -> Seq<char> {
    "Available presets in "@ + dir + ":"@
}

/// The complaint about a preset directory `dir` that cannot be read.
pub open spec fn unreadable_message_of(dir: Seq<char>) -> Seq<char> {
    "Cannot read preset directory "@ + dir
}

/// The complaint about a preset `preset_name` that has no file in `dir`.
pub open spec fn missing_message_of(preset_name: Seq<char>, dir: Seq<char>) -> Seq<char> {
    "Preset '"@ + preset_name + "' not found in "@ + dir
}

/// The line that announces the activation of the preset `preset_name`.
pub open spec fn activation_notice_of(preset_name: Seq<char>) -> Seq<char> {
    "Activating preset '"@ + preset_name + "'..."@
}

/// A run that ends well after printing `lines` to standard output.
pub open spec fn printed(lines: Seq<Seq<char>>) -> OutcomeView {
    OutcomeView { stdout: lines, stderr: Seq::empty(), launch: None, exit_code: EXIT_OK as int }
}

/// A run that prints `line` and then starts a shell with `config` active.
pub open spec fn activated(line: Seq<char>, config: Seq<char>) -> OutcomeView {
    OutcomeView {
        stdout: seq![line],
        stderr: Seq::empty(),
        launch: Some(shell_launch_of(config)),
        exit_code: EXIT_OK as int,
    }
}

/// A run that complains with `line` on standard error and exits with `code`.
pub open spec fn complained(line: Seq<char>, code: int) -> OutcomeView {
    OutcomeView { stdout: Seq::empty(), stderr: seq![line], launch: None, exit_code: code }
}

/// How a toggle ends when the presets lie in `dir` and `active` is active.
pub open spec fn toggle_outcome_of(dir: Seq<char>, active: Seq<char>) -> OutcomeView {
    let next = toggle_choice(dir, active);
    activated(next.announcement_of(), next.path_of(dir))
}

/// How a listing of `dir` ends: with the names of the presets among the file
/// names `entries`, or, when the directory could not be read (`None`), with a
/// complaint. Either way the run ends well.
pub open spec fn listing_outcome_of(
    dir: Seq<char>,
    entries: Option<Seq<Seq<char>>>,
) -> OutcomeView {
    match entries {
        Some(files) => printed(preset_names_of(files)),
        None => complained(unreadable_message_of(dir), EXIT_OK as int),
    }
}

/// How the selection of `preset_name` in `dir` ends, given whether its file
/// exists.
pub open spec fn selection_outcome_of(
    dir: Seq<char>,
    preset_name: Seq<char>,
    exists: bool,
) -> OutcomeView {
    if exists {
        activated(activation_notice_of(preset_name), preset_path_of(dir, preset_name))
    } else {
        complained(missing_message_of(preset_name, dir), EXIT_MISSING_PRESET as int)
    }
}

/// The step that answers `command` for the home directory `home` while
/// `active` is the active path.
pub open spec fn step_of(
    features: Features,
    command: Option<CommandView>,
    home: Seq<char>,
    active: Seq<char>,
) -> StepView {
    let dir = preset_dir_of(home);
    match command {
        Some(CommandView::Toggle) => if features.toggle {
            StepView::Finish(toggle_outcome_of(dir, active))
        } else {
            StepView::Finish(printed(guidance_of(features)))
        },
        Some(CommandView::List) => StepView::Enumerate { header: listing_header_of(dir), dir },
        Some(CommandView::SetPreset { preset_name }) => StepView::Probe {
            preset_name,
            dir,
            path: preset_path_of(dir, preset_name),
        },
        None => StepView::Finish(printed(guidance_of(features))),
    }
}

/// The two lines that answer a run without a command.
pub fn guidance(features: Features) -> (lines: Vec<String>)
    ensures
        lines.deep_view() == guidance_of(features),
{
    let mut lines: Vec<String> = Vec::new();
    lines.push(String::from_str("No subcommand given. Try --help or one of the subcommands:"));
    if features.toggle {
        lines.push(String::from_str("  toggle, list, set"));
    } else {
        lines.push(String::from_str("  list, set"));
    }
    lines
}

/// The line above a listing of the directory `dir`.
pub fn listing_header(dir: &str) -> (line: String)
    ensures
        line@ == listing_header_of(dir@),
{
    String::from_str("Available presets in ").concat(dir).concat(":")
}

/// The complaint about a preset directory `dir` that cannot be read.
pub fn unreadable_message(dir: &str) -> (line: String)
    ensures
        line@ == unreadable_message_of(dir@),
{
    String::from_str("Cannot read preset directory ").concat(dir)
}

/// The complaint about a preset `preset_name` that has no file in `dir`.
pub fn missing_message(preset_name: &str, dir: &str) -> (line: String)
    ensures
        line@ == missing_message_of(preset_name@, dir@),
{
    String::from_str("Preset '").concat(preset_name).concat("' not found in ").concat(dir)
}

/// The line that announces the activation of the preset `preset_name`.
pub fn activation_notice(preset_name: &str) -> (line: String)
    ensures
        line@ == activation_notice_of(preset_name@),
{
    String::from_str("Activating preset '").concat(preset_name).concat("'...")
}

/// A run that ends well after printing `lines`.
fn print_and_finish(lines: Vec<String>) -> (outcome: Outcome)
    ensures
        outcome@ == printed(lines.deep_view()),
{
    let stderr: Vec<String> = Vec::new();
    assert(stderr.deep_view() =~= Seq::<Seq<char>>::empty());
    Outcome { stdout: lines, stderr, launch: None, exit_code: EXIT_OK }
}

/// A run that prints `line` and then starts a shell with `config` active.
fn announce_and_launch(line: String, config: &str) -> (outcome: Outcome)
    ensures
        outcome@ == activated(line@, config@),
{
    let mut stdout: Vec<String> = Vec::new();
    stdout.push(line);
    let stderr: Vec<String> = Vec::new();
    assert(stdout.deep_view() =~= seq![line@]);
    assert(stderr.deep_view() =~= Seq::<Seq<char>>::empty());
    Outcome { stdout, stderr, launch: Some(set_config(config)), exit_code: EXIT_OK }
}

/// A run that complains with `line` and exits with `code`.
fn complain_and_finish(line: String, code: i32) -> (outcome: Outcome)
    ensures
        outcome@ == complained(line@, code as int),
{
    let stdout: Vec<String> = Vec::new();
    let mut stderr: Vec<String> = Vec::new();
    stderr.push(line);
    assert(stdout.deep_view() =~= Seq::<Seq<char>>::empty());
    assert(stderr.deep_view() =~= seq![line@]);
    Outcome { stdout, stderr, launch: None, exit_code: code }
}

/// Answers a command.
///
/// `home` is the user's home directory and `active` the path that
/// `STARSHIP_CONFIG` holds now, `None` if it holds none. A toggle and a run
/// without a command end at once; a listing and a selection first need an
/// answer from the file system, and say so in the step.
pub fn dispatch(
    features: Features,
    command: Option<Command>,
    home: &str,
    active: Option<&str>,
) -> (step: Step)
    ensures
        step@ == step_of(features, command.deep_view(), home@, active_of(active)),
{
    let dir = preset_dir(home);
    match command {
        Some(Command::Toggle) => {
            if features.toggle {
                let current: &str = match active {
                    Some(path) => path,
                    None => "",
                };
                proof {
                    reveal_strlit("");
                    assert(current@ =~= active_of(active));
                }
                let next = toggle(dir.as_str(), current);
                let path = next.path(dir.as_str());
                Step::Finish(
                    announce_and_launch(String::from_str(next.announcement()), path.as_str()),
                )
            } else {
                Step::Finish(print_and_finish(guidance(features)))
            }
        },
        Some(Command::List) => {
            let header = listing_header(dir.as_str());
            Step::Enumerate { header, dir }
        },
        Some(Command::SetPreset { preset_name }) => {
            let path = preset_path(dir.as_str(), preset_name.as_str());
            Step::Probe { preset_name, dir, path }
        },
        None => Step::Finish(print_and_finish(guidance(features))),
    }
}

/// Ends a listing of the directory `dir`.
///
/// `entries` holds the file names that the directory was found to hold, in
/// the order in which it gave them, or `None` if it could not be read.
pub fn finish_listing(dir: &str, entries: Option<Vec<String>>) -> (outcome: Outcome)
    ensures
        outcome@ == listing_outcome_of(dir@, entries.deep_view()),
{
    match entries {
        Some(files) => print_and_finish(list_presets(&files)),
        None => complain_and_finish(unreadable_message(dir), EXIT_OK),
    }
}

/// Ends the selection of the preset `preset_name` in the directory `dir`.
///
/// `exists` tells whether the preset's file, `preset_path(dir, preset_name)`,
/// was found.
pub fn finish_selection(dir: &str, preset_name: &str, exists: bool) -> (outcome: Outcome)
    ensures
        outcome@ == selection_outcome_of(dir@, preset_name@, exists),
{
    if exists {
        let path = preset_path(dir, preset_name);
        announce_and_launch(activation_notice(preset_name), path.as_str())
    } else {
        complain_and_finish(missing_message(preset_name, dir), EXIT_MISSING_PRESET)
    }
}

/// A run that needs no answer from the file system ends well: it exits with
/// 0 and prints nothing to standard error.
pub proof fn lemma_finished_steps_end_well(
    features: Features,
    command: Option<CommandView>,
    home: Seq<char>,
    active: Seq<char>,
)
    ensures
        step_of(features, command, home, active) matches StepView::Finish(outcome)
            ==> outcome.exit_code == 0 && outcome.stderr.len() == 0,
{
}

/// A toggle starts a shell with one of the two fixed presets active, the one
/// that it announces, whatever was active before.
pub proof fn lemma_toggle_launches_a_fixed_preset(dir: Seq<char>, active: Seq<char>)
    ensures
        toggle_outcome_of(dir, active).launch is Some,
        toggle_outcome_of(dir, active).launch->0.variable == "STARSHIP_CONFIG"@,
        toggle_outcome_of(dir, active).launch->0.value == minimal_path_of(dir)
            || toggle_outcome_of(dir, active).launch->0.value == verbose_path_of(dir),
        toggle_outcome_of(dir, active).launch->0.value == toggle_target_of(dir, active),
        toggle_outcome_of(dir, active).stdout == seq![
            toggle_choice(dir, active).announcement_of(),
        ],
{
}

/// A listing always ends well and never starts a shell. It prints one line
/// for each preset file among the entries, in their order, and nothing else;
/// a directory that cannot be read yields one complaint and no line.
pub proof fn lemma_listing_ends_well(dir: Seq<char>, entries: Option<Seq<Seq<char>>>)
    ensures
        listing_outcome_of(dir, entries).exit_code == 0,
        listing_outcome_of(dir, entries).launch is None,
        entries matches Some(files) ==> listing_outcome_of(dir, entries).stdout
            == preset_names_of(files),
        entries is Some ==> listing_outcome_of(dir, entries).stderr.len() == 0,
        entries is None ==> listing_outcome_of(dir, entries).stdout.len() == 0,
        entries is None ==> listing_outcome_of(dir, entries).stderr == seq![
            unreadable_message_of(dir),
        ],
{
}

/// A selection starts a shell exactly when the preset's file exists, and
/// fails, with code 1 and a complaint, exactly when it does not. The shell
/// gets `STARSHIP_CONFIG` set to `<dir>/<preset_name>.toml` and to nothing
/// else.
pub proof fn lemma_selection_needs_the_file(dir: Seq<char>, preset_name: Seq<char>, exists: bool)
    ensures
        selection_outcome_of(dir, preset_name, exists).launch is Some <==> exists,
        selection_outcome_of(dir, preset_name, exists).exit_code == 0 <==> exists,
        selection_outcome_of(dir, preset_name, exists).exit_code == 1 <==> !exists,
        selection_outcome_of(dir, preset_name, exists).stderr.len() == 0 <==> exists,
        exists ==> selection_outcome_of(dir, preset_name, exists).launch->0.variable
            == "STARSHIP_CONFIG"@,
        exists ==> selection_outcome_of(dir, preset_name, exists).launch->0.value == dir + "/"@
            + (preset_name + ".toml"@),
        exists ==> ".toml"@.is_suffix_of(
            selection_outcome_of(dir, preset_name, exists).launch->0.value,
        ),
        exists ==> dir.is_prefix_of(
            selection_outcome_of(dir, preset_name, exists).launch->0.value,
        ),
{
}

/// The file that a selection asks about is the file that it activates: the
/// path in the probe is `<dir>/<preset_name>.toml`, with `dir` the preset
/// directory of the home directory, and the shell that follows a found file
/// gets exactly that path.
pub proof fn lemma_probed_path_is_launched(
    features: Features,
    preset_name: Seq<char>,
    home: Seq<char>,
    active: Seq<char>,
)
    ensures
        step_of(features, Some(CommandView::SetPreset { preset_name }), home, active)
            == (StepView::Probe {
            preset_name,
            dir: preset_dir_of(home),
            path: preset_path_of(preset_dir_of(home), preset_name),
        }),
        selection_outcome_of(preset_dir_of(home), preset_name, true).launch->0.value
            == preset_path_of(preset_dir_of(home), preset_name),
{
}

/// The complaint about a missing preset names the preset, right after its
/// opening quote, and ends with the directory that was searched.
pub proof fn lemma_missing_message_names_preset_and_dir(preset_name: Seq<char>, dir: Seq<char>)
    ensures
        missing_message_of(preset_name, dir).subrange(8, 8 + preset_name.len() as int)
            == preset_name,
        dir.is_suffix_of(missing_message_of(preset_name, dir)),
{
    reveal_strlit("Preset '");
}

} // verus!
