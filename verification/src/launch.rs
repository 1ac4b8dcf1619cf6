//! How a preset is made the active one.
//!
//! A preset becomes active for a new interactive shell only: the shell is
//! started with `STARSHIP_CONFIG` set to the preset's path, and the choice
//! ends with that shell. This module says what has to be started; starting
//! it is the caller's part.

use vstd::prelude::*;

verus! {

/// The environment variable from which the prompt reads its configuration.
pub const ACTIVE_VARIABLE: &'static str = "STARSHIP_CONFIG";

/// The environment variable that holds the user's home directory.
pub const HOME_VARIABLE: &'static str = "HOME";

/// The shell that is started.
pub const SHELL: &'static str = "zsh";

/// One start of an interactive shell with a preset active in it.
#[derive(Debug, PartialEq, Eq)]
pub struct ShellLaunch {
    /// The line to print before the shell starts.
    pub notice: String,
    /// The program to start.
    pub program: String,
    /// Its arguments, in order.
    pub args: Vec<String>,
    /// The environment variable to set for the child.
    pub variable: String,
    /// The value of that variable: the path of the preset.
    pub value: String,
}

/// What a [`ShellLaunch`] holds, as sequences of characters.
pub struct ShellLaunchView {
    pub notice: Seq<char>,
    pub program: Seq<char>,
    pub args: Seq<Seq<char>>,
    pub variable: Seq<char>,
    pub value: Seq<char>,
}

impl View for ShellLaunch {
    type V = ShellLaunchView;

    open spec fn view(&self) -> ShellLaunchView {
        ShellLaunchView {
            notice: self.notice@,
            program: self.program@,
            args: self.args.deep_view(),
            variable: self.variable@,
            value: self.value@,
        }
    }
}

impl DeepView for ShellLaunch {
    type V = ShellLaunchView;

    open spec fn deep_view(&self) -> ShellLaunchView {
        self@
    }
}

/// The launch that makes the preset file `config` active: `zsh -c "exec zsh"`
/// with `STARSHIP_CONFIG` set to `config`, so that the child replaces itself
/// by an interactive shell.
pub open spec fn shell_launch_of(config: Seq<char>) -> ShellLaunchView {
    ShellLaunchView {
        notice: "Setting STARSHIP_CONFIG to "@ + config,
        program: "zsh"@,
        args: seq!["-c"@, "exec zsh"@],
        variable: "STARSHIP_CONFIG"@,
        value: config,
    }
}

/// Describes the shell to start so that the preset file `new_config` is the
/// active one in it.
pub fn set_config(new_config: &str) -> (launch: ShellLaunch)
    ensures
        launch@ == shell_launch_of(new_config@),
{
    let mut args: Vec<String> = Vec::new();
    args.push(String::from_str("-c"));
    args.push(String::from_str("exec zsh"));
    assert(args.deep_view() =~= seq!["-c"@, "exec zsh"@]);
    ShellLaunch {
        notice: String::from_str("Setting STARSHIP_CONFIG to ").concat(new_config),
        program: String::from_str(SHELL),
        args,
        variable: String::from_str(ACTIVE_VARIABLE),
        value: String::from_str(new_config),
    }
}

/// The notice of a launch names the variable that is set and the path it is
/// set to.
pub proof fn lemma_notice_names_variable_and_path(config: Seq<char>)
    ensures
        shell_launch_of(config).notice == "Setting "@ + shell_launch_of(config).variable + " to "@
            + shell_launch_of(config).value,
{
    reveal_strlit("Setting STARSHIP_CONFIG to ");
    reveal_strlit("STARSHIP_CONFIG");
    reveal_strlit("Setting ");
    reveal_strlit(" to ");
}

} // verus!
