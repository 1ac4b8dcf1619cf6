use starship_presets::command::{
    activation_notice, dispatch, finish_listing, finish_selection, guidance, listing_header,
    missing_message, unreadable_message, Command, Features, Outcome, Step, EXIT_MISSING_PRESET,
    EXIT_OK,
};
use starship_presets::launch::set_config;

const HOME: &str = "/home/ada";
const DIR: &str = "/home/ada/.config/starship_presets";
const WITH_TOGGLE: Features = Features { toggle: true };
const WITHOUT_TOGGLE: Features = Features { toggle: false };

fn strings(lines: &[&str]) -> Vec<String> {
    lines.iter().map(|l| l.to_string()).collect()
}

fn set(name: &str) -> Option<Command> {
    Some(Command::SetPreset { preset_name: name.to_string() })
}

#[test]
fn no_subcommand_gives_guidance_and_exit_code_zero() {
    let step = dispatch(WITH_TOGGLE, None, HOME, None);
    assert_eq!(
        step,
        Step::Finish(Outcome {
            stdout: strings(&[
                "No subcommand given. Try --help or one of the subcommands:",
                "  toggle, list, set",
            ]),
            stderr: vec![],
            launch: None,
            exit_code: 0,
        })
    );
}

#[test]
fn guidance_names_the_commands_on_offer() {
    assert_eq!(
        guidance(WITH_TOGGLE),
        ["No subcommand given. Try --help or one of the subcommands:", "  toggle, list, set"]
    );
    assert_eq!(
        guidance(WITHOUT_TOGGLE),
        ["No subcommand given. Try --help or one of the subcommands:", "  list, set"]
    );
}

#[test]
fn no_subcommand_ignores_the_environment() {
    let plain = dispatch(WITH_TOGGLE, None, HOME, None);
    assert_eq!(dispatch(WITH_TOGGLE, None, "/elsewhere", Some("/p/minimal.toml")), plain);
}

#[test]
fn toggle_from_minimal_activates_verbose() {
    let active = "/home/ada/.config/starship_presets/minimal.toml";
    let step = dispatch(WITH_TOGGLE, Some(Command::Toggle), HOME, Some(active));
    assert_eq!(
        step,
        Step::Finish(Outcome {
            stdout: strings(&["Switching to Verbose Prompt..."]),
            stderr: vec![],
            launch: Some(set_config("/home/ada/.config/starship_presets/verbose.toml")),
            exit_code: 0,
        })
    );
}

#[test]
fn toggle_from_verbose_activates_minimal() {
    let active = "/home/ada/.config/starship_presets/verbose.toml";
    let step = dispatch(WITH_TOGGLE, Some(Command::Toggle), HOME, Some(active));
    assert_eq!(
        step,
        Step::Finish(Outcome {
            stdout: strings(&["Switching to Minimal Prompt..."]),
            stderr: vec![],
            launch: Some(set_config("/home/ada/.config/starship_presets/minimal.toml")),
            exit_code: 0,
        })
    );
}

#[test]
fn toggle_with_the_variable_unset_activates_minimal() {
    let unset = dispatch(WITH_TOGGLE, Some(Command::Toggle), HOME, None);
    let empty = dispatch(WITH_TOGGLE, Some(Command::Toggle), HOME, Some(""));
    assert_eq!(unset, empty);
    match unset {
        Step::Finish(outcome) => {
            assert_eq!(outcome.stdout, ["Switching to Minimal Prompt..."]);
            let launch = outcome.launch.unwrap();
            assert_eq!(launch.value, "/home/ada/.config/starship_presets/minimal.toml");
            assert_eq!(launch.variable, "STARSHIP_CONFIG");
            assert_eq!(outcome.exit_code, 0);
        }
        other => panic!("a toggle ends at once, got {other:?}"),
    }
}

#[test]
fn toggle_from_another_preset_activates_minimal() {
    let active = "/home/ada/.config/starship_presets/tokyo.toml";
    match dispatch(WITH_TOGGLE, Some(Command::Toggle), HOME, Some(active)) {
        Step::Finish(outcome) => {
            assert_eq!(outcome.stdout, ["Switching to Minimal Prompt..."]);
            assert_eq!(
                outcome.launch.unwrap().value,
                "/home/ada/.config/starship_presets/minimal.toml"
            );
        }
        other => panic!("a toggle ends at once, got {other:?}"),
    }
}

#[test]
fn toggle_always_launches_one_of_the_two_fixed_paths() {
    let minimal = "/home/ada/.config/starship_presets/minimal.toml";
    for active in [None, Some(""), Some("/nowhere"), Some(minimal)] {
        match dispatch(WITH_TOGGLE, Some(Command::Toggle), HOME, active) {
            Step::Finish(outcome) => {
                let value = outcome.launch.unwrap().value;
                assert!(
                    value == "/home/ada/.config/starship_presets/minimal.toml"
                        || value == "/home/ada/.config/starship_presets/verbose.toml"
                );
            }
            other => panic!("a toggle ends at once, got {other:?}"),
        }
    }
}

#[test]
fn toggle_is_answered_with_guidance_where_it_is_not_on_offer() {
    let step = dispatch(WITHOUT_TOGGLE, Some(Command::Toggle), HOME, Some("/p/minimal.toml"));
    assert_eq!(step, dispatch(WITHOUT_TOGGLE, None, HOME, None));
    assert_eq!(
        step,
        Step::Finish(Outcome {
            stdout: guidance(WITHOUT_TOGGLE),
            stderr: vec![],
            launch: None,
            exit_code: 0,
        })
    );
}

#[test]
fn list_asks_for_the_entries_of_the_preset_directory() {
    for features in [WITH_TOGGLE, WITHOUT_TOGGLE] {
        let step = dispatch(features, Some(Command::List), HOME, None);
        assert_eq!(
            step,
            Step::Enumerate {
                header: "Available presets in /home/ada/.config/starship_presets:".to_string(),
                dir: DIR.to_string(),
            }
        );
    }
}

#[test]
fn set_asks_whether_the_preset_file_exists() {
    for features in [WITH_TOGGLE, WITHOUT_TOGGLE] {
        let step = dispatch(features, set("tokyo"), HOME, Some("/anything"));
        assert_eq!(
            step,
            Step::Probe {
                preset_name: "tokyo".to_string(),
                dir: DIR.to_string(),
                path: "/home/ada/.config/starship_presets/tokyo.toml".to_string(),
            }
        );
    }
}

#[test]
fn listing_prints_the_presets_of_the_directory() {
    let entries = strings(&["a.toml", "b.toml", "notes.txt"]);
    assert_eq!(
        finish_listing(DIR, Some(entries)),
        Outcome { stdout: strings(&["a", "b"]), stderr: vec![], launch: None, exit_code: 0 }
    );
}

#[test]
fn listing_an_empty_directory_prints_nothing() {
    assert_eq!(
        finish_listing(DIR, Some(vec![])),
        Outcome { stdout: vec![], stderr: vec![], launch: None, exit_code: 0 }
    );
}

#[test]
fn listing_a_directory_that_cannot_be_read_complains_and_ends_well() {
    let outcome = finish_listing("/no/such/dir", None);
    assert_eq!(
        outcome,
        Outcome {
            stdout: vec![],
            stderr: strings(&["Cannot read preset directory /no/such/dir"]),
            launch: None,
            exit_code: 0,
        }
    );
    assert_eq!(outcome.exit_code, EXIT_OK);
}

#[test]
fn setting_a_preset_without_a_file_fails_with_code_one() {
    let outcome = finish_selection(DIR, "ghost", false);
    assert_eq!(
        outcome,
        Outcome {
            stdout: vec![],
            stderr: strings(&["Preset 'ghost' not found in /home/ada/.config/starship_presets"]),
            launch: None,
            exit_code: 1,
        }
    );
    assert_eq!(outcome.exit_code, EXIT_MISSING_PRESET);
    assert!(outcome.stderr[0].contains("ghost"));
    assert!(outcome.stderr[0].contains(DIR));
}

#[test]
fn setting_a_preset_with_a_file_launches_with_its_exact_path() {
    let outcome = finish_selection(DIR, "tokyo", true);
    assert_eq!(
        outcome,
        Outcome {
            stdout: strings(&["Activating preset 'tokyo'..."]),
            stderr: vec![],
            launch: Some(set_config("/home/ada/.config/starship_presets/tokyo.toml")),
            exit_code: 0,
        }
    );
    let launch = outcome.launch.unwrap();
    assert_eq!(launch.value, format!("{DIR}/tokyo.toml"));
    assert_eq!(launch.notice, format!("Setting STARSHIP_CONFIG to {DIR}/tokyo.toml"));
}

#[test]
fn the_probed_path_is_the_path_that_is_launched() {
    for name in ["a", "minimal", "with space", "größe", ""] {
        match dispatch(WITH_TOGGLE, set(name), HOME, None) {
            Step::Probe { preset_name, dir, path } => {
                let launch = finish_selection(&dir, &preset_name, true).launch.unwrap();
                assert_eq!(launch.value, path);
            }
            other => panic!("a selection first probes, got {other:?}"),
        }
    }
}

#[test]
fn only_a_missing_preset_gives_a_non_zero_exit_code() {
    assert_eq!(finish_selection(DIR, "x", true).exit_code, 0);
    assert_eq!(finish_selection(DIR, "x", false).exit_code, 1);
    assert_eq!(finish_listing(DIR, None).exit_code, 0);
    assert_eq!(finish_listing(DIR, Some(strings(&["x.toml"]))).exit_code, 0);
    for command in [None, Some(Command::Toggle)] {
        match dispatch(WITH_TOGGLE, command, HOME, None) {
            Step::Finish(outcome) => assert_eq!(outcome.exit_code, 0),
            other => panic!("expected an end, got {other:?}"),
        }
    }
}

#[test]
fn messages_spell_out_names_and_directories() {
    assert_eq!(listing_header("/p"), "Available presets in /p:");
    assert_eq!(unreadable_message("/p"), "Cannot read preset directory /p");
    assert_eq!(missing_message("tokyo", "/p"), "Preset 'tokyo' not found in /p");
    assert_eq!(activation_notice("tokyo"), "Activating preset 'tokyo'...");
    assert_eq!(missing_message("", ""), "Preset '' not found in ");
    assert_eq!(activation_notice("it's"), "Activating preset 'it's'...");
}
