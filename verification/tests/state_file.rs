use tv_switch::plan::{Plan, Step};
use tv_switch::state::{LoadError, State};

fn all_states() -> Vec<State> {
    vec![
        State { tv: false, scaled: false },
        State { tv: false, scaled: true },
        State { tv: true, scaled: false },
        State { tv: true, scaled: true },
    ]
}

#[test]
fn default_state_is_desktop_and_scaled() {
    assert_eq!(State::default(), State { tv: false, scaled: true });
}

#[test]
fn encode_writes_two_tokens_separated_by_a_line_feed() {
    assert_eq!(State { tv: false, scaled: false }.encode(), "desktop\nunscaled");
    assert_eq!(State { tv: false, scaled: true }.encode(), "desktop\nscaled");
    assert_eq!(State { tv: true, scaled: false }.encode(), "tv\nunscaled");
    assert_eq!(State { tv: true, scaled: true }.encode(), "tv\nscaled");
}

#[test]
fn decode_reads_back_what_encode_wrote() {
    for state in all_states() {
        assert_eq!(State::decode(&state.encode()), Ok(state));
    }
}

#[test]
fn save_then_load_yields_the_saved_state() {
    for state in all_states() {
        let mut plan = Plan::new();
        state.save(&mut plan);
        assert_eq!(plan.steps.len(), 1);
        let written = match &plan.steps[0] {
            Step::Write(text) => text.clone(),
            other => panic!("expected a write, found {:?}", other),
        };
        let mut after = Plan::new();
        assert_eq!(State::load(Some(&written), &mut after), Ok(state));
        assert!(after.steps.is_empty());
    }
}

#[test]
fn save_appends_to_what_the_plan_already_holds() {
    let mut plan = Plan::new();
    plan.wait(7);
    State { tv: true, scaled: false }.save(&mut plan);
    assert_eq!(plan.steps, vec![Step::Wait(7), Step::Write("tv\nunscaled".to_string())]);
}

#[test]
fn init_writes_the_default_state() {
    let mut plan = Plan::new();
    State::init(&mut plan);
    assert_eq!(plan.steps, vec![Step::Write("desktop\nscaled".to_string())]);
}

#[test]
fn load_without_a_file_creates_it_and_yields_the_default() {
    let mut plan = Plan::new();
    assert_eq!(State::load(None, &mut plan), Ok(State { tv: false, scaled: true }));
    assert_eq!(plan.steps, vec![Step::Write("desktop\nscaled".to_string())]);
}

#[test]
fn load_of_an_existing_file_asks_for_nothing() {
    let mut plan = Plan::new();
    assert_eq!(State::load(Some("tv\nunscaled"), &mut plan), Ok(State { tv: true, scaled: false }));
    assert!(plan.steps.is_empty());
}

#[test]
fn load_rejects_an_unknown_first_line() {
    let mut plan = Plan::new();
    assert_eq!(State::load(Some("foo\nscaled"), &mut plan), Err(LoadError::UnknownMode));
    assert!(plan.steps.is_empty());
    assert_eq!(State::decode("foo\nscaled"), Err(LoadError::UnknownMode));
    assert_eq!(State::decode("TV\nscaled"), Err(LoadError::UnknownMode));
    assert_eq!(State::decode(" tv\nscaled"), Err(LoadError::UnknownMode));
    assert_eq!(State::decode("tv \nscaled"), Err(LoadError::UnknownMode));
    assert_eq!(State::decode("\ntv\nscaled"), Err(LoadError::UnknownMode));
    assert_eq!(State::decode("scaled\ntv"), Err(LoadError::UnknownMode));
}

#[test]
fn load_rejects_an_unknown_second_line() {
    assert_eq!(State::decode("tv\nfoo"), Err(LoadError::UnknownScaling));
    assert_eq!(State::decode("desktop\ndesktop"), Err(LoadError::UnknownScaling));
    assert_eq!(State::decode("desktop\n\nscaled"), Err(LoadError::UnknownScaling));
    assert_eq!(State::decode("tv\nScaled"), Err(LoadError::UnknownScaling));
}

#[test]
fn load_rejects_a_missing_line() {
    assert_eq!(State::decode(""), Err(LoadError::MissingLine));
    assert_eq!(State::decode("tv"), Err(LoadError::MissingLine));
    assert_eq!(State::decode("desktop\n"), Err(LoadError::MissingLine));
}

#[test]
fn an_unknown_first_line_is_reported_before_a_missing_second() {
    assert_eq!(State::decode("foo"), Err(LoadError::UnknownMode));
    assert_eq!(State::decode("\n"), Err(LoadError::UnknownMode));
}

#[test]
fn load_rejects_text_after_the_second_line() {
    assert_eq!(State::decode("tv\nscaled\nmore"), Err(LoadError::TrailingLine));
    assert_eq!(State::decode("tv\nscaled\n\n"), Err(LoadError::TrailingLine));
    assert_eq!(State::decode("tv\nscaled\ntv\nscaled"), Err(LoadError::TrailingLine));
}

#[test]
fn an_unknown_second_line_is_reported_before_trailing_text() {
    assert_eq!(State::decode("tv\nfoo\nmore"), Err(LoadError::UnknownScaling));
}

#[test]
fn a_final_line_ending_is_optional() {
    assert_eq!(State::decode("tv\nscaled\n"), Ok(State { tv: true, scaled: true }));
    assert_eq!(State::decode("desktop\nunscaled\n"), Ok(State { tv: false, scaled: false }));
}

#[test]
fn a_carriage_return_before_a_line_feed_belongs_to_the_line_ending() {
    assert_eq!(State::decode("tv\r\nscaled"), Ok(State { tv: true, scaled: true }));
    assert_eq!(State::decode("tv\r\nunscaled\r\n"), Ok(State { tv: true, scaled: false }));
}

#[test]
fn a_carriage_return_elsewhere_belongs_to_the_line() {
    assert_eq!(State::decode("tv\nscaled\r"), Err(LoadError::UnknownScaling));
    assert_eq!(State::decode("tv\r\r\nscaled"), Err(LoadError::UnknownMode));
    assert_eq!(State::decode("t\rv\nscaled"), Err(LoadError::UnknownMode));
}

#[test]
fn text_outside_ascii_is_read_character_by_character() {
    assert_eq!(State::decode("t\u{e9}l\u{e9}\nscaled"), Err(LoadError::UnknownMode));
    assert_eq!(State::decode("tv\nscaled\u{2028}"), Err(LoadError::UnknownScaling));
}

#[test]
fn each_error_has_its_own_diagnostic() {
    let all = [
        LoadError::MissingLine,
        LoadError::UnknownMode,
        LoadError::UnknownScaling,
        LoadError::TrailingLine,
    ];
    for (i, first) in all.iter().enumerate() {
        assert!(first.describe().starts_with("Invalid state file content: "));
        for second in &all[i + 1..] {
            assert_ne!(first.describe(), second.describe());
        }
    }
    assert_eq!(
        LoadError::UnknownMode.describe(),
        "Invalid state file content: the first line is neither `desktop` nor `tv`"
    );
}

#[test]
fn decoding_agrees_with_the_standard_library_on_line_endings() {
    let modes = ["desktop", "tv", "foo", ""];
    let scalings = ["scaled", "unscaled", "bar", ""];
    let breaks = ["", "\n", "\r\n", "\r", "\n\n", "\nx"];
    for mode in modes {
        for scaling in scalings {
            for middle in ["\n", "\r\n", "\r", ""] {
                for end in breaks {
                    let text = format!("{}{}{}{}", mode, middle, scaling, end);
                    let lines: Vec<&str> = text.lines().collect();
                    let expected = if lines.is_empty() {
                        Err(LoadError::MissingLine)
                    } else if lines[0] != "desktop" && lines[0] != "tv" {
                        Err(LoadError::UnknownMode)
                    } else if lines.len() < 2 {
                        Err(LoadError::MissingLine)
                    } else if lines[1] != "scaled" && lines[1] != "unscaled" {
                        Err(LoadError::UnknownScaling)
                    } else if lines.len() > 2 {
                        Err(LoadError::TrailingLine)
                    } else {
                        Ok(State { tv: lines[0] == "tv", scaled: lines[1] == "scaled" })
                    };
                    assert_eq!(State::decode(&text), expected, "text {:?}", text);
                }
            }
        }
    }
}
