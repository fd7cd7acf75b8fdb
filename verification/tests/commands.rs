use tv_switch::command::Command;
use tv_switch::config::{
    desktop_video_outputs, tv_video_output, VideoOutput, DESKTOP_AUDIO_SINK, DESKTOP_NOTICE,
    DESKTOP_SETTLE_SECS, STATE_FILE_PATH, TV_AUDIO_SINK, TV_NOTICE, TV_OUTPUT, TV_SCALE,
    TV_SETTLE_SECS, UNIT_SCALE,
};
use tv_switch::decimal::push_decimal;

fn written(n: usize) -> String {
    let mut line = String::new();
    push_decimal(&mut line, n);
    line
}

#[test]
fn decimal_of_single_digits() {
    assert_eq!(written(0), "0");
    assert_eq!(written(1), "1");
    assert_eq!(written(9), "9");
}

#[test]
fn decimal_of_longer_numbers() {
    assert_eq!(written(10), "10");
    assert_eq!(written(11), "11");
    assert_eq!(written(100), "100");
    assert_eq!(written(1234567890), "1234567890");
    assert_eq!(written(usize::MAX), usize::MAX.to_string());
}

#[test]
fn decimal_appends_to_the_line() {
    let mut line = String::from("index ");
    push_decimal(&mut line, 42);
    assert_eq!(line, "index 42");
}

#[test]
fn line_of_notify() {
    let command = Command::Notify { screen: 2, text: "Switching to TV..." };
    assert_eq!(
        command.line(),
        "eww open tv-transition --id 2 --screen 2 --arg text='Switching to TV...' --duration 3s"
    );
    let command = Command::Notify { screen: 0, text: "Switching to Desktop..." };
    assert_eq!(
        command.line(),
        "eww open tv-transition --id 0 --screen 0 --arg text='Switching to Desktop...' --duration 3s"
    );
    let command = Command::Notify { screen: 12, text: "" };
    assert_eq!(
        command.line(),
        "eww open tv-transition --id 12 --screen 12 --arg text='' --duration 3s"
    );
}

#[test]
fn line_of_output_on_and_off() {
    assert_eq!(Command::OutputOn { output: "HDMI-A-1" }.line(), "niri msg output HDMI-A-1 on");
    assert_eq!(Command::OutputOff { output: "DP-2" }.line(), "niri msg output DP-2 off");
}

#[test]
fn line_of_output_scale() {
    assert_eq!(
        Command::OutputScale { output: "HDMI-A-1", scale: "2.0" }.line(),
        "niri msg output HDMI-A-1 scale 2.0"
    );
    assert_eq!(
        Command::OutputScale { output: "HDMI-A-1", scale: "1.0" }.line(),
        "niri msg output HDMI-A-1 scale 1.0"
    );
}

#[test]
fn line_of_workspace_moves() {
    assert_eq!(
        Command::MoveWorkspaceToMonitor { workspace: "games", output: "DP-2" }.line(),
        "niri msg action move-workspace-to-monitor --reference games DP-2"
    );
    assert_eq!(
        Command::MoveWorkspaceToIndex { workspace: "web-dp3", index: 6 }.line(),
        "niri msg action move-workspace-to-index --reference web-dp3 6"
    );
    assert_eq!(
        Command::MoveWorkspaceToIndex { workspace: "w", index: 10 }.line(),
        "niri msg action move-workspace-to-index --reference w 10"
    );
}

#[test]
fn line_of_set_default_sink() {
    assert_eq!(
        Command::SetDefaultSink { sink: "alsa_output.pci-0000_0a_00.4.analog-stereo" }.line(),
        "pactl set-default-sink alsa_output.pci-0000_0a_00.4.analog-stereo"
    );
}

#[test]
fn arguments_are_not_quoted() {
    assert_eq!(Command::OutputOn { output: "a b" }.line(), "niri msg output a b on");
}

#[test]
fn configured_constants() {
    assert_eq!(STATE_FILE_PATH, "/tmp/tv.state");
    assert_eq!(DESKTOP_AUDIO_SINK, "alsa_output.pci-0000_0a_00.4.analog-stereo");
    assert_eq!(TV_AUDIO_SINK, "alsa_output.pci-0000_08_00.1.hdmi-stereo");
    assert_eq!(TV_SCALE, "2.0");
    assert_eq!(UNIT_SCALE, "1.0");
    assert_eq!(TV_OUTPUT, "HDMI-A-1");
    assert_eq!(TV_NOTICE, "Switching to TV...");
    assert_eq!(DESKTOP_NOTICE, "Switching to Desktop...");
    assert_eq!(TV_SETTLE_SECS, 1);
    assert_eq!(DESKTOP_SETTLE_SECS, 2);
}

#[test]
fn configured_tv_output() {
    assert_eq!(
        tv_video_output(),
        VideoOutput {
            output: "HDMI-A-1",
            workspaces: vec!["games", "utils", "chat", "web-dp1", "web-dp2", "web-dp3"],
        }
    );
}

#[test]
fn configured_desktop_outputs() {
    assert_eq!(
        desktop_video_outputs(),
        vec![
            VideoOutput { output: "DP-1", workspaces: vec!["web-dp1"] },
            VideoOutput { output: "DP-2", workspaces: vec!["games", "web-dp2"] },
            VideoOutput { output: "DP-3", workspaces: vec!["utils", "chat", "web-dp3"] },
        ]
    );
}

#[test]
fn the_tv_takes_exactly_the_workspaces_of_the_monitors() {
    let mut of_monitors: Vec<&str> = Vec::new();
    for output in desktop_video_outputs() {
        for workspace in output.workspaces {
            assert!(!of_monitors.contains(&workspace));
            of_monitors.push(workspace);
        }
    }
    let mut of_tv = tv_video_output().workspaces;
    of_monitors.sort();
    of_tv.sort();
    assert_eq!(of_monitors, of_tv);
}
