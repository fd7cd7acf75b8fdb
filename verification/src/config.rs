//! The workstation this library is built for: its outputs, the workspaces
//! that live on each, its audio sinks and the timings that the window
//! manager needs.

use vstd::prelude::*;

verus! {

/// Where the mode record is kept between invocations.
pub const STATE_FILE_PATH: &'static str = "/tmp/tv.state";

/// The audio sink used at the desk.
pub const DESKTOP_AUDIO_SINK: &'static str = "alsa_output.pci-0000_0a_00.4.analog-stereo";

/// The audio sink of the TV.
pub const TV_AUDIO_SINK: &'static str = "alsa_output.pci-0000_08_00.1.hdmi-stereo";

/// The scale factor of the TV output while scaling is on.
pub const TV_SCALE: &'static str = "2.0";

/// The scale factor of the TV output while scaling is off.
pub const UNIT_SCALE: &'static str = "1.0";

/// The identifier of the TV output.
pub const TV_OUTPUT: &'static str = "HDMI-A-1";

/// Overlay text shown while switching to the TV.
pub const TV_NOTICE: &'static str = "Switching to TV...";

/// Overlay text shown while switching to the desk.
pub const DESKTOP_NOTICE: &'static str = "Switching to Desktop...";

/// Seconds to wait around the workspace moves when entering TV mode.
pub const TV_SETTLE_SECS: u64 = 1;

/// Seconds to wait after enabling the monitors when leaving TV mode.
pub const DESKTOP_SETTLE_SECS: u64 = 2;

/// An output together with the workspaces that belong on it.
#[derive(Clone, Debug, PartialEq, Eq)]
pub struct VideoOutput {
    /// The identifier by which the window manager knows the output.
    pub output: &'static str,
    /// The workspaces of this output, in the order in which they are laid out.
    pub workspaces: Vec<&'static str>,
}

/// What a [`VideoOutput`] stands for.
pub struct VideoOutputView {
    pub output: Seq<char>,
    pub workspaces: Seq<Seq<char>>,
}

impl View for VideoOutput {
    type V = VideoOutputView;

    open spec fn view(&self) -> VideoOutputView {
        VideoOutputView {
            output: self.output@,
            workspaces: self.workspaces@.map_values(|w: &'static str| w@),
        }
    }
}

/// The views of a list of outputs, in order.
pub open spec fn outputs_view(outputs: Seq<VideoOutput>) -> Seq<VideoOutputView> {
    outputs.map_values(|o: VideoOutput| o@)
}

/// The TV output: it takes every workspace while TV mode lasts.
pub open spec fn tv_layout() -> VideoOutputView {
    VideoOutputView {
        output: TV_OUTPUT@,
        workspaces: seq!["games"@, "utils"@, "chat"@, "web-dp1"@, "web-dp2"@, "web-dp3"@],
    }
}

/// The monitors at the desk, in display order, each with its own workspaces.
pub open spec fn desktop_layout() -> Seq<VideoOutputView> {
    seq![
        VideoOutputView { output: "DP-1"@, workspaces: seq!["web-dp1"@] },
        VideoOutputView { output: "DP-2"@, workspaces: seq!["games"@, "web-dp2"@] },
        VideoOutputView { output: "DP-3"@, workspaces: seq!["utils"@, "chat"@, "web-dp3"@] },
    ]
}

/// The TV output.
pub fn tv_video_output() -> (out: VideoOutput)
    ensures
        out@ == tv_layout(),
{
    let out = VideoOutput {
        output: TV_OUTPUT,
        workspaces: vec!["games", "utils", "chat", "web-dp1", "web-dp2", "web-dp3"],
    };
    assert(out@.workspaces =~= tv_layout().workspaces);
    out
}

/// The monitors at the desk, in display order.
pub fn desktop_video_outputs() -> (outputs: Vec<VideoOutput>)
    ensures
        outputs_view(outputs@) == desktop_layout(),
{
    let first = VideoOutput { output: "DP-1", workspaces: vec!["web-dp1"] };
    let second = VideoOutput { output: "DP-2", workspaces: vec!["games", "web-dp2"] };
    let third = VideoOutput { output: "DP-3", workspaces: vec!["utils", "chat", "web-dp3"] };
    assert(first@.workspaces =~= desktop_layout()[0].workspaces);
    assert(second@.workspaces =~= desktop_layout()[1].workspaces);
    assert(third@.workspaces =~= desktop_layout()[2].workspaces);
    vec![first, second, third]
}

/// The workspaces of the monitors, monitor after monitor.
pub open spec fn desktop_workspaces() -> Seq<Seq<char>> {
    desktop_layout().map_values(|o: VideoOutputView| o.workspaces).flatten()
}

/// The monitors share the workspaces out among themselves: no workspace is
/// on two monitors, or twice on one, and the TV output takes just the
/// workspaces of the monitors, each once.
pub proof fn lemma_layout_partition()
    ensures
        desktop_workspaces().no_duplicates(),
        tv_layout().workspaces.no_duplicates(),
        forall|w: Seq<char>|
            desktop_workspaces().contains(w) <==> tv_layout().workspaces.contains(w),
{
    reveal_strlit("games");
    reveal_strlit("utils");
    reveal_strlit("chat");
    reveal_strlit("web-dp1");
    reveal_strlit("web-dp2");
    reveal_strlit("web-dp3");
    let games = "games"@;
    let utils = "utils"@;
    let chat = "chat"@;
    let web1 = "web-dp1"@;
    let web2 = "web-dp2"@;
    let web3 = "web-dp3"@;
    assert(games[0] != utils[0]);
    assert(web1[6] != web2[6] && web1[6] != web3[6] && web2[6] != web3[6]);
    assert(web1.len() == 7 && web2.len() == 7 && web3.len() == 7);
    let desk = desktop_workspaces();
    let tv = tv_layout().workspaces;
    assert(desk =~= seq![web1, games, web2, utils, chat, web3]) by {
        reveal_with_fuel(Seq::flatten, 4);
    }
    assert forall|i: int, j: int| 0 <= i < j < 6 implies tv[i] != tv[j] && desk[i] != desk[j] by {}
}

} // verus!
