//! The commands that a plan asks for, and the shell line of each.
//!
//! Three programs are driven: `niri msg` (the window manager), `pactl` (the
//! audio server) and `eww` (the overlay widget). A command is kept as its
//! parts; [`Command::line`] gives the text that a shell is to run.

use vstd::prelude::*;
use vstd::string::*;
use crate::decimal::{decimal, push_decimal};

verus! {

/// One invocation of an outside program.
#[derive(Clone, Copy, Debug, PartialEq, Eq)]
pub enum Command {
    /// Show the transition overlay with `text` on the screen numbered `screen`.
    Notify { screen: usize, text: &'static str },
    /// Switch an output on.
    OutputOn { output: &'static str },
    /// Switch an output off.
    OutputOff { output: &'static str },
    /// Set the scale factor of an output.
    OutputScale { output: &'static str, scale: &'static str },
    /// Move the workspace named `workspace` to the monitor `output`.
    MoveWorkspaceToMonitor { workspace: &'static str, output: &'static str },
    /// Move the workspace named `workspace` to position `index` on its monitor.
    MoveWorkspaceToIndex { workspace: &'static str, index: usize },
    /// Make `sink` the default audio sink.
    SetDefaultSink { sink: &'static str },
}

/// What a [`Command`] stands for.
pub enum CommandView {
    Notify { screen: nat, text: Seq<char> },
    OutputOn { output: Seq<char> },
    OutputOff { output: Seq<char> },
    OutputScale { output: Seq<char>, scale: Seq<char> },
    MoveWorkspaceToMonitor { workspace: Seq<char>, output: Seq<char> },
    MoveWorkspaceToIndex { workspace: Seq<char>, index: nat },
    SetDefaultSink { sink: Seq<char> },
}

impl View for Command {
    type V = CommandView;

    open spec fn view(&self) -> CommandView {
        match *self {
            Command::Notify { screen, text } => CommandView::Notify {
                screen: screen as nat,
                text: text@,
            },
            Command::OutputOn { output } => CommandView::OutputOn { output: output@ },
            Command::OutputOff { output } => CommandView::OutputOff { output: output@ },
            Command::OutputScale { output, scale } => CommandView::OutputScale {
                output: output@,
                scale: scale@,
            },
            Command::MoveWorkspaceToMonitor { workspace, output } => {
                CommandView::MoveWorkspaceToMonitor { workspace: workspace@, output: output@ }
            },
            Command::MoveWorkspaceToIndex { workspace, index } => {
                CommandView::MoveWorkspaceToIndex { workspace: workspace@, index: index as nat }
            },
            Command::SetDefaultSink { sink } => CommandView::SetDefaultSink { sink: sink@ },
        }
    }
}

impl CommandView {
    /// The shell line of this command. Arguments are set into the line as
    /// they are, with no quoting.
    pub open spec fn line(self) -> Seq<char> {
        match self {
            CommandView::Notify { screen, text } => "eww open tv-transition --id "@ + decimal(
                screen,
            ) + " --screen "@ + decimal(screen) + " --arg text='"@ + text + "' --duration 3s"@,
            CommandView::OutputOn { output } => "niri msg output "@ + output + " on"@,
            CommandView::OutputOff { output } => "niri msg output "@ + output + " off"@,
            CommandView::OutputScale { output, scale } => "niri msg output "@ + output
                + " scale "@ + scale,
            CommandView::MoveWorkspaceToMonitor { workspace, output } =>
                "niri msg action move-workspace-to-monitor --reference "@ + workspace + " "@
                    + output,
            CommandView::MoveWorkspaceToIndex { workspace, index } =>
                "niri msg action move-workspace-to-index --reference "@ + workspace + " "@
                    + decimal(index),
            CommandView::SetDefaultSink { sink } => "pactl set-default-sink "@ + sink,
        }
    }
}

impl Command {
    /// The shell line of this command.
    pub fn line(&self) -> (text: String)
        ensures
            text@ == self@.line(),
    {
        match *self {
            Command::Notify { screen, text } => {
                let mut line = String::from_str("eww open tv-transition --id ");
                push_decimal(&mut line, screen);
                line.append(" --screen ");
                push_decimal(&mut line, screen);
                line.append(" --arg text='");
                line.append(text);
                line.append("' --duration 3s");
                line
            },
            Command::OutputOn { output } => {
                let mut line = String::from_str("niri msg output ");
                line.append(output);
                line.append(" on");
                line
            },
            Command::OutputOff { output } => {
                let mut line = String::from_str("niri msg output ");
                line.append(output);
                line.append(" off");
                line
            },
            Command::OutputScale { output, scale } => {
                let mut line = String::from_str("niri msg output ");
                line.append(output);
                line.append(" scale ");
                line.append(scale);
                line
            },
            Command::MoveWorkspaceToMonitor { workspace, output } => {
                let mut line = String::from_str(
                    "niri msg action move-workspace-to-monitor --reference ",
                );
                line.append(workspace);
                line.append(" ");
                line.append(output);
                line
            },
            Command::MoveWorkspaceToIndex { workspace, index } => {
                let mut line = String::from_str(
                    "niri msg action move-workspace-to-index --reference ",
                );
                line.append(workspace);
                line.append(" ");
                push_decimal(&mut line, index);
                line
            },
            Command::SetDefaultSink { sink } => {
                let mut line = String::from_str("pactl set-default-sink ");
                line.append(sink);
                line
            },
        }
    }
}

} // verus!
