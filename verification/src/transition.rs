//! The four mode transitions and the workspace reordering.
//!
//! None of them looks at the state it is given to decide whether to act:
//! the caller invokes a transition only where it changes something.

use vstd::prelude::*;
use crate::command::{Command, CommandView};
use crate::config::{
    desktop_layout, desktop_video_outputs, outputs_view, tv_layout, tv_video_output, VideoOutput,
    VideoOutputView, DESKTOP_AUDIO_SINK, DESKTOP_NOTICE, DESKTOP_SETTLE_SECS, TV_AUDIO_SINK,
    TV_NOTICE, TV_SCALE, TV_SETTLE_SECS, UNIT_SCALE,
};
use crate::plan::{Plan, StepView};
use crate::state::State;

verus! {

/// The overlay on each of the screens `0..count`, in that order.
pub open spec fn notice_steps(count: nat, text: Seq<char>) -> Seq<StepView> {
    Seq::new(count, |i: int| StepView::Run(CommandView::Notify { screen: i as nat, text }))
}

/// Every workspace of `output` moved to that output, in the output's order.
pub open spec fn gather_steps(output: VideoOutputView) -> Seq<StepView> {
    Seq::new(
        output.workspaces.len(),
        |i: int|
            StepView::Run(
                CommandView::MoveWorkspaceToMonitor {
                    workspace: output.workspaces[i],
                    output: output.output,
                },
            ),
    )
}

/// Every workspace of `output` moved to its place, the first to index 1.
pub open spec fn index_steps(output: VideoOutputView) -> Seq<StepView> {
    Seq::new(
        output.workspaces.len(),
        |i: int|
            StepView::Run(
                CommandView::MoveWorkspaceToIndex {
                    workspace: output.workspaces[i],
                    index: (i + 1) as nat,
                },
            ),
    )
}

/// Each of `outputs` switched on, in order.
pub open spec fn enable_steps(outputs: Seq<VideoOutputView>) -> Seq<StepView> {
    outputs.map_values(
        |o: VideoOutputView| StepView::Run(CommandView::OutputOn { output: o.output }),
    )
}

/// Each of `outputs` switched off, in order.
pub open spec fn disable_steps(outputs: Seq<VideoOutputView>) -> Seq<StepView> {
    outputs.map_values(
        |o: VideoOutputView| StepView::Run(CommandView::OutputOff { output: o.output }),
    )
}

/// The workspaces of each of `outputs` gathered on it, output after output.
pub open spec fn gather_all_steps(outputs: Seq<VideoOutputView>) -> Seq<StepView> {
    outputs.map_values(|o: VideoOutputView| gather_steps(o)).flatten()
}

/// The workspaces of each of `outputs` put in order, output after output,
/// each output counting from 1.
pub open spec fn index_all_steps(outputs: Seq<VideoOutputView>) -> Seq<StepView> {
    outputs.map_values(|o: VideoOutputView| index_steps(o)).flatten()
}

/// What reordering asks for: in TV mode the TV output's order, else each
/// monitor's own.
pub open spec fn order_steps(state: State) -> Seq<StepView> {
    if state.tv {
        index_steps(tv_layout())
    } else {
        index_all_steps(desktop_layout())
    }
}

/// The state after entering TV mode.
pub open spec fn tv_state(state: State) -> State {
    State { tv: true, scaled: state.scaled }
}

/// The state after leaving TV mode: scaling is on again, whatever it was.
pub open spec fn desktop_state(state: State) -> State {
    State { tv: false, scaled: true }
}

/// What entering TV mode asks for.
pub open spec fn tv_steps(state: State) -> Seq<StepView> {
    seq![StepView::Write(tv_state(state).encoding())]
        + notice_steps(desktop_layout().len(), TV_NOTICE@)
        + seq![
            StepView::Run(CommandView::OutputOn { output: tv_layout().output }),
            StepView::Wait(TV_SETTLE_SECS),
        ]
        + gather_steps(tv_layout())
        + order_steps(tv_state(state))
        + seq![StepView::Wait(TV_SETTLE_SECS)]
        + disable_steps(desktop_layout())
        + seq![StepView::Run(CommandView::SetDefaultSink { sink: TV_AUDIO_SINK@ })]
}

/// What leaving TV mode asks for.
pub open spec fn desktop_steps(state: State) -> Seq<StepView> {
    seq![
        StepView::Write(desktop_state(state).encoding()),
        StepView::Run(CommandView::OutputScale { output: tv_layout().output, scale: TV_SCALE@ }),
        StepView::Run(CommandView::Notify { screen: 0, text: DESKTOP_NOTICE@ }),
    ]
        + enable_steps(desktop_layout())
        + seq![
            StepView::Wait(DESKTOP_SETTLE_SECS),
            StepView::Run(CommandView::OutputOff { output: tv_layout().output }),
        ]
        + gather_all_steps(desktop_layout())
        + order_steps(desktop_state(state))
        + seq![StepView::Run(CommandView::SetDefaultSink { sink: DESKTOP_AUDIO_SINK@ })]
}

/// What switching TV scaling on asks for.
pub open spec fn scaled_steps(state: State) -> Seq<StepView> {
    seq![
        StepView::Write((State { tv: state.tv, scaled: true }).encoding()),
        StepView::Run(CommandView::OutputScale { output: tv_layout().output, scale: TV_SCALE@ }),
    ]
}

/// What switching TV scaling off asks for.
pub open spec fn unscaled_steps(state: State) -> Seq<StepView> {
    seq![
        StepView::Write((State { tv: state.tv, scaled: false }).encoding()),
        StepView::Run(CommandView::OutputScale { output: tv_layout().output, scale: UNIT_SCALE@ }),
    ]
}

/// Asks for the overlay on each of the screens `0..count`.
fn notify_screens(count: usize, text: &'static str, plan: &mut Plan)
    ensures
        final(plan)@ == old(plan)@ + notice_steps(count as nat, text@),
{
    let mut i: usize = 0;
    while i < count
        invariant
            i <= count,
            plan@ == old(plan)@ + notice_steps(i as nat, text@),
        decreases count - i,
    {
        plan.run(Command::Notify { screen: i, text });
        i += 1;
    }
}

/// Asks for every workspace of `output` to be moved to it.
fn gather_workspaces(output: &VideoOutput, plan: &mut Plan)
    ensures
        final(plan)@ == old(plan)@ + gather_steps(output@),
{
    let mut i: usize = 0;
    while i < output.workspaces.len()
        invariant
            i <= output.workspaces.len(),
            plan@ == old(plan)@ + gather_steps(output@).take(i as int),
        decreases output.workspaces.len() - i,
    {
        plan.run(
            Command::MoveWorkspaceToMonitor {
                workspace: output.workspaces[i],
                output: output.output,
            },
        );
        i += 1;
    }
}

/// Asks for every workspace of `output` to be moved to its place.
fn index_workspaces(output: &VideoOutput, plan: &mut Plan)
    ensures
        final(plan)@ == old(plan)@ + index_steps(output@),
{
    let mut i: usize = 0;
    while i < output.workspaces.len()
        invariant
            i <= output.workspaces.len(),
            plan@ == old(plan)@ + index_steps(output@).take(i as int),
        decreases output.workspaces.len() - i,
    {
        plan.run(
            Command::MoveWorkspaceToIndex { workspace: output.workspaces[i], index: i + 1 },
        );
        i += 1;
    }
}

/// Asks for each of `outputs` to be switched on.
fn enable_outputs(outputs: &Vec<VideoOutput>, plan: &mut Plan)
    ensures
        final(plan)@ == old(plan)@ + enable_steps(outputs_view(outputs@)),
{
    let mut i: usize = 0;
    while i < outputs.len()
        invariant
            i <= outputs.len(),
            plan@ == old(plan)@ + enable_steps(outputs_view(outputs@)).take(i as int),
        decreases outputs.len() - i,
    {
        plan.run(Command::OutputOn { output: outputs[i].output });
        i += 1;
    }
}

/// Asks for each of `outputs` to be switched off.
fn disable_outputs(outputs: &Vec<VideoOutput>, plan: &mut Plan)
    ensures
        final(plan)@ == old(plan)@ + disable_steps(outputs_view(outputs@)),
{
    let mut i: usize = 0;
    while i < outputs.len()
        invariant
            i <= outputs.len(),
            plan@ == old(plan)@ + disable_steps(outputs_view(outputs@)).take(i as int),
        decreases outputs.len() - i,
    {
        plan.run(Command::OutputOff { output: outputs[i].output });
        i += 1;
    }
}

/// Asks for the workspaces of each of `outputs` to be gathered on it.
fn gather_all(outputs: &Vec<VideoOutput>, plan: &mut Plan)
    ensures
        final(plan)@ == old(plan)@ + gather_all_steps(outputs_view(outputs@)),
{
    let ghost per_output = outputs_view(outputs@).map_values(|o: VideoOutputView| gather_steps(o));
    let mut i: usize = 0;
    while i < outputs.len()
        invariant
            i <= outputs.len(),
            per_output == outputs_view(outputs@).map_values(|o: VideoOutputView| gather_steps(o)),
            plan@ == old(plan)@ + per_output.take(i as int).flatten(),
        decreases outputs.len() - i,
    {
        gather_workspaces(&outputs[i], plan);
        proof {
            assert(per_output.take(i + 1) =~= per_output.take(i as int).push(per_output[i as int]));
            per_output.take(i as int).lemma_flatten_push(per_output[i as int]);
        }
        i += 1;
    }
    assert(per_output.take(outputs.len() as int) =~= per_output);
}

/// Asks for the workspaces of each of `outputs` to be put in order.
fn index_all(outputs: &Vec<VideoOutput>, plan: &mut Plan)
    ensures
        final(plan)@ == old(plan)@ + index_all_steps(outputs_view(outputs@)),
{
    let ghost per_output = outputs_view(outputs@).map_values(|o: VideoOutputView| index_steps(o));
    let mut i: usize = 0;
    while i < outputs.len()
        invariant
            i <= outputs.len(),
            per_output == outputs_view(outputs@).map_values(|o: VideoOutputView| index_steps(o)),
            plan@ == old(plan)@ + per_output.take(i as int).flatten(),
        decreases outputs.len() - i,
    {
        index_workspaces(&outputs[i], plan);
        proof {
            assert(per_output.take(i + 1) =~= per_output.take(i as int).push(per_output[i as int]));
            per_output.take(i as int).lemma_flatten_push(per_output[i as int]);
        }
        i += 1;
    }
    assert(per_output.take(outputs.len() as int) =~= per_output);
}

/// Puts the workspaces of the active outputs in their configured order.
pub fn fix_workspace_order(state: State, plan: &mut Plan)
    ensures
        final(plan)@ == old(plan)@ + order_steps(state),
{
    if state.tv {
        let tv = tv_video_output();
        index_workspaces(&tv, plan);
    } else {
        let desktop = desktop_video_outputs();
        index_all(&desktop, plan);
    }
}

/// Leaves TV mode: the monitors come on, the TV goes off, every workspace
/// returns to its monitor, and sound goes to the desk. Scaling is switched
/// back on, in the state and on the TV output, before anything else.
pub fn to_desktop(state: State, plan: &mut Plan) -> (next: State)
    ensures
        next == desktop_state(state),
        !next.tv,
        next.scaled,
        final(plan)@ == old(plan)@ + desktop_steps(state),
{
    let next = State { tv: false, scaled: true };
    let desktop = desktop_video_outputs();
    let tv = tv_video_output();
    next.save(plan);
    plan.run(Command::OutputScale { output: tv.output, scale: TV_SCALE });
    plan.run(Command::Notify { screen: 0, text: DESKTOP_NOTICE });
    enable_outputs(&desktop, plan);
    plan.wait(DESKTOP_SETTLE_SECS);
    plan.run(Command::OutputOff { output: tv.output });
    gather_all(&desktop, plan);
    fix_workspace_order(next, plan);
    plan.run(Command::SetDefaultSink { sink: DESKTOP_AUDIO_SINK });
    next
}

/// Enters TV mode: the TV comes on, takes every workspace, the monitors go
/// off, and sound goes to the TV.
pub fn to_tv(state: State, plan: &mut Plan) -> (next: State)
    ensures
        next == tv_state(state),
        final(plan)@ == old(plan)@ + tv_steps(state),
{
    let next = State { tv: true, scaled: state.scaled };
    let desktop = desktop_video_outputs();
    let tv = tv_video_output();
    next.save(plan);
    notify_screens(desktop.len(), TV_NOTICE, plan);
    plan.run(Command::OutputOn { output: tv.output });
    plan.wait(TV_SETTLE_SECS);
    gather_workspaces(&tv, plan);
    fix_workspace_order(next, plan);
    plan.wait(TV_SETTLE_SECS);
    disable_outputs(&desktop, plan);
    plan.run(Command::SetDefaultSink { sink: TV_AUDIO_SINK });
    next
}

/// Switches TV scaling on. Meant for TV mode; the TV output's scale is set
/// whether or not the output is on.
pub fn to_scaled(state: State, plan: &mut Plan) -> (next: State)
    ensures
        next == (State { tv: state.tv, scaled: true }),
        final(plan)@ == old(plan)@ + scaled_steps(state),
{
    let next = State { tv: state.tv, scaled: true };
    let tv = tv_video_output();
    next.save(plan);
    plan.run(Command::OutputScale { output: tv.output, scale: TV_SCALE });
    next
}

/// Switches TV scaling off. Meant for TV mode; the TV output's scale is set
/// whether or not the output is on.
pub fn to_unscaled(state: State, plan: &mut Plan) -> (next: State)
    ensures
        next == (State { tv: state.tv, scaled: false }),
        final(plan)@ == old(plan)@ + unscaled_steps(state),
{
    let next = State { tv: state.tv, scaled: false };
    let tv = tv_video_output();
    next.save(plan);
    plan.run(Command::OutputScale { output: tv.output, scale: UNIT_SCALE });
    next
}

} // verus!
