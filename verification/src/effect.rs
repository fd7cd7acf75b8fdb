//! What carrying out a plan does to the state file.

use vstd::prelude::*;
use crate::config::{desktop_layout, VideoOutputView};
use crate::dispatch::{action_state, action_steps, outcome, Action};
use crate::plan::StepView;
use crate::state::{lemma_save_then_load, LoadError, State};
use crate::transition::{
    desktop_state, desktop_steps, gather_all_steps, gather_steps, index_all_steps, index_steps,
    order_steps, scaled_steps, tv_state, tv_steps, unscaled_steps,
};

verus! {

/// The content of the state file once `steps` have been carried out, where
/// it was `file` before (`None`: no such file): the text of the last write,
/// or `file` where nothing is written.
pub open spec fn file_after(file: Option<Seq<char>>, steps: Seq<StepView>) -> Option<Seq<char>>
    decreases steps.len(),
{
    if steps.len() == 0 {
        file
    } else {
        match steps.last() {
            StepView::Write(text) => Some(text),
            _ => file_after(file, steps.drop_last()),
        }
    }
}

/// Whether no step of `steps` writes the state file.
pub open spec fn leaves_file(steps: Seq<StepView>) -> bool {
    forall|i: int| 0 <= i < steps.len() ==> !((#[trigger] steps[i]) is Write)
}

/// Steps that write nothing leave the state file as it was.
pub proof fn lemma_file_untouched(file: Option<Seq<char>>, steps: Seq<StepView>)
    requires
        leaves_file(steps),
    ensures
        file_after(file, steps) == file,
    decreases steps.len(),
{
    if steps.len() > 0 {
        lemma_file_untouched(file, steps.drop_last());
    }
}

/// After a write that no other write follows, the state file holds the
/// text of that write, whatever came before.
pub proof fn lemma_file_written(
    file: Option<Seq<char>>,
    before: Seq<StepView>,
    text: Seq<char>,
    after: Seq<StepView>,
)
    requires
        leaves_file(after),
    ensures
        file_after(file, before + seq![StepView::Write(text)] + after) == Some(text),
    decreases after.len(),
{
    let steps = before + seq![StepView::Write(text)] + after;
    if after.len() > 0 {
        lemma_file_written(file, before, text, after.drop_last());
        assert(steps.drop_last() =~= before + seq![StepView::Write(text)] + after.drop_last());
    }
}

/// Where none of several lists of steps writes the state file, neither do
/// they all in a row.
proof fn lemma_flatten_leaves_file(parts: Seq<Seq<StepView>>)
    requires
        forall|i: int| 0 <= i < parts.len() ==> leaves_file(#[trigger] parts[i]),
    ensures
        leaves_file(parts.flatten()),
    decreases parts.len(),
{
    if parts.len() > 0 {
        lemma_flatten_leaves_file(parts.drop_first());
    }
}

/// Moving workspaces about writes nothing to the state file.
proof fn lemma_moves_leave_file(outputs: Seq<VideoOutputView>)
    ensures
        leaves_file(gather_all_steps(outputs)),
        leaves_file(index_all_steps(outputs)),
{
    lemma_flatten_leaves_file(outputs.map_values(|o: VideoOutputView| gather_steps(o)));
    lemma_flatten_leaves_file(outputs.map_values(|o: VideoOutputView| index_steps(o)));
}

/// Reordering the workspaces writes nothing to the state file.
pub proof fn lemma_order_leaves_file(state: State)
    ensures
        leaves_file(order_steps(state)),
{
    lemma_moves_leave_file(desktop_layout());
}

/// Each transition writes the state file once, as its first step, with the
/// text of the state that it leaves.
pub proof fn lemma_transitions_write_first(state: State)
    ensures
        tv_steps(state)[0] == StepView::Write(tv_state(state).encoding()),
        leaves_file(tv_steps(state).skip(1)),
        desktop_steps(state)[0] == StepView::Write(desktop_state(state).encoding()),
        leaves_file(desktop_steps(state).skip(1)),
        scaled_steps(state)[0] == StepView::Write((State { tv: state.tv, scaled: true }).encoding()),
        leaves_file(scaled_steps(state).skip(1)),
        unscaled_steps(state)[0] == StepView::Write(
            (State { tv: state.tv, scaled: false }).encoding(),
        ),
        leaves_file(unscaled_steps(state).skip(1)),
{
    lemma_moves_leave_file(desktop_layout());
    lemma_order_leaves_file(tv_state(state));
    lemma_order_leaves_file(desktop_state(state));
}

/// A successful invocation leaves a state file behind, and that file holds
/// the state that the action leaves: the initial state after `Init`, else
/// what the action makes of the state that was loaded.
pub proof fn lemma_invocation_persists_state(action: Action, file: Option<Seq<char>>)
    requires
        outcome(action, file) is Ok,
    ensures
        ({
            let steps = outcome(action, file)->Ok_0;
            let start = if action.needs_state() {
                State::loading(file)->Ok_0
            } else {
                State::initial()
            };
            State::loading(file_after(file, steps)) == Ok::<State, LoadError>(
                action_state(action, start),
            )
        }),
{
    let steps = outcome(action, file)->Ok_0;
    let start = if action.needs_state() {
        State::loading(file)->Ok_0
    } else {
        State::initial()
    };
    let next = action_state(action, start);
    let loaded = if action.needs_state() {
        State::loading_steps(file)
    } else {
        Seq::empty()
    };
    let acted = action_steps(action, start);
    assert(steps =~= loaded + acted);
    lemma_save_then_load(next);
    lemma_save_then_load(State::initial());
    lemma_transitions_write_first(start);
    lemma_order_leaves_file(start);
    if acted.len() > 0 && acted[0] is Write {
        assert(steps =~= loaded + seq![acted[0]] + acted.skip(1));
        lemma_file_written(file, loaded, next.encoding(), acted.skip(1));
    } else {
        assert(leaves_file(acted));
        if file is None && action.needs_state() {
            assert(steps =~= Seq::<StepView>::empty() + seq![loaded[0]] + acted);
            lemma_file_written(file, Seq::empty(), State::initial().encoding(), acted);
        } else {
            lemma_file_untouched(file, steps);
        }
    }
}

} // verus!
