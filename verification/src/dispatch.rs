//! From a subcommand and the content of the state file to a plan.

use vstd::prelude::*;
use crate::command::{Command, CommandView};
use crate::config::DESKTOP_AUDIO_SINK;
use crate::plan::{Plan, StepView};
use crate::state::{text_view, LoadError, State};
use crate::transition::{
    desktop_state, desktop_steps, fix_workspace_order, order_steps, scaled_steps, to_desktop,
    to_scaled, to_tv, to_unscaled, tv_state, tv_steps, unscaled_steps,
};

verus! {

/// What the user asks for.
#[derive(Clone, Copy, Debug, PartialEq, Eq, Structural)]
pub enum Action {
    /// Reset the state file and send sound to the desk.
    Init,
    /// Switch to the other mode.
    Toggle,
    /// Switch TV scaling to its other setting; nothing outside TV mode.
    ToggleScaling,
    /// Enter TV mode; nothing if already there.
    Tv,
    /// Leave TV mode; nothing if not there.
    Desktop,
    /// Switch TV scaling on; nothing outside TV mode or if it is on.
    Scaled,
    /// Switch TV scaling off; nothing outside TV mode or if it is off.
    Unscaled,
    /// Put the workspaces in their configured order.
    FixWorkspaceOrder,
}

impl Action {
    /// Whether the action starts from the persisted state. Only `Init`
    /// does not: it overwrites the state without reading it.
    pub open spec fn needs_state(self) -> bool {
        self != Action::Init
    }

    /// Whether the action starts from the persisted state.
    pub fn loads_state(&self) -> (needed: bool)
        ensures
            needed == self.needs_state(),
    {
        match self {
            Action::Init => false,
            _ => true,
        }
    }
}

/// What `Init` asks for.
pub open spec fn init_steps() -> Seq<StepView> {
    seq![
        StepView::Write(State::initial().encoding()),
        StepView::Run(CommandView::SetDefaultSink { sink: DESKTOP_AUDIO_SINK@ }),
    ]
}

/// What `action` asks for when the current state is `state`: the table of
/// guards. An action whose guard fails asks for nothing.
pub open spec fn action_steps(action: Action, state: State) -> Seq<StepView> {
    match action {
        Action::Init => init_steps(),
        Action::Toggle => if state.tv {
            desktop_steps(state)
        } else {
            tv_steps(state)
        },
        Action::ToggleScaling => if !state.tv {
            Seq::empty()
        } else if state.scaled {
            unscaled_steps(state)
        } else {
            scaled_steps(state)
        },
        Action::Tv => if !state.tv {
            tv_steps(state)
        } else {
            Seq::empty()
        },
        Action::Desktop => if state.tv {
            desktop_steps(state)
        } else {
            Seq::empty()
        },
        Action::Scaled => if state.tv && !state.scaled {
            scaled_steps(state)
        } else {
            Seq::empty()
        },
        Action::Unscaled => if state.tv && state.scaled {
            unscaled_steps(state)
        } else {
            Seq::empty()
        },
        Action::FixWorkspaceOrder => order_steps(state),
    }
}

/// The state that `action` leaves behind when the current state is `state`.
pub open spec fn action_state(action: Action, state: State) -> State {
    match action {
        Action::Init => State::initial(),
        Action::Toggle => if state.tv {
            desktop_state(state)
        } else {
            tv_state(state)
        },
        Action::ToggleScaling => if state.tv {
            State { tv: true, scaled: !state.scaled }
        } else {
            state
        },
        Action::Tv => if !state.tv {
            tv_state(state)
        } else {
            state
        },
        Action::Desktop => if state.tv {
            desktop_state(state)
        } else {
            state
        },
        Action::Scaled => if state.tv {
            State { tv: true, scaled: true }
        } else {
            state
        },
        Action::Unscaled => if state.tv {
            State { tv: true, scaled: false }
        } else {
            state
        },
        Action::FixWorkspaceOrder => state,
    }
}

/// What a whole invocation asks for, given the content of the state file
/// (`None` where there is no file), or why it asks for nothing at all.
pub open spec fn outcome(action: Action, file: Option<Seq<char>>) -> Result<
    Seq<StepView>,
    LoadError,
> {
    if !action.needs_state() {
        Ok(action_steps(action, State::initial()))
    } else {
        match State::loading(file) {
            Ok(state) => Ok(State::loading_steps(file) + action_steps(action, state)),
            Err(error) => Err(error),
        }
    }
}

/// Carries out `action` on `state`: checks the action's guard and, where it
/// holds, makes the transition.
pub fn apply(action: Action, state: State, plan: &mut Plan) -> (next: State)
    ensures
        next == action_state(action, state),
        final(plan)@ == old(plan)@ + action_steps(action, state),
{
    match action {
        Action::Init => {
            State::init(plan);
            plan.run(Command::SetDefaultSink { sink: DESKTOP_AUDIO_SINK });
            State::default()
        },
        Action::Toggle => {
            if state.tv {
                to_desktop(state, plan)
            } else {
                to_tv(state, plan)
            }
        },
        Action::ToggleScaling => {
            if state.tv {
                if state.scaled {
                    to_unscaled(state, plan)
                } else {
                    to_scaled(state, plan)
                }
            } else {
                state
            }
        },
        Action::Tv => {
            if !state.tv {
                to_tv(state, plan)
            } else {
                state
            }
        },
        Action::Desktop => {
            if state.tv {
                to_desktop(state, plan)
            } else {
                state
            }
        },
        Action::Scaled => {
            if state.tv && !state.scaled {
                to_scaled(state, plan)
            } else {
                state
            }
        },
        Action::Unscaled => {
            if state.tv && state.scaled {
                to_unscaled(state, plan)
            } else {
                state
            }
        },
        Action::FixWorkspaceOrder => {
            fix_workspace_order(state, plan);
            state
        },
    }
}

/// Plans a whole invocation. `file` is the content of the state file, or
/// `None` where there is no such file; `Init` does not look at it. A state
/// file that holds no state fails the invocation before anything is asked
/// for.
pub fn run(action: Action, file: Option<&str>) -> (result: Result<Plan, LoadError>)
    ensures
        match outcome(action, text_view(file)) {
            Ok(steps) => result is Ok && result->Ok_0@ == steps,
            Err(error) => result is Err && result->Err_0 == error,
        },
{
    let mut plan = Plan::new();
    let state = if action.loads_state() {
        match State::load(file, &mut plan) {
            Ok(state) => state,
            Err(error) => {
                return Err(error);
            },
        }
    } else {
        State::default()
    };
    apply(action, state, &mut plan);
    Ok(plan)
}

/// Entering the mode one is in asks for nothing: `Tv` in TV mode and
/// `Desktop` in desktop mode leave the state as it is and the plan empty.
pub proof fn lemma_mode_guard(state: State)
    ensures
        state.tv ==> action_steps(Action::Tv, state) == Seq::<StepView>::empty()
            && action_state(Action::Tv, state) == state,
        !state.tv ==> action_steps(Action::Desktop, state) == Seq::<StepView>::empty()
            && action_state(Action::Desktop, state) == state,
{
}

/// Outside TV mode the three scaling actions ask for nothing and leave the
/// state as it is.
pub proof fn lemma_scaling_guard(action: Action, state: State)
    requires
        !state.tv,
        action == Action::Scaled || action == Action::Unscaled || action == Action::ToggleScaling,
    ensures
        action_steps(action, state) == Seq::<StepView>::empty(),
        action_state(action, state) == state,
{
}

/// The guards hold for whole invocations too: on a state file that holds
/// `state`, an action whose guard fails yields the empty plan, so neither
/// the file nor the machine is touched.
pub proof fn lemma_guarded_invocation_is_empty(action: Action, text: Seq<char>, state: State)
    requires
        State::decoding(text) == Ok::<State, LoadError>(state),
        (action == Action::Tv && state.tv) || (action == Action::Desktop && !state.tv) || (!state.tv
            && (action == Action::Scaled || action == Action::Unscaled || action
            == Action::ToggleScaling)),
    ensures
        outcome(action, Some(text)) == Ok::<Seq<StepView>, LoadError>(Seq::empty()),
{
}

/// Leaving TV mode always ends with scaling on, whatever it was before.
pub proof fn lemma_desktop_resets_scaling(action: Action, state: State)
    requires
        state.tv,
        action == Action::Desktop || action == Action::Toggle,
    ensures
        action_state(action, state) == (State { tv: false, scaled: true }),
        action_steps(action, state)[0] == StepView::Write(
            (State { tv: false, scaled: true }).encoding(),
        ),
{
}

} // verus!
