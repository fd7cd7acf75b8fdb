//! Plans: the effects that an operation asks for, in the order in which
//! they are to happen.

use vstd::prelude::*;
use crate::command::{Command, CommandView};

verus! {

/// One effect.
#[derive(Clone, Debug, PartialEq, Eq)]
pub enum Step {
    /// Replace the content of the state file with this text.
    Write(String),
    /// Run this command and wait for it to end; its outcome is of no concern.
    Run(Command),
    /// Pause for this many seconds.
    Wait(u64),
}

/// What a [`Step`] stands for.
pub enum StepView {
    Write(Seq<char>),
    Run(CommandView),
    Wait(u64),
}

impl View for Step {
    type V = StepView;

    open spec fn view(&self) -> StepView {
        match self {
            Step::Write(text) => StepView::Write(text@),
            Step::Run(command) => StepView::Run(command@),
            Step::Wait(seconds) => StepView::Wait(*seconds),
        }
    }
}

/// A list of effects. Operations only ever add to its end.
#[derive(Clone, Debug, PartialEq, Eq)]
pub struct Plan {
    /// The effects, first to last.
    pub steps: Vec<Step>,
}

impl View for Plan {
    type V = Seq<StepView>;

    open spec fn view(&self) -> Seq<StepView> {
        self.steps@.map_values(|step: Step| step@)
    }
}

impl Plan {
    /// The plan that asks for nothing.
    pub fn new() -> (plan: Plan)
        ensures
            plan@ == Seq::<StepView>::empty(),
    {
        Plan { steps: Vec::new() }
    }

    /// Adds `step` as the last effect.
    pub fn push(&mut self, step: Step)
        ensures
            final(self)@ == old(self)@.push(step@),
    {
        self.steps.push(step);
    }

    /// Asks for the state file to be replaced by `text`.
    pub fn write(&mut self, text: String)
        ensures
            final(self)@ == old(self)@.push(StepView::Write(text@)),
    {
        self.push(Step::Write(text));
    }

    /// Asks for `command` to be run.
    pub fn run(&mut self, command: Command)
        ensures
            final(self)@ == old(self)@.push(StepView::Run(command@)),
    {
        self.push(Step::Run(command));
    }

    /// Asks for a pause of `seconds` seconds.
    pub fn wait(&mut self, seconds: u64)
        ensures
            final(self)@ == old(self)@.push(StepView::Wait(seconds)),
    {
        self.push(Step::Wait(seconds));
    }
}

} // verus!
