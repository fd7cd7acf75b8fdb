//! The persisted mode record and its two-line text form.
//!
//! The state file holds two lines: `desktop` or `tv`, then `unscaled` or
//! `scaled`. Nothing else is a state file: there is no repair of a damaged
//! one.

use vstd::prelude::*;
use vstd::string::*;
use crate::lines::{chars_of, lemma_line_end, lines, split_lines};
use crate::plan::{Plan, StepView};

verus! {

/// Which profile is active and whether the TV output is scaled.
#[derive(Clone, Copy, Debug, PartialEq, Eq, Structural)]
pub struct State {
    /// `true` in TV mode, `false` in desktop mode.
    pub tv: bool,
    /// Whether the TV output uses the reduced scale. Kept in desktop mode
    /// too, where it means nothing.
    pub scaled: bool,
}

/// Why a text is not a state file. The lines are looked at in order, and
/// the first fault found is the one reported.
#[derive(Clone, Copy, Debug, PartialEq, Eq, Structural)]
pub enum LoadError {
    /// The text has no line at all, or its first line names a mode and no
    /// second line follows.
    MissingLine,
    /// The first line is neither `desktop` nor `tv`.
    UnknownMode,
    /// The second line is neither `unscaled` nor `scaled`.
    UnknownScaling,
    /// The first two lines are in order, and a third follows.
    TrailingLine,
}

impl LoadError {
    /// The diagnostic for this error.
    pub open spec fn description(self) -> Seq<char> {
        match self {
            LoadError::MissingLine => "Invalid state file content: a line is missing"@,
            LoadError::UnknownMode =>
                "Invalid state file content: the first line is neither `desktop` nor `tv`"@,
            LoadError::UnknownScaling =>
                "Invalid state file content: the second line is neither `unscaled` nor `scaled`"@,
            LoadError::TrailingLine =>
                "Invalid state file content: there is text after the second line"@,
        }
    }

    /// The diagnostic for this error, for whoever has to end the process
    /// on it.
    pub fn describe(&self) -> (text: &'static str)
        ensures
            text@ == self.description(),
    {
        match self {
            LoadError::MissingLine => "Invalid state file content: a line is missing",
            LoadError::UnknownMode =>
                "Invalid state file content: the first line is neither `desktop` nor `tv`",
            LoadError::UnknownScaling =>
                "Invalid state file content: the second line is neither `unscaled` nor `scaled`",
            LoadError::TrailingLine =>
                "Invalid state file content: there is text after the second line",
        }
    }
}

/// The mode that a first line names.
pub open spec fn mode_of(line: Seq<char>) -> Option<bool> {
    if line == "tv"@ {
        Some(true)
    } else if line == "desktop"@ {
        Some(false)
    } else {
        None
    }
}

/// The scaling that a second line names.
pub open spec fn scaling_of(line: Seq<char>) -> Option<bool> {
    if line == "scaled"@ {
        Some(true)
    } else if line == "unscaled"@ {
        Some(false)
    } else {
        None
    }
}

/// What a `&str` that may be absent stands for.
pub open spec fn text_view(file: Option<&str>) -> Option<Seq<char>> {
    match file {
        Some(text) => Some(text@),
        None => None,
    }
}

/// Whether `line` reads exactly `token`.
fn reads(line: &Vec<char>, token: &str) -> (same: bool)
    ensures
        same == (line@ == token@),
{
    let expected = chars_of(token);
    if line.len() != expected.len() {
        return false;
    }
    let mut i: usize = 0;
    while i < line.len()
        invariant
            i <= line.len(),
            line.len() == expected.len(),
            expected@ == token@,
            forall|j: int| 0 <= j < i ==> line[j] == expected[j],
        decreases line.len() - i,
    {
        if line[i] != expected[i] {
            return false;
        }
        i += 1;
    }
    assert(line@ =~= token@);
    true
}

impl State {
    /// The state assumed when nothing has been persisted yet.
    pub open spec fn initial() -> State {
        State { tv: false, scaled: true }
    }

    /// The first line of the state file.
    pub open spec fn mode_token(self) -> Seq<char> {
        if self.tv {
            "tv"@
        } else {
            "desktop"@
        }
    }

    /// The second line of the state file.
    pub open spec fn scaling_token(self) -> Seq<char> {
        if self.scaled {
            "scaled"@
        } else {
            "unscaled"@
        }
    }

    /// The text of the state file for this state.
    pub open spec fn encoding(self) -> Seq<char> {
        self.mode_token() + "\n"@ + self.scaling_token()
    }

    /// The state that a text holds, or why it holds none.
    pub open spec fn decoding(text: Seq<char>) -> Result<State, LoadError> {
        let found = lines(text);
        if found.len() < 1 {
            Err(LoadError::MissingLine)
        } else if mode_of(found[0]) is None {
            Err(LoadError::UnknownMode)
        } else if found.len() < 2 {
            Err(LoadError::MissingLine)
        } else if scaling_of(found[1]) is None {
            Err(LoadError::UnknownScaling)
        } else if found.len() > 2 {
            Err(LoadError::TrailingLine)
        } else {
            Ok(State { tv: mode_of(found[0])->0, scaled: scaling_of(found[1])->0 })
        }
    }

    /// What loading yields: the initial state where there is no file yet,
    /// else what the file holds.
    pub open spec fn loading(file: Option<Seq<char>>) -> Result<State, LoadError> {
        match file {
            None => Ok(State::initial()),
            Some(text) => State::decoding(text),
        }
    }

    /// What loading asks for: a fresh state file where there is none.
    pub open spec fn loading_steps(file: Option<Seq<char>>) -> Seq<StepView> {
        match file {
            None => seq![StepView::Write(State::initial().encoding())],
            Some(_) => Seq::empty(),
        }
    }

    /// The text of the state file for this state.
    pub fn encode(&self) -> (text: String)
        ensures
            text@ == self.encoding(),
    {
        let mut text = String::from_str(
            if self.tv {
                "tv"
            } else {
                "desktop"
            },
        );
        text.append("\n");
        text.append(
            if self.scaled {
                "scaled"
            } else {
                "unscaled"
            },
        );
        text
    }

    /// Reads a state from the text of a state file.
    pub fn decode(text: &str) -> (result: Result<State, LoadError>)
        ensures
            result == State::decoding(text@),
    {
        let found = split_lines(text);
        if found.len() < 1 {
            return Err(LoadError::MissingLine);
        }
        let tv = if reads(&found[0], "tv") {
            true
        } else if reads(&found[0], "desktop") {
            false
        } else {
            return Err(LoadError::UnknownMode);
        };
        if found.len() < 2 {
            return Err(LoadError::MissingLine);
        }
        let scaled = if reads(&found[1], "scaled") {
            true
        } else if reads(&found[1], "unscaled") {
            false
        } else {
            return Err(LoadError::UnknownScaling);
        };
        if found.len() > 2 {
            return Err(LoadError::TrailingLine);
        }
        Ok(State { tv, scaled })
    }

    /// Loads the state. Where there is no state file yet (`file` is
    /// `None`), asks for one to be written and yields the initial state;
    /// else reads the state from the file's text and asks for nothing.
    pub fn load(file: Option<&str>, plan: &mut Plan) -> (result: Result<State, LoadError>)
        ensures
            result == State::loading(text_view(file)),
            final(plan)@ == old(plan)@ + State::loading_steps(text_view(file)),
    {
        match file {
            None => {
                State::init(plan);
                Ok(State::default())
            },
            Some(text) => State::decode(text),
        }
    }

    /// Asks for this state to be persisted.
    pub fn save(&self, plan: &mut Plan)
        ensures
            final(plan)@ == old(plan)@.push(StepView::Write(self.encoding())),
    {
        plan.write(self.encode());
    }

    /// Asks for the initial state to be persisted, whatever was there.
    pub fn init(plan: &mut Plan)
        ensures
            final(plan)@ == old(plan)@.push(StepView::Write(State::initial().encoding())),
    {
        State::default().save(plan)
    }
}

impl Default for State {
    fn default() -> (state: State)
        ensures
            state == State::initial(),
    {
        State { tv: false, scaled: true }
    }
}

/// The text written for a state has exactly two lines: the state's mode
/// token and its scaling token.
pub proof fn lemma_encoding_lines(state: State)
    ensures
        lines(state.encoding()) == seq![state.mode_token(), state.scaling_token()],
{
    reveal_strlit("tv");
    reveal_strlit("desktop");
    reveal_strlit("scaled");
    reveal_strlit("unscaled");
    reveal_strlit("\n");
    let mode = state.mode_token();
    let scaling = state.scaling_token();
    let text = state.encoding();
    let cut = mode.len() as int;
    assert forall|j: int| 0 <= j < cut implies text[j] != '\n' by {}
    lemma_line_end(text, cut);
    assert(text.take(cut) =~= mode);
    assert(text.skip(cut + 1) =~= scaling);
    assert forall|j: int| 0 <= j < scaling.len() implies scaling[j] != '\n' by {}
    lemma_line_end(scaling, scaling.len() as int);
    assert(lines(scaling) == seq![scaling]);
}

/// Saving and then loading gives the saved state back: the text written
/// for a state is read as that state.
pub proof fn lemma_save_then_load(state: State)
    ensures
        State::decoding(state.encoding()) == Ok::<State, LoadError>(state),
        State::loading(Some(state.encoding())) == Ok::<State, LoadError>(state),
{
    lemma_encoding_lines(state);
    reveal_strlit("tv");
    reveal_strlit("desktop");
    reveal_strlit("scaled");
    reveal_strlit("unscaled");
}

/// Exactly the texts of two lines, a mode token and then a scaling token,
/// hold a state; loading a file with any other text fails.
pub proof fn lemma_accepted_texts(text: Seq<char>)
    ensures
        State::decoding(text) is Ok <==> {
            &&& lines(text).len() == 2
            &&& (lines(text)[0] == "desktop"@ || lines(text)[0] == "tv"@)
            &&& (lines(text)[1] == "unscaled"@ || lines(text)[1] == "scaled"@)
        },
        State::loading(Some(text)) == State::decoding(text),
{
}

/// A text whose first line is neither `desktop` nor `tv` is rejected;
/// loading it does not fall back to the initial state.
pub proof fn lemma_unknown_mode_rejected(text: Seq<char>)
    requires
        lines(text).len() >= 1,
        lines(text)[0] != "desktop"@,
        lines(text)[0] != "tv"@,
    ensures
        State::loading(Some(text)) == Err::<State, LoadError>(LoadError::UnknownMode),
{
}

} // verus!
