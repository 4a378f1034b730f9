//! The error taxonomy of the compiler, and the line-context wrapper that the
//! loader attaches to every failure it reports.

use crate::statemachine::State;
use vstd::prelude::*;

verus! {

/// One failure of the grammar layer, the state machine or the loader.
#[derive(Debug, PartialEq, Eq)]
pub enum JSPTemplateError {
    /// A header was encountered out of the legal section order.
    InvalidStateTransition(State, State),
    /// A header was encountered in a state that has no successor.
    NoValidNextState(State),
    /// A line was handed to a machine already in its terminal success state.
    DoneState,
    /// A line was handed to a machine already in its terminal error state.
    ErrorState,
    /// No alternative of the active section grammar matched the line.
    ParsingError,
    /// The pattern engine rejected a pattern; the payload is the anchored
    /// pattern string that failed to compile.
    RegexError(String),
    /// A node referenced a pattern name absent from the pattern table.
    RegexMapLookupError(String),
    /// An edge referenced a node name absent from the node table.
    KeyMapLookupError(String),
}

/// The mathematical value of a [`JSPTemplateError`].
pub enum ErrorView {
    InvalidStateTransition(State, State),
    NoValidNextState(State),
    DoneState,
    ErrorState,
    ParsingError,
    RegexError(Seq<char>),
    RegexMapLookupError(Seq<char>),
    KeyMapLookupError(Seq<char>),
}

impl View for JSPTemplateError {
    type V = ErrorView;

    open spec fn view(&self) -> ErrorView {
        match self {
            JSPTemplateError::InvalidStateTransition(a, b) => ErrorView::InvalidStateTransition(
                *a,
                *b,
            ),
            JSPTemplateError::NoValidNextState(s) => ErrorView::NoValidNextState(*s),
            JSPTemplateError::DoneState => ErrorView::DoneState,
            JSPTemplateError::ErrorState => ErrorView::ErrorState,
            JSPTemplateError::ParsingError => ErrorView::ParsingError,
            JSPTemplateError::RegexError(p) => ErrorView::RegexError(p@),
            JSPTemplateError::RegexMapLookupError(n) => ErrorView::RegexMapLookupError(n@),
            JSPTemplateError::KeyMapLookupError(n) => ErrorView::KeyMapLookupError(n@),
        }
    }
}

/// A [`JSPTemplateError`] together with the place it arose: the 1-based line
/// number, the raw line text, and the machine state in which the line was
/// parsed. This wrapper is the only error type the load operation returns.
#[derive(Debug, PartialEq, Eq)]
pub enum JSPTemplateLineError {
    ErrorAtLine(usize, String, State, JSPTemplateError),
}

/// The mathematical value of a [`JSPTemplateLineError`].
pub struct LineErrorView {
    pub line: usize,
    pub text: Seq<char>,
    pub state: State,
    pub cause: ErrorView,
}

impl View for JSPTemplateLineError {
    type V = LineErrorView;

    open spec fn view(&self) -> LineErrorView {
        match self {
            JSPTemplateLineError::ErrorAtLine(line, text, state, cause) => LineErrorView {
                line: *line,
                text: text@,
                state: *state,
                cause: cause@,
            },
        }
    }
}

impl JSPTemplateLineError {
    /// The 1-based line number the failure arose at.
    pub fn line_number(&self) -> (r: usize)
        ensures
            r == self@.line,
    {
        match self {
            JSPTemplateLineError::ErrorAtLine(line, _, _, _) => *line,
        }
    }
}

} // verus!
