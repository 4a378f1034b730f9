//! The section-ordering automaton. The only legal forward path is
//! `Start -> RegexParsing -> NodeParsing -> EdgeParsing`, and a transition
//! happens only when a line parses to a section header whose kind maps to
//! the positional successor of the current state. A header anywhere else,
//! or an unknown header, is fatal and forces the error state.

use crate::components::{ParseResult, ParseResultView};
use crate::errors::{ErrorView, JSPTemplateError, JSPTemplateLineError, LineErrorView};
use crate::parser::header::{Header, HeaderView};
use crate::parser::{
    edge_parser, node_parser, regex_parser, spec_edge_line, spec_node_line, spec_regex_line,
    spec_start_line, start_parser,
};
use vstd::prelude::*;

verus! {

/// The six states of the automaton. `Done` and `Error` are terminal.
#[derive(Debug, PartialEq, Eq, Structural, Clone, Copy)]
pub enum State {
    Start,
    RegexParsing,
    NodeParsing,
    EdgeParsing,
    Done,
    Error,
}

/// The positional successor of a state: the only state a header may move
/// the machine to. The terminal states have none.
pub open spec fn spec_next_valid_state(st: State) -> Option<State> {
    match st {
        State::Start => Some(State::RegexParsing),
        State::RegexParsing => Some(State::NodeParsing),
        State::NodeParsing => Some(State::EdgeParsing),
        State::EdgeParsing => Some(State::Done),
        State::Done => None,
        State::Error => None,
    }
}

/// The state a header kind asks for. No header kind maps to `Done`, so the
/// edge section accepts no further header.
pub open spec fn spec_header_state(h: HeaderView) -> State {
    match h {
        HeaderView::Regex => State::RegexParsing,
        HeaderView::Nodes => State::NodeParsing,
        HeaderView::Graph => State::EdgeParsing,
        HeaderView::Unknown(_) => State::Error,
    }
}

/// The grammar that applies while the machine stands in a state. The
/// terminal states parse nothing.
pub open spec fn spec_state_grammar(st: State, s: Seq<char>) -> Option<ParseResultView> {
    match st {
        State::Start => spec_start_line(s),
        State::RegexParsing => spec_regex_line(s),
        State::NodeParsing => spec_node_line(s),
        State::EdgeParsing => spec_edge_line(s),
        State::Done => None,
        State::Error => None,
    }
}

/// What one line yields in a given state: the parsed record, or the cause of
/// the failure.
pub open spec fn spec_machine_result(st: State, s: Seq<char>) -> Result<
    ParseResultView,
    ErrorView,
> {
    if st == State::Done {
        Err(ErrorView::DoneState)
    } else if st == State::Error {
        Err(ErrorView::ErrorState)
    } else {
        match spec_state_grammar(st, s) {
            None => Err(ErrorView::ParsingError),
            Some(pv) => match pv {
                ParseResultView::Header(h) => {
                    let target = spec_header_state(h);
                    if spec_next_valid_state(st) == Some(target) {
                        Ok(pv)
                    } else {
                        Err(ErrorView::InvalidStateTransition(st, target))
                    }
                },
                _ => Ok(pv),
            },
        }
    }
}

/// The state the machine stands in after one line: a legal header moves it
/// forward, an illegal one forces `Error`, and every other line leaves it
/// unchanged.
pub open spec fn spec_machine_next(st: State, s: Seq<char>) -> State {
    if st == State::Done || st == State::Error {
        st
    } else {
        match spec_state_grammar(st, s) {
            None => st,
            Some(pv) => match pv {
                ParseResultView::Header(h) => {
                    let target = spec_header_state(h);
                    if spec_next_valid_state(st) == Some(target) {
                        target
                    } else {
                        State::Error
                    }
                },
                _ => st,
            },
        }
    }
}

/// The automaton together with the 1-based number of the last line parsed.
pub struct StateMachine {
    pub state: State,
    pub line: usize,
}

impl StateMachine {
    /// A fresh machine: in the start state, before any line.
    pub fn new() -> (r: StateMachine)
        ensures
            r.state == State::Start,
            r.line == 0,
    {
        StateMachine { state: State::Start, line: 0 }
    }

    /// The 1-based number of the last line handed to `parse`.
    pub fn line(&self) -> (r: usize)
        ensures
            r == self.line,
    {
        self.line
    }

    /// The state the machine currently stands in.
    pub fn state(&self) -> (r: State)
        ensures
            r == self.state,
    {
        self.state
    }

    /// Parse the current line of input with the grammar of the current
    /// state. A header line moves the machine to its positional successor;
    /// any other header is a fatal `InvalidStateTransition` and forces the
    /// error state. Every failure carries the line number, the raw line
    /// text, and the state in which the line was parsed.
    pub fn parse(&mut self, input: &str) -> (r: Result<ParseResult, JSPTemplateLineError>)
        requires
            old(self).line < usize::MAX,
        ensures
            final(self).line == old(self).line + 1,
            final(self).state == spec_machine_next(old(self).state, input@),
            match spec_machine_result(old(self).state, input@) {
                Ok(pv) => r matches Ok(pr) && pr@ == pv,
                Err(ev) => r matches Err(le) && le@ == (LineErrorView {
                    line: (old(self).line + 1) as usize,
                    text: input@,
                    state: old(self).state,
                    cause: ev,
                }),
            },
    {
        self.line = self.line + 1;
        let parsed: Option<ParseResult> = match self.state {
            State::Start => start_parser(input),
            State::RegexParsing => regex_parser(input),
            State::NodeParsing => node_parser(input),
            State::EdgeParsing => edge_parser(input),
            State::Done => {
                return Err(
                    JSPTemplateLineError::ErrorAtLine(
                        self.line,
                        input.to_owned(),
                        State::Done,
                        JSPTemplateError::DoneState,
                    ),
                );
            },
            State::Error => {
                return Err(
                    JSPTemplateLineError::ErrorAtLine(
                        self.line,
                        input.to_owned(),
                        State::Error,
                        JSPTemplateError::ErrorState,
                    ),
                );
            },
        };
        match parsed {
            None => Err(
                JSPTemplateLineError::ErrorAtLine(
                    self.line,
                    input.to_owned(),
                    self.state,
                    JSPTemplateError::ParsingError,
                ),
            ),
            Some(pr) => {
                let header_target: Option<State> = match &pr {
                    ParseResult::Header(h) => Some(
                        match h {
                            Header::Regex => State::RegexParsing,
                            Header::Nodes => State::NodeParsing,
                            Header::Graph => State::EdgeParsing,
                            Header::Unknown(_) => State::Error,
                        },
                    ),
                    _ => None,
                };
                match header_target {
                    None => Ok(pr),
                    Some(target) => {
                        let next = match self.state {
                            State::Start => State::RegexParsing,
                            State::RegexParsing => State::NodeParsing,
                            State::NodeParsing => State::EdgeParsing,
                            _ => State::Done,
                        };
                        if target == next {
                            self.state = target;
                            Ok(pr)
                        } else {
                            let from = self.state;
                            self.state = State::Error;
                            Err(
                                JSPTemplateLineError::ErrorAtLine(
                                    self.line,
                                    input.to_owned(),
                                    from,
                                    JSPTemplateError::InvalidStateTransition(from, target),
                                ),
                            )
                        }
                    },
                }
            },
        }
    }
}

} // verus!
