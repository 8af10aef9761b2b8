//! The generation loop of one turn as a state machine: it consumes the
//! outcome of each compute step and says what to write and whether to go on.

use crate::outcome::{GenerationOutcome, OutcomeView};
use vstd::prelude::*;

verus! {

/// Written when the engine reports that the context is full.
pub const CONTEXT_FULL_NOTICE: &'static str =
    "\n[INFO] Context full, we'll reset the context and continue.\n";

/// Written when the engine reports that the prompt is too long.
pub const PROMPT_TOO_LONG_NOTICE: &'static str =
    "\n[INFO] Prompt too long, we'll reset the context and continue.\n";

/// Written before the message of any other error.
pub const ERROR_PREFIX: &'static str = "\n[ERROR] ";

/// Ends a line of output.
pub const LINE_END: &'static str = "\n";

/// Where the generation loop of a turn stands. The three stopped phases are final.
#[derive(Debug, Clone, Copy, PartialEq, Eq, Structural)]
pub enum Phase {
    /// Tokens are being generated.
    Running,
    /// The model finished its answer.
    StoppedEos,
    /// The context window is exhausted.
    StoppedOverflow,
    /// A compute step failed.
    StoppedError,
}

/// What to do after a compute step.
#[derive(Debug, PartialEq, Eq)]
pub enum Directive {
    /// Write this text at once, then run the next compute step.
    Emit(String),
    /// Write this text, then end the loop and release the session.
    Stop(String),
}

/// The mathematical value of a [`Directive`].
pub enum DirectiveView {
    Emit(Seq<char>),
    Stop(Seq<char>),
}

impl View for Directive {
    type V = DirectiveView;

    open spec fn view(&self) -> DirectiveView {
        match self {
            Directive::Emit(text) => DirectiveView::Emit(text@),
            Directive::Stop(text) => DirectiveView::Stop(text@),
        }
    }
}

impl Clone for Directive {
    fn clone(&self) -> (copy: Directive)
        ensures
            copy@ == self@,
    {
        match self {
            Directive::Emit(text) => Directive::Emit(text.clone()),
            Directive::Stop(text) => Directive::Stop(text.clone()),
        }
    }
}

/// The mathematical value of a [`Turn`].
pub struct TurnView {
    pub phase: Phase,
    pub reply: Seq<char>,
}

/// A turn at its beginning: running, with nothing generated.
pub open spec fn fresh_turn() -> TurnView {
    TurnView { phase: Phase::Running, reply: Seq::empty() }
}

/// The phase that a running loop enters on an outcome.
pub open spec fn phase_after(outcome: OutcomeView) -> Phase {
    match outcome {
        OutcomeView::Token(_) => Phase::Running,
        OutcomeView::EndOfSequence => Phase::StoppedEos,
        OutcomeView::ContextOverflow => Phase::StoppedOverflow,
        OutcomeView::PromptTooLong => Phase::StoppedOverflow,
        OutcomeView::Failure(_) => Phase::StoppedError,
    }
}

/// The text that a running loop writes on an outcome: the token itself, or the
/// notice that tells why the loop ends.
pub open spec fn written_on(outcome: OutcomeView) -> Seq<char> {
    match outcome {
        OutcomeView::Token(text) => text,
        OutcomeView::EndOfSequence => Seq::empty(),
        OutcomeView::ContextOverflow => CONTEXT_FULL_NOTICE@,
        OutcomeView::PromptTooLong => PROMPT_TOO_LONG_NOTICE@,
        OutcomeView::Failure(message) => ERROR_PREFIX@ + message + LINE_END@,
    }
}

/// One step of the loop: the turn after `outcome`, and what to do next. A
/// running turn appends a token to its reply and emits it, and stops on
/// anything else; a stopped turn stays as it is.
pub open spec fn advanced(turn: TurnView, outcome: OutcomeView) -> (TurnView, DirectiveView) {
    if turn.phase is Running {
        match outcome {
            OutcomeView::Token(text) => (
                TurnView { phase: Phase::Running, reply: turn.reply + text },
                DirectiveView::Emit(text),
            ),
            _ => (
                TurnView { phase: phase_after(outcome), reply: turn.reply },
                DirectiveView::Stop(written_on(outcome)),
            ),
        }
    } else {
        (turn, DirectiveView::Stop(Seq::empty()))
    }
}

/// The generation loop of one turn: its phase and the reply accumulated so far.
pub struct Turn {
    phase: Phase,
    reply: String,
}

impl View for Turn {
    type V = TurnView;

    closed spec fn view(&self) -> TurnView {
        TurnView { phase: self.phase, reply: self.reply@ }
    }
}

impl Turn {
    /// A turn at its beginning.
    pub fn new() -> (turn: Turn)
        ensures
            turn@ == fresh_turn(),
    {
        Turn { phase: Phase::Running, reply: String::new() }
    }

    /// Where the loop stands.
    pub fn phase(&self) -> (phase: Phase)
        ensures
            phase == self@.phase,
    {
        self.phase
    }

    /// The reply accumulated so far, untrimmed.
    pub fn reply(&self) -> (reply: &str)
        ensures
            reply@ == self@.reply,
    {
        self.reply.as_str()
    }

    /// Whether the loop goes on.
    pub fn is_running(&self) -> (b: bool)
        ensures
            b == (self@.phase is Running),
    {
        match self.phase {
            Phase::Running => true,
            _ => false,
        }
    }

    /// Whether the loop ended because the context window is exhausted.
    pub fn overflowed(&self) -> (b: bool)
        ensures
            b == (self@.phase is StoppedOverflow),
    {
        match self.phase {
            Phase::StoppedOverflow => true,
            _ => false,
        }
    }

    /// Consumes the outcome of a compute step.
    pub fn advance(&mut self, outcome: GenerationOutcome) -> (directive: Directive)
        ensures
            (final(self)@, directive@) == advanced(old(self)@, outcome@),
    {
        if !self.is_running() {
            return Directive::Stop(String::new());
        }
        match outcome {
            GenerationOutcome::Token(text) => {
                self.reply.append(text.as_str());
                Directive::Emit(text)
            },
            GenerationOutcome::EndOfSequence => {
                self.phase = Phase::StoppedEos;
                Directive::Stop(String::new())
            },
            GenerationOutcome::ContextOverflow => {
                self.phase = Phase::StoppedOverflow;
                Directive::Stop(String::from_str(CONTEXT_FULL_NOTICE))
            },
            GenerationOutcome::PromptTooLong => {
                self.phase = Phase::StoppedOverflow;
                Directive::Stop(String::from_str(PROMPT_TOO_LONG_NOTICE))
            },
            GenerationOutcome::Failure(message) => {
                self.phase = Phase::StoppedError;
                let mut notice = String::from_str(ERROR_PREFIX);
                notice.append(message.as_str());
                notice.append(LINE_END);
                Directive::Stop(notice)
            },
        }
    }
}

} // verus!
