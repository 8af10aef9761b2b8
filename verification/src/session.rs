//! The whole conversation as a state machine. It is handed one event at a
//! time (a line of input, the result of an engine call) and answers with a
//! command: text to write at once, and the operation to perform next. Whoever
//! drives it performs the operation and hands back the event that came of it.

use crate::outcome::{classified, BackendSignal, GenerationOutcome, OutcomeView, SignalView};
use crate::output::{decode_output, decoded};
use crate::text::{accept_line, accepted, trimmed};
use crate::transcript::{concluded, with_user_turn, Transcript, SYSTEM_PREAMBLE};
use crate::turn::{advanced, fresh_turn, Directive, DirectiveView, Turn, TurnView, LINE_END};
use vstd::prelude::*;
use vstd::utf8::encode_utf8;

verus! {

/// Written before a line of input is read for a new turn.
pub const PROMPT_LABEL: &'static str = "Question:\n";

/// Written before the tokens of a reply.
pub const ANSWER_LABEL: &'static str = "Answer:\n";

/// The input tensor that takes the prompt.
pub const PROMPT_INPUT: usize = 0;

/// The input tensor that takes the engine's configuration as metadata.
pub const METADATA_INPUT: usize = 1;

/// The output tensor from which tokens are read.
pub const TOKEN_OUTPUT: usize = 0;

/// What happened outside, in answer to the last command.
#[derive(Debug, PartialEq, Eq)]
pub enum Event {
    /// A line of input was read, line ending included.
    Line(String),
    /// The engine accepted the prompt.
    InputAccepted,
    /// A compute step ended, with a token ready or with a signal.
    Computed(Result<(), BackendSignal>),
    /// The engine wrote a token into this buffer and reported this many bytes.
    Output(Vec<u8>, usize),
    /// The engine released the session.
    Released,
}

/// The mathematical value of an [`Event`].
pub enum EventView {
    Line(Seq<char>),
    InputAccepted,
    Computed(Result<(), SignalView>),
    Output(Seq<u8>, nat),
    Released,
}

impl View for Event {
    type V = EventView;

    open spec fn view(&self) -> EventView {
        match self {
            Event::Line(line) => EventView::Line(line@),
            Event::InputAccepted => EventView::InputAccepted,
            Event::Computed(Ok(_)) => EventView::Computed(Ok(())),
            Event::Computed(Err(signal)) => EventView::Computed(Err(signal@)),
            Event::Output(buffer, reported) => EventView::Output(buffer@, *reported as nat),
            Event::Released => EventView::Released,
        }
    }
}

impl Clone for Event {
    fn clone(&self) -> (copy: Event)
        ensures
            copy@ == self@,
    {
        match self {
            Event::Line(line) => Event::Line(line.clone()),
            Event::InputAccepted => Event::InputAccepted,
            Event::Computed(Ok(_)) => Event::Computed(Ok(())),
            Event::Computed(Err(signal)) => Event::Computed(Err(signal.clone())),
            Event::Output(buffer, reported) => Event::Output(buffer.clone(), *reported),
            Event::Released => Event::Released,
        }
    }
}

/// What to do outside.
#[derive(Debug, PartialEq, Eq)]
pub enum Operation {
    /// Read one line of input.
    ReadLine,
    /// Set the input tensor `index` to `data`, as bytes.
    SetInput { index: usize, data: Vec<u8> },
    /// Run one compute step, for one token.
    Compute,
    /// Read the last token from the output tensor `index`.
    ReadOutput { index: usize },
    /// Release the engine's session for this turn.
    Release,
}

/// The mathematical value of an [`Operation`].
pub enum OperationView {
    ReadLine,
    SetInput { index: usize, data: Seq<u8> },
    Compute,
    ReadOutput { index: usize },
    Release,
}

impl View for Operation {
    type V = OperationView;

    open spec fn view(&self) -> OperationView {
        match self {
            Operation::ReadLine => OperationView::ReadLine,
            Operation::SetInput { index, data } => OperationView::SetInput {
                index: *index,
                data: data@,
            },
            Operation::Compute => OperationView::Compute,
            Operation::ReadOutput { index } => OperationView::ReadOutput { index: *index },
            Operation::Release => OperationView::Release,
        }
    }
}

impl Clone for Operation {
    fn clone(&self) -> (copy: Operation)
        ensures
            copy@ == self@,
    {
        match self {
            Operation::ReadLine => Operation::ReadLine,
            Operation::SetInput { index, data } => Operation::SetInput {
                index: *index,
                data: data.clone(),
            },
            Operation::Compute => Operation::Compute,
            Operation::ReadOutput { index } => Operation::ReadOutput { index: *index },
            Operation::Release => Operation::Release,
        }
    }
}

/// The session's answer to an event: write `write` to the output and flush
/// it, and after that perform `next`.
#[derive(Debug, PartialEq, Eq)]
pub struct Command {
    pub write: String,
    pub next: Operation,
}

/// The mathematical value of a [`Command`].
pub struct CommandView {
    pub write: Seq<char>,
    pub next: OperationView,
}

impl View for Command {
    type V = CommandView;

    open spec fn view(&self) -> CommandView {
        CommandView { write: self.write@, next: self.next@ }
    }
}

impl Clone for Command {
    fn clone(&self) -> (copy: Command)
        ensures
            copy@ == self@,
    {
        Command { write: self.write.clone(), next: self.next.clone() }
    }
}

/// The event that the session is waiting for.
#[derive(Debug, Clone, Copy, PartialEq, Eq, Structural)]
pub enum Stage {
    /// A line of input.
    AwaitingLine,
    /// The engine's acceptance of the prompt.
    AwaitingInput,
    /// The end of a compute step.
    AwaitingStep,
    /// The token that the last compute step produced.
    AwaitingOutput,
    /// The release of the engine's session.
    AwaitingRelease,
}

/// The mathematical value of a [`Session`].
pub struct SessionView {
    pub transcript: Seq<char>,
    pub turn: TurnView,
    pub stage: Stage,
}

/// A session before anything happened.
pub open spec fn initial() -> SessionView {
    SessionView { transcript: Seq::empty(), turn: fresh_turn(), stage: Stage::AwaitingLine }
}

/// The command that opens a session.
pub open spec fn opening() -> CommandView {
    CommandView { write: PROMPT_LABEL@, next: OperationView::ReadLine }
}

/// The states that a session can be in. Between turns the turn is fresh,
/// while tokens are generated it is running, and before the release it has
/// stopped. The transcript is empty or begins with the system preamble, and
/// it is not empty while a turn is under way.
pub open spec fn well_formed(s: SessionView) -> bool {
    &&& match s.stage {
        Stage::AwaitingLine => s.turn == fresh_turn(),
        Stage::AwaitingInput => s.turn == fresh_turn() && s.transcript.len() > 0,
        Stage::AwaitingStep => s.turn.phase is Running && s.transcript.len() > 0,
        Stage::AwaitingOutput => s.turn.phase is Running && s.transcript.len() > 0,
        Stage::AwaitingRelease => !(s.turn.phase is Running),
    }
    &&& s.transcript.len() == 0 || SYSTEM_PREAMBLE@.is_prefix_of(s.transcript)
}

/// The operation whose event the session is waiting for.
pub open spec fn pending(s: SessionView) -> OperationView {
    match s.stage {
        Stage::AwaitingLine => OperationView::ReadLine,
        Stage::AwaitingInput => OperationView::SetInput {
            index: PROMPT_INPUT,
            data: encode_utf8(s.transcript),
        },
        Stage::AwaitingStep => OperationView::Compute,
        Stage::AwaitingOutput => OperationView::ReadOutput { index: TOKEN_OUTPUT },
        Stage::AwaitingRelease => OperationView::Release,
    }
}

/// Whether `event` is the one that the session is waiting for.
pub open spec fn awaited(s: SessionView, event: EventView) -> bool {
    match s.stage {
        Stage::AwaitingLine => event is Line,
        Stage::AwaitingInput => event is InputAccepted,
        Stage::AwaitingStep => event is Computed,
        Stage::AwaitingOutput => event is Output,
        Stage::AwaitingRelease => event is Released,
    }
}

/// The session after the outcome of a compute step. A token is written at
/// once and the next step is computed. Anything else ends the loop: the
/// transcript is brought up to date, the notice and an empty line are
/// written, and the engine's session is to be released.
pub open spec fn settled(s: SessionView, outcome: OutcomeView) -> (SessionView, CommandView) {
    let (turn, directive) = advanced(s.turn, outcome);
    match directive {
        DirectiveView::Emit(text) => (
            SessionView { transcript: s.transcript, turn, stage: Stage::AwaitingStep },
            CommandView { write: text, next: OperationView::Compute },
        ),
        DirectiveView::Stop(text) => (
            SessionView {
                transcript: concluded(s.transcript, turn.reply, turn.phase is StoppedOverflow),
                turn,
                stage: Stage::AwaitingRelease,
            },
            CommandView { write: text + LINE_END@, next: OperationView::Release },
        ),
    }
}

/// One step of the session: the state after `event`, and the command given
/// in answer. An event that the session is not waiting for changes nothing,
/// and the pending operation is asked for again.
pub open spec fn step(s: SessionView, event: EventView) -> (SessionView, CommandView) {
    match (s.stage, event) {
        (Stage::AwaitingLine, EventView::Line(line)) => match accepted(line) {
            None => (s, CommandView { write: Seq::empty(), next: OperationView::ReadLine }),
            Some(text) => {
                let transcript = with_user_turn(s.transcript, text);
                (
                    SessionView { transcript, turn: fresh_turn(), stage: Stage::AwaitingInput },
                    CommandView {
                        write: Seq::empty(),
                        next: OperationView::SetInput {
                            index: PROMPT_INPUT,
                            data: encode_utf8(transcript),
                        },
                    },
                )
            },
        },
        (Stage::AwaitingInput, EventView::InputAccepted) => (
            SessionView { transcript: s.transcript, turn: s.turn, stage: Stage::AwaitingStep },
            CommandView { write: ANSWER_LABEL@, next: OperationView::Compute },
        ),
        (Stage::AwaitingStep, EventView::Computed(Ok(_))) => (
            SessionView { transcript: s.transcript, turn: s.turn, stage: Stage::AwaitingOutput },
            CommandView {
                write: Seq::empty(),
                next: OperationView::ReadOutput { index: TOKEN_OUTPUT },
            },
        ),
        (Stage::AwaitingStep, EventView::Computed(Err(signal))) => settled(s, classified(signal)),
        (Stage::AwaitingOutput, EventView::Output(buffer, reported)) => settled(
            s,
            OutcomeView::Token(decoded(buffer, reported)),
        ),
        (Stage::AwaitingRelease, EventView::Released) => (
            SessionView {
                transcript: s.transcript,
                turn: fresh_turn(),
                stage: Stage::AwaitingLine,
            },
            CommandView { write: PROMPT_LABEL@, next: OperationView::ReadLine },
        ),
        _ => (s, CommandView { write: Seq::empty(), next: pending(s) }),
    }
}

/// What begins a text also begins the text with more appended.
proof fn lemma_prefix_stays(prefix: Seq<char>, text: Seq<char>, more: Seq<char>)
    requires
        prefix.is_prefix_of(text),
    ensures
        prefix.is_prefix_of(text + more),
{
    assert(prefix =~= (text + more).subrange(0, prefix.len() as int));
}

/// A step leads from a well-formed state to a well-formed state.
pub proof fn lemma_step_keeps_well_formed(s: SessionView, event: EventView)
    requires
        well_formed(s),
    ensures
        well_formed(step(s, event).0),
{
    let prev = s.transcript;
    let after = step(s, event).0.transcript;
    match (s.stage, event) {
        (Stage::AwaitingLine, EventView::Line(line)) => {
            if let Some(text) = accepted(line) {
                reveal_strlit(" [/INST]");
                if prev.len() == 0 {
                    lemma_prefix_stays(
                        SYSTEM_PREAMBLE@,
                        SYSTEM_PREAMBLE@,
                        "[INST] "@ + text + " [/INST]"@,
                    );
                } else {
                    lemma_prefix_stays(SYSTEM_PREAMBLE@, prev, " [INST] "@ + text + " [/INST]"@);
                }
            }
        },
        (Stage::AwaitingStep, EventView::Computed(Err(signal))) => {
            if after.len() > 0 {
                let reply = step(s, event).0.turn.reply;
                lemma_prefix_stays(SYSTEM_PREAMBLE@, prev, " "@ + trimmed(reply));
            }
        },
        _ => {},
    }
}

/// An event that the session is not waiting for changes nothing: the state
/// stays, nothing is written, and the pending operation is asked for again.
pub proof fn lemma_stray_event_changes_nothing(s: SessionView, event: EventView)
    requires
        !awaited(s, event),
    ensures
        step(s, event) == (s, CommandView { write: Seq::empty(), next: pending(s) }),
{
}

/// A conversation: the transcript, the turn in progress, and what is awaited.
pub struct Session {
    transcript: Transcript,
    turn: Turn,
    stage: Stage,
}

impl View for Session {
    type V = SessionView;

    closed spec fn view(&self) -> SessionView {
        SessionView { transcript: self.transcript@, turn: self.turn@, stage: self.stage }
    }
}

impl Session {
    /// Opens a session: an empty transcript, and the command to read the
    /// first line.
    pub fn start() -> (opened: (Session, Command))
        ensures
            opened.0@ == initial(),
            opened.1@ == opening(),
            well_formed(opened.0@),
    {
        let session = Session {
            transcript: Transcript::new(),
            turn: Turn::new(),
            stage: Stage::AwaitingLine,
        };
        let command = Command {
            write: String::from_str(PROMPT_LABEL),
            next: Operation::ReadLine,
        };
        (session, command)
    }

    /// The conversation so far.
    pub fn transcript(&self) -> (transcript: &Transcript)
        ensures
            transcript@ == self@.transcript,
    {
        &self.transcript
    }

    /// The turn in progress.
    pub fn turn(&self) -> (turn: &Turn)
        ensures
            turn@ == self@.turn,
    {
        &self.turn
    }

    /// The event that the session is waiting for.
    pub fn stage(&self) -> (stage: Stage)
        ensures
            stage == self@.stage,
    {
        self.stage
    }

    /// The operation whose event the session is waiting for.
    pub fn pending(&self) -> (operation: Operation)
        ensures
            operation@ == pending(self@),
    {
        match self.stage {
            Stage::AwaitingLine => Operation::ReadLine,
            Stage::AwaitingInput => Operation::SetInput {
                index: PROMPT_INPUT,
                data: self.transcript.to_bytes(),
            },
            Stage::AwaitingStep => Operation::Compute,
            Stage::AwaitingOutput => Operation::ReadOutput { index: TOKEN_OUTPUT },
            Stage::AwaitingRelease => Operation::Release,
        }
    }

    /// Consumes the outcome of a compute step.
    fn settle(&mut self, outcome: GenerationOutcome) -> (command: Command)
        ensures
            (final(self)@, command@) == settled(old(self)@, outcome@),
    {
        match self.turn.advance(outcome) {
            Directive::Emit(text) => {
                self.stage = Stage::AwaitingStep;
                Command { write: text, next: Operation::Compute }
            },
            Directive::Stop(text) => {
                let overflow = self.turn.overflowed();
                self.transcript.conclude(self.turn.reply(), overflow);
                self.stage = Stage::AwaitingRelease;
                let mut write = text;
                write.append(LINE_END);
                Command { write, next: Operation::Release }
            },
        }
    }

    /// Takes the event that came of the last command and gives the next command.
    pub fn handle(&mut self, event: Event) -> (command: Command)
        ensures
            (final(self)@, command@) == step(old(self)@, event@),
            well_formed(old(self)@) ==> well_formed(final(self)@),
    {
        proof {
            if well_formed(self@) {
                lemma_step_keeps_well_formed(self@, event@);
            }
        }
        match (self.stage, event) {
            (Stage::AwaitingLine, Event::Line(line)) => {
                match accept_line(line.as_str()) {
                    None => Command { write: String::new(), next: Operation::ReadLine },
                    Some(text) => {
                        self.transcript.append_user_turn(text.as_str());
                        self.turn = Turn::new();
                        self.stage = Stage::AwaitingInput;
                        Command {
                            write: String::new(),
                            next: Operation::SetInput {
                                index: PROMPT_INPUT,
                                data: self.transcript.to_bytes(),
                            },
                        }
                    },
                }
            },
            (Stage::AwaitingInput, Event::InputAccepted) => {
                self.stage = Stage::AwaitingStep;
                Command { write: String::from_str(ANSWER_LABEL), next: Operation::Compute }
            },
            (Stage::AwaitingStep, Event::Computed(Ok(_))) => {
                self.stage = Stage::AwaitingOutput;
                Command {
                    write: String::new(),
                    next: Operation::ReadOutput { index: TOKEN_OUTPUT },
                }
            },
            (Stage::AwaitingStep, Event::Computed(Err(signal))) => {
                self.settle(GenerationOutcome::from_signal(signal))
            },
            (Stage::AwaitingOutput, Event::Output(buffer, reported)) => {
                let text = decode_output(buffer.as_slice(), reported);
                self.settle(GenerationOutcome::Token(text))
            },
            (Stage::AwaitingRelease, Event::Released) => {
                self.turn = Turn::new();
                self.stage = Stage::AwaitingLine;
                Command { write: String::from_str(PROMPT_LABEL), next: Operation::ReadLine }
            },
            _ => Command { write: String::new(), next: self.pending() },
        }
    }
}

} // verus!
