//! What one compute step of the engine can report, and how it is classified.

use vstd::prelude::*;

verus! {

/// `wasmedge_wasi_nn::Error`, the error type of the engine bindings. It is
/// declared so that it can be handed on; proofs see nothing inside it.
#[verifier::external_type_specification]
#[verifier::external_body]
pub struct ExEngineError(wasmedge_wasi_nn::Error);

/// What the engine reports when a compute step yields no token.
#[derive(Debug, PartialEq, Eq)]
pub enum BackendSignal {
    /// The model finished its answer.
    EndOfSequence,
    /// The conversation no longer fits the context window.
    ContextFull,
    /// The prompt alone exceeds the context window.
    PromptTooLong,
    /// Any other error, with its message.
    OtherError(String),
}

/// The mathematical value of a [`BackendSignal`].
pub enum SignalView {
    EndOfSequence,
    ContextFull,
    PromptTooLong,
    OtherError(Seq<char>),
}

impl View for BackendSignal {
    type V = SignalView;

    open spec fn view(&self) -> SignalView {
        match self {
            BackendSignal::EndOfSequence => SignalView::EndOfSequence,
            BackendSignal::ContextFull => SignalView::ContextFull,
            BackendSignal::PromptTooLong => SignalView::PromptTooLong,
            BackendSignal::OtherError(message) => SignalView::OtherError(message@),
        }
    }
}

impl Clone for BackendSignal {
    fn clone(&self) -> (copy: BackendSignal)
        ensures
            copy@ == self@,
    {
        match self {
            BackendSignal::EndOfSequence => BackendSignal::EndOfSequence,
            BackendSignal::ContextFull => BackendSignal::ContextFull,
            BackendSignal::PromptTooLong => BackendSignal::PromptTooLong,
            BackendSignal::OtherError(message) => BackendSignal::OtherError(message.clone()),
        }
    }
}

/// The classified result of one step of the generation loop.
#[derive(Debug, PartialEq, Eq)]
pub enum GenerationOutcome {
    /// The step produced a token with this text.
    Token(String),
    /// The model finished its answer.
    EndOfSequence,
    /// The conversation no longer fits the context window.
    ContextOverflow,
    /// The prompt alone exceeds the context window.
    PromptTooLong,
    /// The step failed for another reason, with this message.
    Failure(String),
}

/// The mathematical value of a [`GenerationOutcome`].
pub enum OutcomeView {
    Token(Seq<char>),
    EndOfSequence,
    ContextOverflow,
    PromptTooLong,
    Failure(Seq<char>),
}

impl View for GenerationOutcome {
    type V = OutcomeView;

    open spec fn view(&self) -> OutcomeView {
        match self {
            GenerationOutcome::Token(text) => OutcomeView::Token(text@),
            GenerationOutcome::EndOfSequence => OutcomeView::EndOfSequence,
            GenerationOutcome::ContextOverflow => OutcomeView::ContextOverflow,
            GenerationOutcome::PromptTooLong => OutcomeView::PromptTooLong,
            GenerationOutcome::Failure(message) => OutcomeView::Failure(message@),
        }
    }
}

impl Clone for GenerationOutcome {
    fn clone(&self) -> (copy: GenerationOutcome)
        ensures
            copy@ == self@,
    {
        match self {
            GenerationOutcome::Token(text) => GenerationOutcome::Token(text.clone()),
            GenerationOutcome::EndOfSequence => GenerationOutcome::EndOfSequence,
            GenerationOutcome::ContextOverflow => GenerationOutcome::ContextOverflow,
            GenerationOutcome::PromptTooLong => GenerationOutcome::PromptTooLong,
            GenerationOutcome::Failure(message) => GenerationOutcome::Failure(message.clone()),
        }
    }
}

/// The outcome that a signal of the engine stands for.
pub open spec fn classified(signal: SignalView) -> OutcomeView {
    match signal {
        SignalView::EndOfSequence => OutcomeView::EndOfSequence,
        SignalView::ContextFull => OutcomeView::ContextOverflow,
        SignalView::PromptTooLong => OutcomeView::PromptTooLong,
        SignalView::OtherError(message) => OutcomeView::Failure(message),
    }
}

/// Whether an outcome ends the generation loop.
pub open spec fn terminal(outcome: OutcomeView) -> bool {
    !(outcome is Token)
}

/// Whether an outcome says that the context window is exhausted.
pub open spec fn overflow(outcome: OutcomeView) -> bool {
    outcome is ContextOverflow || outcome is PromptTooLong
}

impl GenerationOutcome {
    /// Classifies a signal of the engine.
    pub fn from_signal(signal: BackendSignal) -> (outcome: GenerationOutcome)
        ensures
            outcome@ == classified(signal@),
    {
        match signal {
            BackendSignal::EndOfSequence => GenerationOutcome::EndOfSequence,
            BackendSignal::ContextFull => GenerationOutcome::ContextOverflow,
            BackendSignal::PromptTooLong => GenerationOutcome::PromptTooLong,
            BackendSignal::OtherError(message) => GenerationOutcome::Failure(message),
        }
    }

    /// Whether this outcome ends the generation loop.
    pub fn is_terminal(&self) -> (b: bool)
        ensures
            b == terminal(self@),
    {
        match self {
            GenerationOutcome::Token(_) => false,
            _ => true,
        }
    }

    /// Whether this outcome says that the context window is exhausted.
    pub fn is_overflow(&self) -> (b: bool)
        ensures
            b == overflow(self@),
    {
        match self {
            GenerationOutcome::ContextOverflow => true,
            GenerationOutcome::PromptTooLong => true,
            _ => false,
        }
    }
}

/// Reads a `wasmedge_wasi_nn::Error`: tells the three backend errors that the
/// generation loop knows by name apart from all others, and renders those
/// others with the error's `Display`. Trusted, and nothing is claimed of the
/// result: Verus cannot look inside the error.
#[verifier::external_body]
fn signal_of(error: &wasmedge_wasi_nn::Error) -> (signal: BackendSignal) {
    match error {
        wasmedge_wasi_nn::Error::BackendError(wasmedge_wasi_nn::BackendError::EndOfSequence) => {
            BackendSignal::EndOfSequence
        },
        wasmedge_wasi_nn::Error::BackendError(wasmedge_wasi_nn::BackendError::ContextFull) => {
            BackendSignal::ContextFull
        },
        wasmedge_wasi_nn::Error::BackendError(wasmedge_wasi_nn::BackendError::PromptTooLong) => {
            BackendSignal::PromptTooLong
        },
        other => BackendSignal::OtherError(other.to_string()),
    }
}

/// Turns the result of a compute step of the engine into what the generation
/// loop consumes: success stays success, and an error becomes its signal.
pub fn step_result(result: Result<(), wasmedge_wasi_nn::Error>) -> (r: Result<(), BackendSignal>)
    ensures
        r is Ok <==> result is Ok,
{
    match result {
        Ok(()) => Ok(()),
        Err(error) => Err(signal_of(&error)),
    }
}

} // verus!
