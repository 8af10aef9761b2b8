use llama_stream::outcome::{step_result, BackendSignal, GenerationOutcome};
use wasmedge_wasi_nn::{BackendError, Error};

#[test]
fn end_of_sequence_is_classified() {
    assert_eq!(
        GenerationOutcome::from_signal(BackendSignal::EndOfSequence),
        GenerationOutcome::EndOfSequence
    );
}

#[test]
fn context_full_is_an_overflow() {
    let outcome = GenerationOutcome::from_signal(BackendSignal::ContextFull);
    assert_eq!(outcome, GenerationOutcome::ContextOverflow);
    assert!(outcome.is_overflow());
    assert!(outcome.is_terminal());
}

#[test]
fn prompt_too_long_is_an_overflow() {
    let outcome = GenerationOutcome::from_signal(BackendSignal::PromptTooLong);
    assert_eq!(outcome, GenerationOutcome::PromptTooLong);
    assert!(outcome.is_overflow());
    assert!(outcome.is_terminal());
}

#[test]
fn other_errors_are_failures_with_their_message() {
    let outcome = GenerationOutcome::from_signal(BackendSignal::OtherError("boom".to_string()));
    assert_eq!(outcome, GenerationOutcome::Failure("boom".to_string()));
    assert!(!outcome.is_overflow());
    assert!(outcome.is_terminal());
}

#[test]
fn tokens_do_not_end_the_loop() {
    let outcome = GenerationOutcome::Token("Hel".to_string());
    assert!(!outcome.is_terminal());
    assert!(!outcome.is_overflow());
}

#[test]
fn end_of_sequence_ends_the_loop_without_overflow() {
    assert!(GenerationOutcome::EndOfSequence.is_terminal());
    assert!(!GenerationOutcome::EndOfSequence.is_overflow());
}

#[test]
fn a_successful_step_stays_successful() {
    assert_eq!(step_result(Ok(())), Ok(()));
}

#[test]
fn engine_errors_known_by_name_become_signals() {
    assert_eq!(
        step_result(Err(Error::BackendError(BackendError::EndOfSequence))),
        Err(BackendSignal::EndOfSequence)
    );
    assert_eq!(
        step_result(Err(Error::BackendError(BackendError::ContextFull))),
        Err(BackendSignal::ContextFull)
    );
    assert_eq!(
        step_result(Err(Error::BackendError(BackendError::PromptTooLong))),
        Err(BackendSignal::PromptTooLong)
    );
}

#[test]
fn other_engine_errors_keep_their_message() {
    assert_eq!(
        step_result(Err(Error::BackendError(BackendError::RuntimeError))),
        Err(BackendSignal::OtherError(
            "Backend Error: WASI-NN Backend Error: Runtime Error".to_string()
        ))
    );
    assert_eq!(
        step_result(Err(Error::BackendError(BackendError::ModelNotFound))),
        Err(BackendSignal::OtherError(
            "Backend Error: WASI-NN Backend Error: Model Not Found".to_string()
        ))
    );
    assert_eq!(
        step_result(Err(Error::BackendError(BackendError::UnknownError(42)))),
        Err(BackendSignal::OtherError(
            "Backend Error: Unknown Wasi-NN Backend Error Code `42`".to_string()
        ))
    );
}

#[test]
fn io_errors_are_other_errors() {
    let error = Error::IoError(std::io::Error::new(std::io::ErrorKind::Other, "disk"));
    assert_eq!(
        step_result(Err(error)),
        Err(BackendSignal::OtherError("IO Error: disk".to_string()))
    );
}

#[test]
fn error_codes_of_the_engine_reach_their_signals() {
    assert_eq!(
        step_result(Err(Error::BackendError(BackendError::from(100)))),
        Err(BackendSignal::EndOfSequence)
    );
    assert_eq!(
        step_result(Err(Error::BackendError(BackendError::from(101)))),
        Err(BackendSignal::ContextFull)
    );
    assert_eq!(
        step_result(Err(Error::BackendError(BackendError::from(102)))),
        Err(BackendSignal::PromptTooLong)
    );
}

#[test]
fn signals_and_outcomes_clone_to_equal_values() {
    for signal in [
        BackendSignal::EndOfSequence,
        BackendSignal::ContextFull,
        BackendSignal::PromptTooLong,
        BackendSignal::OtherError("boom".to_string()),
    ] {
        assert_eq!(signal.clone(), signal);
    }
    for outcome in [
        GenerationOutcome::Token("Hel".to_string()),
        GenerationOutcome::EndOfSequence,
        GenerationOutcome::ContextOverflow,
        GenerationOutcome::PromptTooLong,
        GenerationOutcome::Failure("boom".to_string()),
    ] {
        assert_eq!(outcome.clone(), outcome);
    }
}
