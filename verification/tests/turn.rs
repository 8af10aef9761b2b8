use llama_stream::outcome::GenerationOutcome;
use llama_stream::turn::{
    Directive, Phase, Turn, CONTEXT_FULL_NOTICE, ERROR_PREFIX, LINE_END, PROMPT_TOO_LONG_NOTICE,
};

#[test]
fn notices_have_their_exact_text() {
    assert_eq!(
        CONTEXT_FULL_NOTICE,
        "\n[INFO] Context full, we'll reset the context and continue.\n"
    );
    assert_eq!(
        PROMPT_TOO_LONG_NOTICE,
        "\n[INFO] Prompt too long, we'll reset the context and continue.\n"
    );
    assert_eq!(ERROR_PREFIX, "\n[ERROR] ");
    assert_eq!(LINE_END, "\n");
}

#[test]
fn a_new_turn_is_running_and_empty() {
    let turn = Turn::new();
    assert_eq!(turn.phase(), Phase::Running);
    assert!(turn.is_running());
    assert!(!turn.overflowed());
    assert_eq!(turn.reply(), "");
}

#[test]
fn a_token_is_emitted_and_appended() {
    let mut turn = Turn::new();
    assert_eq!(
        turn.advance(GenerationOutcome::Token("Hel".to_string())),
        Directive::Emit("Hel".to_string())
    );
    assert_eq!(
        turn.advance(GenerationOutcome::Token("lo".to_string())),
        Directive::Emit("lo".to_string())
    );
    assert_eq!(turn.reply(), "Hello");
    assert!(turn.is_running());
}

#[test]
fn the_reply_is_kept_untrimmed() {
    let mut turn = Turn::new();
    turn.advance(GenerationOutcome::Token(" Hi".to_string()));
    turn.advance(GenerationOutcome::Token("\n".to_string()));
    assert_eq!(turn.reply(), " Hi\n");
}

#[test]
fn end_of_sequence_stops_quietly() {
    let mut turn = Turn::new();
    turn.advance(GenerationOutcome::Token("ok".to_string()));
    assert_eq!(turn.advance(GenerationOutcome::EndOfSequence), Directive::Stop(String::new()));
    assert_eq!(turn.phase(), Phase::StoppedEos);
    assert!(!turn.is_running());
    assert!(!turn.overflowed());
    assert_eq!(turn.reply(), "ok");
}

#[test]
fn context_overflow_stops_with_its_notice() {
    let mut turn = Turn::new();
    assert_eq!(
        turn.advance(GenerationOutcome::ContextOverflow),
        Directive::Stop(
            "\n[INFO] Context full, we'll reset the context and continue.\n".to_string()
        )
    );
    assert_eq!(turn.phase(), Phase::StoppedOverflow);
    assert!(turn.overflowed());
}

#[test]
fn prompt_too_long_stops_with_its_notice() {
    let mut turn = Turn::new();
    assert_eq!(
        turn.advance(GenerationOutcome::PromptTooLong),
        Directive::Stop(
            "\n[INFO] Prompt too long, we'll reset the context and continue.\n".to_string()
        )
    );
    assert_eq!(turn.phase(), Phase::StoppedOverflow);
    assert!(turn.overflowed());
}

#[test]
fn failure_stops_with_its_message_and_keeps_the_reply() {
    let mut turn = Turn::new();
    turn.advance(GenerationOutcome::Token("partial".to_string()));
    assert_eq!(
        turn.advance(GenerationOutcome::Failure("boom".to_string())),
        Directive::Stop("\n[ERROR] boom\n".to_string())
    );
    assert_eq!(turn.phase(), Phase::StoppedError);
    assert!(!turn.overflowed());
    assert_eq!(turn.reply(), "partial");
}

#[test]
fn a_stopped_turn_stays_stopped() {
    let mut turn = Turn::new();
    turn.advance(GenerationOutcome::Token("a".to_string()));
    turn.advance(GenerationOutcome::EndOfSequence);
    assert_eq!(
        turn.advance(GenerationOutcome::Token("b".to_string())),
        Directive::Stop(String::new())
    );
    assert_eq!(
        turn.advance(GenerationOutcome::ContextOverflow),
        Directive::Stop(String::new())
    );
    assert_eq!(turn.phase(), Phase::StoppedEos);
    assert_eq!(turn.reply(), "a");
}

#[test]
fn directives_clone_to_equal_values() {
    for directive in [Directive::Emit("Hel".to_string()), Directive::Stop("\n".to_string())] {
        assert_eq!(directive.clone(), directive);
    }
}
