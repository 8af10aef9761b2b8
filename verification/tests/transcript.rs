use llama_stream::transcript::{Transcript, SYSTEM_PREAMBLE, SYSTEM_PROMPT};

#[test]
fn new_transcript_is_empty() {
    let t = Transcript::new();
    assert!(t.is_empty());
    assert_eq!(t.as_str(), "");
    assert_eq!(t.as_bytes(), b"");
    assert!(t.to_bytes().is_empty());
}

#[test]
fn preamble_wraps_the_system_prompt() {
    assert_eq!(SYSTEM_PREAMBLE, format!("<<SYS>> {} <</SYS>> ", SYSTEM_PROMPT));
    assert_eq!(
        SYSTEM_PROMPT,
        "You are a helpful, respectful and honest assistant. Always answer as short as possible, while being safe."
    );
}

#[test]
fn first_user_turn_follows_the_preamble() {
    let mut t = Transcript::new();
    t.append_user_turn("Hi");
    assert_eq!(
        t.as_str(),
        "<<SYS>> You are a helpful, respectful and honest assistant. Always answer as short as possible, while being safe. <</SYS>> [INST] Hi [/INST]"
    );
    assert_eq!(t.as_str(), format!("{}[INST] Hi [/INST]", SYSTEM_PREAMBLE));
    assert!(!t.is_empty());
}

#[test]
fn later_user_turns_follow_a_separator() {
    let mut t = Transcript::new();
    t.append_user_turn("one");
    t.append_reply("1");
    let before = t.as_str().to_string();
    t.append_user_turn("two");
    assert_eq!(t.as_str(), format!("{} [INST] two [/INST]", before));
}

#[test]
fn reply_is_appended_as_free_text() {
    let mut t = Transcript::new();
    t.append_user_turn("Hi");
    t.append_reply("Hello!");
    assert_eq!(t.as_str(), format!("{}[INST] Hi [/INST] Hello!", SYSTEM_PREAMBLE));
}

#[test]
fn reply_on_an_empty_transcript_gets_no_preamble() {
    let mut t = Transcript::new();
    t.append_reply("x");
    assert_eq!(t.as_str(), " x");
}

#[test]
fn reset_discards_everything() {
    let mut t = Transcript::new();
    t.append_user_turn("Hi");
    t.append_reply("Hello!");
    t.reset();
    assert!(t.is_empty());
    assert_eq!(t.as_str(), "");
    t.append_user_turn("again");
    assert_eq!(t.as_str(), format!("{}[INST] again [/INST]", SYSTEM_PREAMBLE));
}

#[test]
fn bytes_are_the_utf8_encoding() {
    let mut t = Transcript::new();
    t.append_user_turn("caf\u{e9} \u{4f60}\u{597d}");
    let expected = format!("{}[INST] caf\u{e9} \u{4f60}\u{597d} [/INST]", SYSTEM_PREAMBLE);
    assert_eq!(t.as_bytes(), expected.as_bytes());
    assert_eq!(t.to_bytes(), expected.as_bytes().to_vec());
}

#[test]
fn conclude_appends_the_trimmed_reply() {
    let mut t = Transcript::new();
    t.append_user_turn("Hi");
    t.conclude("  Hello!\n", false);
    assert_eq!(t.as_str(), format!("{}[INST] Hi [/INST] Hello!", SYSTEM_PREAMBLE));
}

#[test]
fn conclude_with_an_empty_reply_appends_the_separator() {
    let mut t = Transcript::new();
    t.append_user_turn("Hi");
    t.conclude("", false);
    assert_eq!(t.as_str(), format!("{}[INST] Hi [/INST] ", SYSTEM_PREAMBLE));
}

#[test]
fn conclude_on_overflow_empties_the_transcript() {
    let mut t = Transcript::new();
    t.append_user_turn("Hi");
    t.conclude("partial answer", true);
    assert!(t.is_empty());
    assert_eq!(t.as_str(), "");
}
