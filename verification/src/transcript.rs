//! The conversation transcript: the text that is submitted to the model on
//! every turn, grown by a fixed instruction-tagging template.

use crate::text::{trim, trimmed};
use vstd::prelude::*;
use vstd::utf8::encode_utf8;

verus! {

/// The system prompt that opens every conversation.
pub const SYSTEM_PROMPT: &'static str =
    "You are a helpful, respectful and honest assistant. Always answer as short as possible, while being safe.";

/// The system prompt inside its tags, as it is written once at the very
/// beginning of a transcript.
pub const SYSTEM_PREAMBLE: &'static str =
    "<<SYS>> You are a helpful, respectful and honest assistant. Always answer as short as possible, while being safe. <</SYS>> ";

/// The transcript `prev` after the user said `text`. The first turn of a
/// conversation follows the system preamble; every later one follows what is
/// there, after a space.
pub open spec fn with_user_turn(prev: Seq<char>, text: Seq<char>) -> Seq<char> {
    if prev.len() == 0 {
        SYSTEM_PREAMBLE@ + "[INST] "@ + text + " [/INST]"@
    } else {
        prev + " [INST] "@ + text + " [/INST]"@
    }
}

/// The transcript `prev` after the reply `reply`, which is appended as free
/// text after a space.
pub open spec fn with_reply(prev: Seq<char>, reply: Seq<char>) -> Seq<char> {
    prev + " "@ + reply
}

/// The transcript `prev` at the end of a turn that generated `reply`: emptied
/// when the context overflowed, otherwise extended by the trimmed reply.
pub open spec fn concluded(prev: Seq<char>, reply: Seq<char>, overflow: bool) -> Seq<char> {
    if overflow {
        Seq::empty()
    } else {
        with_reply(prev, trimmed(reply))
    }
}

/// The accumulated conversation text. Its view is the text itself.
pub struct Transcript {
    text: String,
}

impl View for Transcript {
    type V = Seq<char>;

    closed spec fn view(&self) -> Seq<char> {
        self.text@
    }
}

impl Transcript {
    /// An empty transcript: no system preamble has been written yet.
    pub fn new() -> (t: Transcript)
        ensures
            t@ == Seq::<char>::empty(),
    {
        Transcript { text: String::new() }
    }

    /// Whether nothing has been written yet, or everything was discarded.
    pub fn is_empty(&self) -> (b: bool)
        ensures
            b == (self@.len() == 0),
    {
        self.text.as_str().is_empty()
    }

    /// The transcript as text.
    pub fn as_str(&self) -> (s: &str)
        ensures
            s@ == self@,
    {
        self.text.as_str()
    }

    /// The transcript as the UTF-8 bytes that are submitted to the model.
    pub fn as_bytes(&self) -> (b: &[u8])
        ensures
            b@ == encode_utf8(self@),
    {
        self.text.as_str().as_bytes()
    }

    /// A copy of the transcript's UTF-8 bytes.
    pub fn to_bytes(&self) -> (b: Vec<u8>)
        ensures
            b@ == encode_utf8(self@),
    {
        self.text.as_str().as_bytes_vec()
    }

    /// Appends a user turn: after the system preamble when the transcript is
    /// empty, after a space otherwise.
    pub fn append_user_turn(&mut self, text: &str)
        ensures
            final(self)@ == with_user_turn(old(self)@, text@),
    {
        if self.text.as_str().is_empty() {
            self.text.append(SYSTEM_PREAMBLE);
            self.text.append("[INST] ");
        } else {
            self.text.append(" [INST] ");
        }
        self.text.append(text);
        self.text.append(" [/INST]");
    }

    /// Appends a reply as free text after a space.
    pub fn append_reply(&mut self, text: &str)
        ensures
            final(self)@ == with_reply(old(self)@, text@),
    {
        self.text.append(" ");
        self.text.append(text);
    }

    /// Discards the whole conversation.
    pub fn reset(&mut self)
        ensures
            final(self)@ == Seq::<char>::empty(),
    {
        self.text = String::new();
    }

    /// Ends a turn that generated `reply`: discards the conversation when the
    /// context overflowed, and otherwise appends the trimmed reply.
    pub fn conclude(&mut self, reply: &str, overflow: bool)
        ensures
            final(self)@ == concluded(old(self)@, reply@, overflow),
    {
        if overflow {
            self.reset();
        } else {
            let text = trim(reply);
            self.append_reply(text.as_str());
        }
    }
}

} // verus!
