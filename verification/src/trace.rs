//! Runs of a session: what it answers to a sequence of events, and what
//! holds of every turn of a conversation.

use crate::outcome::{classified, overflow, SignalView};
use crate::output::decoded;
use crate::session::{
    lemma_step_keeps_well_formed, step, well_formed, CommandView, EventView, OperationView,
    SessionView, Stage, ANSWER_LABEL, PROMPT_INPUT, PROMPT_LABEL, TOKEN_OUTPUT,
};
use crate::text::{blank_line, trimmed};
use crate::transcript::{concluded, with_user_turn, SYSTEM_PREAMBLE};
use crate::turn::{fresh_turn, written_on, Phase, TurnView, LINE_END};
use vstd::prelude::*;
use vstd::utf8::encode_utf8;

verus! {

/// The session after a sequence of events, and the commands that it gave,
/// one for each event and in their order.
pub open spec fn run(s: SessionView, events: Seq<EventView>) -> (SessionView, Seq<CommandView>)
    decreases events.len(),
{
    if events.len() == 0 {
        (s, Seq::empty())
    } else {
        let (before, given) = run(s, events.drop_last());
        let (after, command) = step(before, events.last());
        (after, given.push(command))
    }
}

/// The events of the generation of tokens: for each output of the engine, a
/// compute step that succeeds and then the buffer that was read.
pub open spec fn token_events(outputs: Seq<(Seq<u8>, nat)>) -> Seq<EventView> {
    Seq::new(
        2 * outputs.len(),
        |j: int|
            if j % 2 == 0 {
                EventView::Computed(Ok(()))
            } else {
                EventView::Output(outputs[j / 2].0, outputs[j / 2].1)
            },
    )
}

/// The commands that answer [`token_events`]: after each compute step the
/// token is asked for, and after each token its text is written and the next
/// step is asked for.
pub open spec fn token_commands(outputs: Seq<(Seq<u8>, nat)>) -> Seq<CommandView> {
    Seq::new(
        2 * outputs.len(),
        |j: int|
            if j % 2 == 0 {
                CommandView {
                    write: Seq::empty(),
                    next: OperationView::ReadOutput { index: TOKEN_OUTPUT },
                }
            } else {
                CommandView {
                    write: decoded(outputs[j / 2].0, outputs[j / 2].1),
                    next: OperationView::Compute,
                }
            },
    )
}

/// The texts of the tokens, one after the other.
pub open spec fn reply_text(outputs: Seq<(Seq<u8>, nat)>) -> Seq<char>
    decreases outputs.len(),
{
    if outputs.len() == 0 {
        Seq::empty()
    } else {
        reply_text(outputs.drop_last()) + decoded(outputs.last().0, outputs.last().1)
    }
}

/// The events of one whole turn: a line of input that is not blank, the
/// prompt accepted, the tokens, the signal that ends the generation, and the
/// release.
pub open spec fn turn_events(
    line: Seq<char>,
    outputs: Seq<(Seq<u8>, nat)>,
    signal: SignalView,
) -> Seq<EventView> {
    seq![EventView::Line(line), EventView::InputAccepted] + token_events(outputs)
        + seq![EventView::Computed(Err(signal)), EventView::Released]
}

/// The commands that answer [`turn_events`] when the transcript was `prev`.
pub open spec fn turn_commands(
    prev: Seq<char>,
    line: Seq<char>,
    outputs: Seq<(Seq<u8>, nat)>,
    signal: SignalView,
) -> Seq<CommandView> {
    seq![
        CommandView {
            write: Seq::empty(),
            next: OperationView::SetInput {
                index: PROMPT_INPUT,
                data: encode_utf8(with_user_turn(prev, trimmed(line))),
            },
        },
        CommandView { write: ANSWER_LABEL@, next: OperationView::Compute },
    ] + token_commands(outputs) + seq![
        CommandView {
            write: written_on(classified(signal)) + LINE_END@,
            next: OperationView::Release,
        },
        CommandView { write: PROMPT_LABEL@, next: OperationView::ReadLine },
    ]
}

/// The transcript `prev` after a whole turn.
pub open spec fn transcript_after(
    prev: Seq<char>,
    line: Seq<char>,
    outputs: Seq<(Seq<u8>, nat)>,
    signal: SignalView,
) -> Seq<char> {
    concluded(
        with_user_turn(prev, trimmed(line)),
        reply_text(outputs),
        overflow(classified(signal)),
    )
}

/// What happens in one turn: the line that was read, what the engine wrote
/// for each token, and the signal that ended the generation.
pub struct Exchange {
    pub line: Seq<char>,
    pub outputs: Seq<(Seq<u8>, nat)>,
    pub signal: SignalView,
}

/// The events of a conversation: those of its turns, one turn after the other.
pub open spec fn conversation_events(turns: Seq<Exchange>) -> Seq<EventView>
    decreases turns.len(),
{
    if turns.len() == 0 {
        Seq::empty()
    } else {
        conversation_events(turns.drop_last()) + turn_events(
            turns.last().line,
            turns.last().outputs,
            turns.last().signal,
        )
    }
}

/// The transcript `prev` after a conversation.
pub open spec fn conversation_transcript(prev: Seq<char>, turns: Seq<Exchange>) -> Seq<char>
    decreases turns.len(),
{
    if turns.len() == 0 {
        prev
    } else {
        transcript_after(
            conversation_transcript(prev, turns.drop_last()),
            turns.last().line,
            turns.last().outputs,
            turns.last().signal,
        )
    }
}

/// How many of the commands ask for the release of the engine's session.
pub open spec fn releases(commands: Seq<CommandView>) -> nat
    decreases commands.len(),
{
    if commands.len() == 0 {
        0
    } else {
        releases(commands.drop_last()) + if commands.last().next is Release {
            1nat
        } else {
            0nat
        }
    }
}

/// A run over one more event is the run so far, followed by one step.
pub proof fn lemma_run_push(s: SessionView, events: Seq<EventView>, event: EventView)
    ensures
        run(s, events.push(event)) == (
            step(run(s, events).0, event).0,
            run(s, events).1.push(step(run(s, events).0, event).1),
        ),
{
    assert(events.push(event).drop_last() =~= events);
}

/// A run over two sequences of events is the run over the first, followed by
/// the run over the second from where the first ended.
pub proof fn lemma_run_concat(s: SessionView, first: Seq<EventView>, second: Seq<EventView>)
    ensures
        run(s, first + second) == (
            run(run(s, first).0, second).0,
            run(s, first).1 + run(run(s, first).0, second).1,
        ),
    decreases second.len(),
{
    if second.len() > 0 {
        lemma_run_concat(s, first, second.drop_last());
        assert((first + second).drop_last() =~= first + second.drop_last());
    }
}

/// Every state that a session reaches from a well-formed state is well-formed.
pub proof fn lemma_run_keeps_well_formed(s: SessionView, events: Seq<EventView>)
    requires
        well_formed(s),
    ensures
        well_formed(run(s, events).0),
    decreases events.len(),
{
    if events.len() > 0 {
        lemma_run_keeps_well_formed(s, events.drop_last());
        lemma_step_keeps_well_formed(run(s, events.drop_last()).0, events.last());
    }
}

/// One more command adds one release if it asks for one, and none otherwise.
pub proof fn lemma_releases_push(commands: Seq<CommandView>, command: CommandView)
    ensures
        releases(commands.push(command)) == releases(commands) + if command.next is Release {
            1nat
        } else {
            0nat
        },
{
    assert(commands.push(command).drop_last() =~= commands);
}

/// Counting releases over two sequences of commands adds up.
pub proof fn lemma_releases_concat(first: Seq<CommandView>, second: Seq<CommandView>)
    ensures
        releases(first + second) == releases(first) + releases(second),
    decreases second.len(),
{
    if second.len() > 0 {
        lemma_releases_concat(first, second.drop_last());
        assert((first + second).drop_last() =~= first + second.drop_last());
    }
}

/// No command that answers the generation of tokens asks for a release.
pub proof fn lemma_token_commands_release_nothing(outputs: Seq<(Seq<u8>, nat)>)
    ensures
        releases(token_commands(outputs)) == 0,
    decreases outputs.len(),
{
    if outputs.len() > 0 {
        let shorter = outputs.drop_last();
        lemma_token_commands_release_nothing(shorter);
        let commands = token_commands(outputs);
        let n = shorter.len() as int;
        let asked = commands[2 * n];
        let written = commands[2 * n + 1];
        assert(commands =~= token_commands(shorter).push(asked).push(written));
        lemma_releases_push(token_commands(shorter), asked);
        lemma_releases_push(token_commands(shorter).push(asked), written);
    }
}

/// Streaming order. While tokens are generated, each token is written by the
/// very command that answers its arrival, before the next compute step is
/// asked for, and so in the order in which the compute steps produced them;
/// the reply grows by the tokens' texts in that order, and the transcript
/// stays as it is.
pub proof fn lemma_tokens_stream_in_order(s: SessionView, outputs: Seq<(Seq<u8>, nat)>)
    requires
        s.stage is AwaitingStep,
        s.turn.phase is Running,
    ensures
        run(s, token_events(outputs)) == (
            SessionView {
                transcript: s.transcript,
                turn: TurnView { phase: Phase::Running, reply: s.turn.reply + reply_text(outputs) },
                stage: Stage::AwaitingStep,
            },
            token_commands(outputs),
        ),
        forall|i: int|
            0 <= i < outputs.len() ==> (#[trigger] run(s, token_events(outputs)).1[2 * i + 1])
                == (CommandView {
                write: decoded(outputs[i].0, outputs[i].1),
                next: OperationView::Compute,
            }),
    decreases outputs.len(),
{
    if outputs.len() > 0 {
        let shorter = outputs.drop_last();
        let last = outputs.last();
        let computed = EventView::Computed(Ok(()));
        let read = EventView::Output(last.0, last.1);
        let asked = CommandView {
            write: Seq::empty(),
            next: OperationView::ReadOutput { index: TOKEN_OUTPUT },
        };
        let written = CommandView {
            write: decoded(last.0, last.1),
            next: OperationView::Compute,
        };
        lemma_tokens_stream_in_order(s, shorter);
        assert(token_events(outputs) =~= token_events(shorter).push(computed).push(read));
        lemma_run_push(s, token_events(shorter), computed);
        lemma_run_push(s, token_events(shorter).push(computed), read);
        assert(token_commands(outputs) =~= token_commands(shorter).push(asked).push(written));
        assert((s.turn.reply + reply_text(shorter)) + decoded(last.0, last.1) =~= s.turn.reply
            + reply_text(outputs));
    }
}

/// A whole turn. From a session that waits for a line, the events of a turn
/// are answered by exactly the commands of [`turn_commands`], and leave the
/// session waiting for the next line with the transcript of
/// [`transcript_after`].
pub proof fn lemma_turn(
    s: SessionView,
    line: Seq<char>,
    outputs: Seq<(Seq<u8>, nat)>,
    signal: SignalView,
)
    requires
        s.stage is AwaitingLine,
        !blank_line(line),
    ensures
        run(s, turn_events(line, outputs, signal)) == (
            SessionView {
                transcript: transcript_after(s.transcript, line, outputs, signal),
                turn: fresh_turn(),
                stage: Stage::AwaitingLine,
            },
            turn_commands(s.transcript, line, outputs, signal),
        ),
{
    let head = seq![EventView::Line(line), EventView::InputAccepted];
    let tail = seq![EventView::Computed(Err(signal)), EventView::Released];
    let tokens = token_events(outputs);
    let none = Seq::<EventView>::empty();

    assert(head =~= none.push(EventView::Line(line)).push(EventView::InputAccepted));
    lemma_run_push(s, none, EventView::Line(line));
    lemma_run_push(s, none.push(EventView::Line(line)), EventView::InputAccepted);
    let accepted = run(s, head).0;

    lemma_tokens_stream_in_order(accepted, outputs);
    let generated = run(accepted, tokens).0;

    assert(tail =~= none.push(EventView::Computed(Err(signal))).push(EventView::Released));
    lemma_run_push(generated, none, EventView::Computed(Err(signal)));
    lemma_run_push(
        generated,
        none.push(EventView::Computed(Err(signal))),
        EventView::Released,
    );

    lemma_run_concat(s, head, tokens);
    lemma_run_concat(s, head + tokens, tail);
}

/// Template correctness. On an empty transcript, that is at the first turn
/// of a conversation and at the first after an overflow, the prompt that is
/// submitted for a line of input is the encoding of the system preamble,
/// `"[INST] "`, the trimmed line and `" [/INST]"`, and of nothing else.
pub proof fn lemma_first_turn_template(s: SessionView, line: Seq<char>)
    requires
        s.stage is AwaitingLine,
        s.transcript.len() == 0,
        !blank_line(line),
    ensures
        step(s, EventView::Line(line)).0.transcript == SYSTEM_PREAMBLE@ + "[INST] "@ + trimmed(
            line,
        ) + " [/INST]"@,
        step(s, EventView::Line(line)).1.next == (OperationView::SetInput {
            index: PROMPT_INPUT,
            data: encode_utf8(SYSTEM_PREAMBLE@ + "[INST] "@ + trimmed(line) + " [/INST]"@),
        }),
{
}

/// Turn accumulation. A turn that does not end in an overflow, on a
/// transcript that is not empty, leaves the transcript as it was, followed by
/// `" [INST] "`, the trimmed line and `" [/INST]"`, followed by a space and
/// the trimmed reply: the transcript only ever grows at its end.
pub proof fn lemma_turn_accumulates(
    s: SessionView,
    line: Seq<char>,
    outputs: Seq<(Seq<u8>, nat)>,
    signal: SignalView,
)
    requires
        s.stage is AwaitingLine,
        s.transcript.len() > 0,
        !blank_line(line),
        !overflow(classified(signal)),
    ensures
        run(s, turn_events(line, outputs, signal)).0.transcript == s.transcript + (" [INST] "@
            + trimmed(line) + " [/INST]"@) + (" "@ + trimmed(reply_text(outputs))),
        s.transcript.is_prefix_of(run(s, turn_events(line, outputs, signal)).0.transcript),
{
    lemma_turn(s, line, outputs, signal);
}

/// Overflow resets. A turn that ends because the context is full or the
/// prompt too long leaves the transcript empty, whatever it held before and
/// whatever was generated.
pub proof fn lemma_overflow_resets(
    s: SessionView,
    line: Seq<char>,
    outputs: Seq<(Seq<u8>, nat)>,
    signal: SignalView,
)
    requires
        s.stage is AwaitingLine,
        !blank_line(line),
        signal is ContextFull || signal is PromptTooLong,
    ensures
        run(s, turn_events(line, outputs, signal)).0.transcript == Seq::<char>::empty(),
{
    lemma_turn(s, line, outputs, signal);
}

/// Resource release. In every turn, however it ends, exactly one command asks
/// for the release of the engine's session: the one that answers the signal
/// that ended the generation. After the release the session waits for the
/// next line.
pub proof fn lemma_release_once(
    s: SessionView,
    line: Seq<char>,
    outputs: Seq<(Seq<u8>, nat)>,
    signal: SignalView,
)
    requires
        s.stage is AwaitingLine,
        !blank_line(line),
    ensures
        releases(run(s, turn_events(line, outputs, signal)).1) == 1,
        run(s, turn_events(line, outputs, signal)).1.len() == 2 * outputs.len() + 4,
        run(s, turn_events(line, outputs, signal)).1[2 * outputs.len() as int + 2].next is Release,
        run(s, turn_events(line, outputs, signal)).0.stage is AwaitingLine,
{
    lemma_turn(s, line, outputs, signal);
    let head = seq![
        CommandView {
            write: Seq::empty(),
            next: OperationView::SetInput {
                index: PROMPT_INPUT,
                data: encode_utf8(with_user_turn(s.transcript, trimmed(line))),
            },
        },
        CommandView { write: ANSWER_LABEL@, next: OperationView::Compute },
    ];
    let tail = seq![
        CommandView {
            write: written_on(classified(signal)) + LINE_END@,
            next: OperationView::Release,
        },
        CommandView { write: PROMPT_LABEL@, next: OperationView::ReadLine },
    ];
    let none = Seq::<CommandView>::empty();
    assert(releases(head) == 0) by {
        assert(head =~= none.push(head[0]).push(head[1]));
        lemma_releases_push(none, head[0]);
        lemma_releases_push(none.push(head[0]), head[1]);
    }
    assert(releases(tail) == 1) by {
        assert(tail =~= none.push(tail[0]).push(tail[1]));
        lemma_releases_push(none, tail[0]);
        lemma_releases_push(none.push(tail[0]), tail[1]);
    }
    lemma_token_commands_release_nothing(outputs);
    lemma_releases_concat(head, token_commands(outputs));
    lemma_releases_concat(head + token_commands(outputs), tail);
}

/// A whole conversation. Turn after turn, the transcript is what the turns
/// make of it in their order, each building on what the one before left, and
/// the engine's session is asked to be released once for each turn.
pub proof fn lemma_conversation(s: SessionView, turns: Seq<Exchange>)
    requires
        s.stage is AwaitingLine,
        s.turn == fresh_turn(),
        forall|i: int| 0 <= i < turns.len() ==> !blank_line(#[trigger] turns[i].line),
    ensures
        run(s, conversation_events(turns)).0 == (SessionView {
            transcript: conversation_transcript(s.transcript, turns),
            turn: fresh_turn(),
            stage: Stage::AwaitingLine,
        }),
        releases(run(s, conversation_events(turns)).1) == turns.len(),
    decreases turns.len(),
{
    if turns.len() > 0 {
        let earlier = turns.drop_last();
        let last = turns.last();
        lemma_conversation(s, earlier);
        let mid = run(s, conversation_events(earlier)).0;
        lemma_turn(mid, last.line, last.outputs, last.signal);
        lemma_release_once(mid, last.line, last.outputs, last.signal);
        lemma_run_concat(
            s,
            conversation_events(earlier),
            turn_events(last.line, last.outputs, last.signal),
        );
        lemma_releases_concat(
            run(s, conversation_events(earlier)).1,
            run(mid, turn_events(last.line, last.outputs, last.signal)).1,
        );
    }
}

} // verus!
