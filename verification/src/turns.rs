//! What holds of the orchestrator over whole runs of events: how its depth
//! counts the sessions in flight, and what a turn leaves in the conversation.

use crate::app::{
    announcement, effects, granted, has_room, initial, repl_state, start_turn, step,
    tool_effects, tool_text, tools_effects, tools_state, AppView, EffectView,
    StdoutMessageView, SESSION_FAILED,
};
use crate::conversation::well_formed;
use crate::message::{assistant_message, tool_message, user_message, MessageView, ToolCallView};
use crate::ollama::{is_terminal, ModelMessageView, OllamaMessageView, OllamaResponseView};
use crate::tools::{reply_at, resolved, FsReplyView};
use vstd::prelude::*;

verus! {

/// What comes in at one step: what a session sent, and what was read for its
/// tool calls.
pub struct Incoming {
    pub message: OllamaMessageView,
    pub replies: Seq<FsReplyView>,
}

/// The state after the events were taken one after the other.
pub open spec fn run(s: AppView, events: Seq<Incoming>) -> AppView
    decreases events.len(),
{
    if events.len() == 0 {
        s
    } else {
        step(run(s, events.drop_last()), events.last().message, events.last().replies)
    }
}

/// All that was to be done while the events were taken, in order.
pub open spec fn run_effects(s: AppView, events: Seq<Incoming>) -> Seq<EffectView>
    decreases events.len(),
{
    if events.len() == 0 {
        Seq::empty()
    } else {
        run_effects(s, events.drop_last()) + effects(
            run(s, events.drop_last()),
            events.last().message,
            events.last().replies,
        )
    }
}

/// The number of sessions that the effects launch.
pub open spec fn launches(effects: Seq<EffectView>) -> nat
    decreases effects.len(),
{
    if effects.len() == 0 {
        0
    } else if effects.last() is Launch {
        launches(effects.drop_last()) + 1
    } else {
        launches(effects.drop_last())
    }
}

/// The number of sessions that the events end.
pub open spec fn endings(events: Seq<Incoming>) -> nat
    decreases events.len(),
{
    if events.len() == 0 {
        0
    } else if is_terminal(events.last().message) {
        endings(events.drop_last()) + 1
    } else {
        endings(events.drop_last())
    }
}

/// The fragments of the answer that the effects show, one after the other.
pub open spec fn shown_answer(effects: Seq<EffectView>) -> Seq<char>
    decreases effects.len(),
{
    if effects.len() == 0 {
        Seq::empty()
    } else {
        match effects.last() {
            EffectView::Show(StdoutMessageView::Inline(fragment)) => shown_answer(
                effects.drop_last(),
            ) + fragment,
            _ => shown_answer(effects.drop_last()),
        }
    }
}

/// The tool calls that an event carries.
pub open spec fn calls_of(event: Incoming) -> Seq<ToolCallView> {
    match event.message {
        OllamaMessageView::Chunk(response) => match response.message.tool_calls {
            Some(calls) => calls,
            None => Seq::empty(),
        },
        _ => Seq::empty(),
    }
}

/// The number of tool calls that the events carry.
pub open spec fn calls_in(events: Seq<Incoming>) -> nat
    decreases events.len(),
{
    if events.len() == 0 {
        0
    } else {
        calls_in(events.drop_last()) + calls_of(events.last()).len()
    }
}

/// The messages that hold the results of the calls, in the order of the calls.
pub open spec fn call_messages(calls: Seq<ToolCallView>, replies: Seq<FsReplyView>) -> Seq<
    MessageView,
>
    decreases calls.len(),
{
    if calls.len() == 0 {
        Seq::empty()
    } else {
        call_messages(calls.drop_last(), replies).push(
            tool_message(
                tool_text(calls.last(), reply_at(replies, calls.len() - 1)),
                calls.last().name,
            ),
        )
    }
}

/// The messages that hold the results of all the calls that the events
/// carry, in the order in which the model made them.
pub open spec fn tool_messages(events: Seq<Incoming>) -> Seq<MessageView>
    decreases events.len(),
{
    if events.len() == 0 {
        Seq::empty()
    } else {
        tool_messages(events.drop_last()) + call_messages(
            calls_of(events.last()),
            events.last().replies,
        )
    }
}

/// The fragment of the answer that an event carries: the content of an
/// object that holds neither tool calls nor thinking.
pub open spec fn fragment_of(event: Incoming) -> Seq<char> {
    match event.message {
        OllamaMessageView::Chunk(response) => if response.message.tool_calls is None
            && response.message.thinking is None && response.message.content is Some {
            response.message.content->0
        } else {
            Seq::empty()
        },
        _ => Seq::empty(),
    }
}

/// The fragments of the answer that the events carry, one after the other
/// in the order in which they came, whichever session sent them.
pub open spec fn gathered(events: Seq<Incoming>) -> Seq<char>
    decreases events.len(),
{
    if events.len() == 0 {
        Seq::empty()
    } else {
        gathered(events.drop_last()) + fragment_of(events.last())
    }
}

/// Whether a turn is in flight before each of the events.
pub open spec fn in_flight(s: AppView, events: Seq<Incoming>) -> bool {
    forall|k: int| 0 <= k < events.len() ==> (#[trigger] run(s, events.take(k))).depth > 0
}

/// Whether, at every point of the run, no more sessions have ended than were
/// in flight at its start or were launched in it.
pub open spec fn ends_only_what_runs(s: AppView, events: Seq<Incoming>) -> bool {
    forall|k: int|
        0 <= k <= events.len() ==> #[trigger] endings(events.take(k)) <= s.depth + launches(
            run_effects(s, events.take(k)),
        )
}

/// Whether an event carries neither tool calls nor the end of a session.
pub open spec fn is_plain(event: Incoming) -> bool {
    event.message matches OllamaMessageView::Chunk(response) && response.message.tool_calls is None
}

proof fn lemma_launches_add(a: Seq<EffectView>, b: Seq<EffectView>)
    ensures
        launches(a + b) == launches(a) + launches(b),
    decreases b.len(),
{
    if b.len() > 0 {
        assert((a + b).drop_last() =~= a + b.drop_last());
        lemma_launches_add(a, b.drop_last());
    }
}

proof fn lemma_shown_answer_add(a: Seq<EffectView>, b: Seq<EffectView>)
    ensures
        shown_answer(a + b) == shown_answer(a) + shown_answer(b),
    decreases b.len(),
{
    if b.len() > 0 {
        assert((a + b).drop_last() =~= a + b.drop_last());
        lemma_shown_answer_add(a, b.drop_last());
        match b.last() {
            EffectView::Show(StdoutMessageView::Inline(fragment)) => {
                assert((shown_answer(a) + shown_answer(b.drop_last())) + fragment =~= shown_answer(
                    a,
                ) + (shown_answer(b.drop_last()) + fragment));
            },
            _ => {},
        }
    }
}

proof fn lemma_short_effects(a: EffectView, b: EffectView)
    ensures
        launches(seq![a]) == if a is Launch {
            1nat
        } else {
            0nat
        },
        launches(seq![a, b]) == launches(seq![a]) + launches(seq![b]),
        shown_answer(seq![a]) == match a {
            EffectView::Show(StdoutMessageView::Inline(fragment)) => fragment,
            _ => Seq::<char>::empty(),
        },
        shown_answer(seq![a, b]) == shown_answer(seq![a]) + shown_answer(seq![b]),
{
    assert(seq![a].drop_last() =~= Seq::<EffectView>::empty());
    assert(launches(Seq::<EffectView>::empty()) == 0);
    assert(shown_answer(Seq::<EffectView>::empty()) =~= Seq::<char>::empty());
    assert(seq![a, b] =~= seq![a] + seq![b]);
    lemma_launches_add(seq![a], seq![b]);
    lemma_shown_answer_add(seq![a], seq![b]);
}

/// The depth grows by the sessions that the calls of one response launch;
/// nothing else of the state's count or limit changes.
proof fn lemma_tools_depth(s: AppView, calls: Seq<ToolCallView>, replies: Seq<FsReplyView>)
    ensures
        tools_state(s, calls, replies).depth == s.depth + launches(
            tools_effects(s, calls, replies),
        ),
        tools_state(s, calls, replies).limit == s.limit,
        tools_state(s, calls, replies).answer == s.answer,
        shown_answer(tools_effects(s, calls, replies)) == Seq::<char>::empty(),
    decreases calls.len(),
{
    if calls.len() > 0 {
        let before = tools_state(s, calls.drop_last(), replies);
        let done = tools_effects(s, calls.drop_last(), replies);
        let last = tool_effects(before, calls.last(), reply_at(replies, calls.len() - 1));
        lemma_tools_depth(s, calls.drop_last(), replies);
        lemma_launches_add(done, last);
        lemma_shown_answer_add(done, last);
        if has_room(before) {
            lemma_short_effects(last[0], last[1]);
            lemma_short_effects(last[1], last[0]);
        } else {
            lemma_short_effects(last[0], last[0]);
        }
    }
}

/// With room for all of them, the calls of one response put their results
/// at the end of the conversation, in their order, and launch one session each.
proof fn lemma_tools_history(s: AppView, calls: Seq<ToolCallView>, replies: Seq<FsReplyView>)
    requires
        s.depth + calls.len() <= s.limit,
    ensures
        tools_state(s, calls, replies).depth == s.depth + calls.len(),
        tools_state(s, calls, replies).limit == s.limit,
        tools_state(s, calls, replies).history == s.history + call_messages(calls, replies),
    decreases calls.len(),
{
    if calls.len() > 0 {
        lemma_tools_history(s, calls.drop_last(), replies);
        assert(tools_state(s, calls, replies).history =~= s.history + call_messages(
            calls,
            replies,
        ));
    }
}

/// What holds of every state that the orchestrator reaches: the
/// conversation starts with the system message and holds no other, and the
/// depth is within its limit.
pub open spec fn coherent(s: AppView) -> bool {
    well_formed(s.history) && s.depth <= s.limit && s.limit >= 1
}

proof fn lemma_tools_keep_the_conversation(
    s: AppView,
    calls: Seq<ToolCallView>,
    replies: Seq<FsReplyView>,
)
    requires
        coherent(s),
    ensures
        coherent(tools_state(s, calls, replies)),
        s.history.is_prefix_of(tools_state(s, calls, replies).history),
        s.depth <= tools_state(s, calls, replies).depth,
    decreases calls.len(),
{
    if calls.len() > 0 {
        lemma_tools_keep_the_conversation(s, calls.drop_last(), replies);
    }
}

/// The state before the first prompt is coherent, whatever limit was asked
/// for.
pub proof fn lemma_initial_is_coherent(limit: nat)
    ensures
        coherent(initial(granted(limit))),
        initial(granted(limit)).depth == 0,
{
}

/// A request to start a turn, and anything that a session sent, leave a
/// coherent state coherent. The conversation only grows at its end: what
/// it held stays, in the same order.
pub proof fn lemma_step_keeps_the_conversation(
    s: AppView,
    prompt: Option<Seq<char>>,
    message: OllamaMessageView,
    replies: Seq<FsReplyView>,
)
    requires
        coherent(s),
    ensures
        coherent(repl_state(s, prompt)),
        s.history.is_prefix_of(repl_state(s, prompt).history),
        coherent(step(s, message, replies)),
        s.history.is_prefix_of(step(s, message, replies).history),
{
    match message {
        OllamaMessageView::Chunk(response) => {
            if response.message.tool_calls is Some {
                lemma_tools_keep_the_conversation(s, response.message.tool_calls->0, replies);
            }
        },
        _ => {},
    }
}

/// A run leaves a coherent state coherent, and the conversation only grows
/// at its end.
pub proof fn lemma_run_keeps_the_conversation(s: AppView, events: Seq<Incoming>)
    requires
        coherent(s),
    ensures
        coherent(run(s, events)),
        s.history.is_prefix_of(run(s, events).history),
    decreases events.len(),
{
    if events.len() > 0 {
        lemma_run_keeps_the_conversation(s, events.drop_last());
        lemma_step_keeps_the_conversation(
            run(s, events.drop_last()),
            None,
            events.last().message,
            events.last().replies,
        );
    }
}

proof fn lemma_effects_of_ending(s: AppView, message: OllamaMessageView, replies: Seq<FsReplyView>)
    requires
        is_terminal(message),
    ensures
        launches(effects(s, message, replies)) == 0,
{
    let e = effects(s, message, replies);
    if e.len() == 2 {
        lemma_short_effects(e[0], e[1]);
        lemma_short_effects(e[1], e[0]);
        assert(e =~= seq![e[0], e[1]]);
    } else if e.len() == 1 {
        lemma_short_effects(e[0], e[0]);
    }
}

proof fn lemma_effects_of_plain(s: AppView, event: Incoming)
    requires
        is_plain(event),
    ensures
        launches(effects(s, event.message, event.replies)) == 0,
        s.depth > 0 ==> shown_answer(effects(s, event.message, event.replies)) == fragment_of(
            event,
        ),
        s.depth > 0 ==> step(s, event.message, event.replies) == (AppView {
            answer: s.answer + fragment_of(event),
            ..s
        }),
{
    let e = effects(s, event.message, event.replies);
    if e.len() > 0 {
        lemma_short_effects(e[0], e[0]);
    }
}

/// The depth counts the sessions in flight. Where no more sessions end than
/// are running, the depth after a run is the depth at its start, plus the
/// sessions launched, minus the sessions ended. So it is back at zero when
/// every session has ended, and not before.
pub proof fn lemma_depth_counts_sessions(s: AppView, events: Seq<Incoming>)
    requires
        ends_only_what_runs(s, events),
    ensures
        run(s, events).depth == s.depth + launches(run_effects(s, events)) - endings(events),
        run(s, events).depth == 0 <==> endings(events) == s.depth + launches(
            run_effects(s, events),
        ),
    decreases events.len(),
{
    if events.len() > 0 {
        let earlier = events.drop_last();
        let last = events.last();
        assert forall|k: int| 0 <= k <= earlier.len() implies #[trigger] endings(earlier.take(k))
            <= s.depth + launches(run_effects(s, earlier.take(k))) by {
            assert(earlier.take(k) =~= events.take(k));
        }
        lemma_depth_counts_sessions(s, earlier);
        let before = run(s, earlier);
        let done = run_effects(s, earlier);
        let now = effects(before, last.message, last.replies);
        lemma_launches_add(done, now);
        assert(events.take(events.len() as int) =~= events);
        assert(endings(events.take(events.len() as int)) <= s.depth + launches(
            run_effects(s, events.take(events.len() as int)),
        ));
        if is_terminal(last.message) {
            lemma_effects_of_ending(before, last.message, last.replies);
        } else if is_plain(last) {
            lemma_effects_of_plain(before, last);
        } else if before.depth > 0 {
            lemma_tools_depth(before, calls_of(last), last.replies);
        }
    }
}

/// While a turn is in flight, events that carry neither tool calls nor the
/// end of a session change nothing but the answer, which grows by the
/// fragments that are shown.
proof fn lemma_plain_run(s: AppView, events: Seq<Incoming>)
    requires
        s.depth > 0,
        forall|i: int| 0 <= i < events.len() ==> is_plain(#[trigger] events[i]),
    ensures
        run(s, events) == (AppView { answer: s.answer + shown_answer(run_effects(s, events)), ..s }),
    decreases events.len(),
{
    if events.len() > 0 {
        let earlier = events.drop_last();
        lemma_plain_run(s, earlier);
        let before = run(s, earlier);
        let last = events.last();
        lemma_effects_of_plain(before, last);
        lemma_shown_answer_add(
            run_effects(s, earlier),
            effects(before, last.message, last.replies),
        );
        assert(run(s, events).answer =~= s.answer + shown_answer(run_effects(s, events)));
    }
}

/// What is shown for an event that carries neither tool calls nor the end
/// of a session: its thinking in italics, or else its fragment of the answer.
pub open spec fn plain_effects(event: Incoming) -> Seq<EffectView> {
    match event.message {
        OllamaMessageView::Chunk(response) => match response.message.thinking {
            Some(thinking) => seq![EffectView::Show(StdoutMessageView::Italic(thinking))],
            None => match response.message.content {
                Some(fragment) => seq![EffectView::Show(StdoutMessageView::Inline(fragment))],
                None => Seq::empty(),
            },
        },
        _ => Seq::empty(),
    }
}

/// What is shown for such events, in the order in which they came.
pub open spec fn shown_for(chunks: Seq<Incoming>) -> Seq<EffectView>
    decreases chunks.len(),
{
    if chunks.len() == 0 {
        Seq::empty()
    } else {
        shown_for(chunks.drop_last()) + plain_effects(chunks.last())
    }
}

/// What is shown when the last session of a turn ends: why it broke off,
/// where it did, and then the end of the turn.
pub open spec fn closing_effects(end: Incoming) -> Seq<EffectView> {
    match end.message {
        OllamaMessageView::Failed(reason) => seq![
            EffectView::Show(StdoutMessageView::Error(SESSION_FAILED@ + reason)),
            EffectView::Show(StdoutMessageView::EOF),
        ],
        _ => seq![EffectView::Show(StdoutMessageView::EOF)],
    }
}

proof fn lemma_plain_run_shows(s: AppView, events: Seq<Incoming>)
    requires
        s.depth > 0,
        forall|i: int| 0 <= i < events.len() ==> is_plain(#[trigger] events[i]),
    ensures
        run_effects(s, events) == shown_for(events),
        run(s, events) == (AppView { answer: s.answer + gathered(events), ..s }),
    decreases events.len(),
{
    if events.len() > 0 {
        let earlier = events.drop_last();
        lemma_plain_run_shows(s, earlier);
        assert(run(s, events).answer =~= s.answer + gathered(events));
    }
}

/// A turn without tool calls, started by a prompt while no session is in
/// flight: the fragments of the answer are shown in the order in which they
/// come, the thinking in italics, and the end of the turn last. The
/// conversation then holds what was there, the prompt, and one answer of
/// the model: the fragments one after the other, without the thinking. No
/// session is in flight after it.
pub proof fn lemma_turn_without_tools(
    s: AppView,
    prompt: Seq<char>,
    chunks: Seq<Incoming>,
    end: Incoming,
)
    requires
        s.depth == 0,
        forall|i: int| 0 <= i < chunks.len() ==> is_plain(#[trigger] chunks[i]),
        is_terminal(end.message),
    ensures
        repl_state(s, Some(prompt)) == start_turn(s, prompt),
        run(start_turn(s, prompt), chunks.push(end)).depth == 0,
        run(start_turn(s, prompt), chunks.push(end)).history == s.history + seq![
            user_message(prompt),
            assistant_message(gathered(chunks)),
        ],
        run_effects(start_turn(s, prompt), chunks.push(end)) == shown_for(chunks)
            + closing_effects(end),
        shown_answer(shown_for(chunks)) == gathered(chunks),
{
    let start = start_turn(s, prompt);
    lemma_plain_run(start, chunks);
    lemma_plain_run_shows(start, chunks);
    assert(chunks.push(end).drop_last() =~= chunks);
    assert(run(start, chunks.push(end)).history =~= s.history + seq![
        user_message(prompt),
        assistant_message(gathered(chunks)),
    ]);
}

/// What a run leaves while the turn stays in flight and there is room for
/// every call.
proof fn lemma_run_in_flight(s: AppView, events: Seq<Incoming>)
    requires
        s.depth > 0,
        s.depth + calls_in(events) <= s.limit,
        in_flight(s, events),
    ensures
        run(s, events).limit == s.limit,
        run(s, events).depth <= s.depth + calls_in(events),
        run(s, events).depth > 0 ==> run(s, events).history == s.history + tool_messages(events),
        run(s, events).depth == 0 ==> events.len() > 0 && run(s, events).history == s.history
            + tool_messages(events) + seq![assistant_message(s.answer + gathered(events))],
        run(s, events).depth > 0 ==> run(s, events).answer == s.answer + gathered(events),
    decreases events.len(),
{
    if events.len() > 0 {
        let earlier = events.drop_last();
        let last = events.last();
        assert forall|k: int| 0 <= k < earlier.len() implies (#[trigger] run(
            s,
            earlier.take(k),
        )).depth > 0 by {
            assert(earlier.take(k) =~= events.take(k));
        }
        lemma_run_in_flight(s, earlier);
        if !is_plain(last) && !is_terminal(last.message) {
            let before = run(s, earlier);
            lemma_tools_history(before, calls_of(last), last.replies);
            lemma_tools_depth(before, calls_of(last), last.replies);
        }
    }
}

/// A whole turn leaves in the conversation what was there, the prompt, the
/// results of the tool calls in the order in which the model made them, and
/// one answer of the model: all the fragments of the turn, in the order in
/// which they came, however the sessions' events lie between each other. A
/// turn here is a run that starts with a prompt, is in flight before each of
/// its events and over after the last; the limit leaves room for the first
/// session and one per call.
pub proof fn lemma_turn_history(s: AppView, prompt: Seq<char>, events: Seq<Incoming>)
    requires
        1 + calls_in(events) <= s.limit,
        in_flight(start_turn(s, prompt), events),
        run(start_turn(s, prompt), events).depth == 0,
    ensures
        events.len() > 0,
        is_terminal(events.last().message),
        tool_messages(events).len() == calls_in(events),
        run(start_turn(s, prompt), events).history == s.history + seq![user_message(prompt)]
            + tool_messages(events) + seq![assistant_message(gathered(events))],
{
    let start = start_turn(s, prompt);
    lemma_run_in_flight(start, events);
    let earlier = events.drop_last();
    assert forall|k: int| 0 <= k < earlier.len() implies (#[trigger] run(
        start,
        earlier.take(k),
    )).depth > 0 by {
        assert(earlier.take(k) =~= events.take(k));
    }
    lemma_run_in_flight(start, earlier);
    lemma_tool_messages_len(events);
    assert(run(start, events).history =~= s.history + seq![user_message(prompt)] + tool_messages(
        events,
    ) + seq![assistant_message(gathered(events))]);
}

proof fn lemma_call_messages_len(calls: Seq<ToolCallView>, replies: Seq<FsReplyView>)
    ensures
        call_messages(calls, replies).len() == calls.len(),
    decreases calls.len(),
{
    if calls.len() > 0 {
        lemma_call_messages_len(calls.drop_last(), replies);
    }
}

proof fn lemma_tool_messages_len(events: Seq<Incoming>)
    ensures
        tool_messages(events).len() == calls_in(events),
    decreases events.len(),
{
    if events.len() > 0 {
        lemma_tool_messages_len(events.drop_last());
        lemma_call_messages_len(calls_of(events.last()), events.last().replies);
    }
}

/// The conversations that the effects launch sessions on, in order.
pub open spec fn launched(effects: Seq<EffectView>) -> Seq<Seq<MessageView>>
    decreases effects.len(),
{
    if effects.len() == 0 {
        Seq::empty()
    } else {
        match effects.last() {
            EffectView::Launch(snapshot) => launched(effects.drop_last()).push(snapshot),
            _ => launched(effects.drop_last()),
        }
    }
}

proof fn lemma_launched_add(a: Seq<EffectView>, b: Seq<EffectView>)
    ensures
        launched(a + b) == launched(a) + launched(b),
    decreases b.len(),
{
    if b.len() > 0 {
        assert((a + b).drop_last() =~= a + b.drop_last());
        lemma_launched_add(a, b.drop_last());
    }
}

/// The announcements of tool calls among the effects, in order.
pub open spec fn announced(effects: Seq<EffectView>) -> Seq<Seq<char>>
    decreases effects.len(),
{
    if effects.len() == 0 {
        Seq::empty()
    } else {
        match effects.last() {
            EffectView::Show(StdoutMessageView::WithNewLine(text)) => announced(
                effects.drop_last(),
            ).push(text),
            _ => announced(effects.drop_last()),
        }
    }
}

proof fn lemma_announced_add(a: Seq<EffectView>, b: Seq<EffectView>)
    ensures
        announced(a + b) == announced(a) + announced(b),
    decreases b.len(),
{
    if b.len() > 0 {
        assert((a + b).drop_last() =~= a + b.drop_last());
        lemma_announced_add(a, b.drop_last());
    }
}

/// Where several calls come in one response, and there is room for all of
/// them, the depth grows by their number, their results go to the end of
/// the conversation in their order, each is announced, in that order, and
/// each gets a session of its own, launched on the conversation as it is
/// right after the result of that call: with the results of the calls
/// before it, and without those of the calls after it.
pub proof fn lemma_each_call_gets_its_snapshot(
    s: AppView,
    calls: Seq<ToolCallView>,
    replies: Seq<FsReplyView>,
)
    requires
        s.depth + calls.len() <= s.limit,
    ensures
        tools_state(s, calls, replies).depth == s.depth + calls.len(),
        tools_state(s, calls, replies).history == s.history + call_messages(calls, replies),
        launched(tools_effects(s, calls, replies)).len() == calls.len(),
        forall|j: int|
            0 <= j < calls.len() ==> #[trigger] launched(tools_effects(s, calls, replies))[j]
                == s.history + call_messages(calls, replies).take(j + 1),
        announced(tools_effects(s, calls, replies)) == calls.map_values(
            |call: ToolCallView| announcement(call),
        ),
    decreases calls.len(),
{
    lemma_tools_history(s, calls, replies);
    if calls.len() == 0 {
        assert(announced(tools_effects(s, calls, replies)) =~= calls.map_values(
            |call: ToolCallView| announcement(call),
        ));
    }
    if calls.len() > 0 {
        let earlier = calls.drop_last();
        lemma_each_call_gets_its_snapshot(s, earlier, replies);
        lemma_call_messages_len(earlier, replies);
        let before = tools_state(s, earlier, replies);
        let done = tools_effects(s, earlier, replies);
        let last = tool_effects(before, calls.last(), reply_at(replies, calls.len() - 1));
        lemma_launched_add(done, last);
        assert(last.drop_last() =~= seq![last[0]]);
        assert(seq![last[0]].drop_last() =~= Seq::<EffectView>::empty());
        assert(launched(Seq::<EffectView>::empty()) =~= Seq::<Seq<MessageView>>::empty());
        assert(launched(seq![last[0]]) =~= Seq::<Seq<MessageView>>::empty());
        lemma_announced_add(done, last);
        assert(last =~= seq![last[0]] + seq![last[1]]);
        lemma_announced_add(seq![last[0]], seq![last[1]]);
        assert(seq![last[1]].drop_last() =~= Seq::<EffectView>::empty());
        assert(announced(tools_effects(s, calls, replies)) =~= calls.map_values(
            |call: ToolCallView| announcement(call),
        )) by {
            assert(earlier.map_values(|call: ToolCallView| announcement(call)).push(
                announcement(calls.last()),
            ) =~= calls.map_values(|call: ToolCallView| announcement(call)));
        }
    }
}

/// The event that carries one tool call.
pub open spec fn single_call(call: ToolCallView, reply: FsReplyView) -> Incoming {
    Incoming {
        message: OllamaMessageView::Chunk(
            OllamaResponseView {
                done: false,
                message: ModelMessageView {
                    content: None,
                    thinking: None,
                    tool_calls: Some(seq![call]),
                },
            },
        ),
        replies: seq![reply],
    }
}

/// A tool call never stops the turn. While a turn is in flight and there is
/// room, whatever was read for the call, and whether or not it names a tool,
/// its result or its error goes to the end of the conversation as a tool's
/// message, the call is announced, and a session is launched on the
/// conversation as it then is.
pub proof fn lemma_tool_call_goes_on(s: AppView, call: ToolCallView, reply: FsReplyView)
    requires
        s.depth > 0,
        has_room(s),
    ensures
        run(s, seq![single_call(call, reply)]) == (AppView {
            depth: s.depth + 1,
            history: s.history.push(tool_message(tool_text(call, reply), call.name)),
            ..s
        }),
        run_effects(s, seq![single_call(call, reply)]) == seq![
            EffectView::Show(StdoutMessageView::WithNewLine(announcement(call))),
            EffectView::Launch(s.history.push(tool_message(tool_text(call, reply), call.name))),
        ],
        reply is Failed && resolved(call) is Ok ==> tool_text(call, reply) == "ERR: "@
            + reply->Failed_0,
{
    let event = single_call(call, reply);
    let events = seq![event];
    let calls = seq![call];
    assert(tools_state(s, calls.drop_last(), event.replies) == s);
    assert(tools_effects(s, calls.drop_last(), event.replies) =~= Seq::<EffectView>::empty());
    assert(run(s, events.drop_last()) == s);
    assert(run_effects(s, events.drop_last()) =~= Seq::<EffectView>::empty());
}

} // verus!
