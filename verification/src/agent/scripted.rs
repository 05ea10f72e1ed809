//! Conversations against a model and tools whose answers are given in
//! advance: what the engine makes of them, step by step, and what holds of
//! every such conversation.

use crate::agent::engine::{
    final_answer, lemma_next_routed, next_routed, EngineView, Outcome, Phase, SendErrorView,
    SendEventView, SendStepView,
};
use crate::llm::json::json_reading;
use crate::llm::message::{ChatResponseView, MessageView, ToolCallView};
use vstd::prelude::*;

verus! {

/// What the tools return: the result of the call at the place `place` of the
/// round `round`.
pub type Results = spec_fn(nat, nat) -> Seq<char>;

/// Every call at or after `from` whose tool is routed has arguments that are
/// JSON.
pub open spec fn readable_from(
    table: Map<Seq<char>, usize>,
    calls: Seq<ToolCallView>,
    from: nat,
) -> bool {
    forall|k: int|
        from <= k < calls.len() && table.dom().contains((#[trigger] calls[k]).name) ==> json_reading(
            calls[k].arguments,
        ) is Ok
}

/// The number of calls at or after `from` whose tool is routed.
pub open spec fn routed_count(
    table: Map<Seq<char>, usize>,
    calls: Seq<ToolCallView>,
    from: nat,
) -> nat
    decreases calls.len() - from,
{
    if from >= calls.len() {
        0
    } else if table.dom().contains(calls[from as int].name) {
        1 + routed_count(table, calls, from + 1)
    } else {
        routed_count(table, calls, from + 1)
    }
}

/// The messages that the calls at or after `from` leave in the conversation
/// in the round `round`: the result of each call whose tool is routed, under
/// the call's id, in the order of the calls.
pub open spec fn results_from(
    table: Map<Seq<char>, usize>,
    calls: Seq<ToolCallView>,
    from: nat,
    results: Results,
    round: nat,
) -> Seq<MessageView>
    decreases calls.len() - from,
{
    if from >= calls.len() {
        Seq::empty()
    } else if table.dom().contains(calls[from as int].name) {
        seq![MessageView::result(results(round, from), calls[from as int].id)] + results_from(
            table,
            calls,
            from + 1,
            results,
            round,
        )
    } else {
        results_from(table, calls, from + 1, results, round)
    }
}

/// The messages that a round leaves in the conversation: the record of the
/// calls, then the results of the routed ones.
pub open spec fn round_messages(
    table: Map<Seq<char>, usize>,
    calls: Seq<ToolCallView>,
    results: Results,
    round: nat,
) -> Seq<MessageView> {
    seq![MessageView::requests(calls)] + results_from(table, calls, 0, results, round)
}

/// The messages that the rounds of the replies `replies` leave in the
/// conversation, the first of them being the round `round`.
pub open spec fn script_messages(
    table: Map<Seq<char>, usize>,
    replies: Seq<ChatResponseView>,
    results: Results,
    round: nat,
) -> Seq<MessageView>
    decreases replies.len(),
{
    if replies.len() == 0 {
        Seq::empty()
    } else {
        round_messages(table, replies.first().tool_calls.unwrap(), results, round)
            + script_messages(table, replies.drop_first(), results, round + 1)
    }
}

/// The number of messages that the rounds of the replies `replies` leave in
/// the conversation: for each round one record of the calls and one result
/// for each call whose tool is routed.
pub open spec fn script_count(table: Map<Seq<char>, usize>, replies: Seq<ChatResponseView>) -> nat
    decreases replies.len(),
{
    if replies.len() == 0 {
        0
    } else {
        1 + routed_count(table, replies.first().tool_calls.unwrap(), 0) + script_count(
            table,
            replies.drop_first(),
        )
    }
}

/// Makes the calls that are left in the round `round`: as long as a call is
/// awaited, the tool returns what `results` gives for it.
pub open spec fn settle(
    engine: EngineView,
    outcome: Outcome,
    table: Map<Seq<char>, usize>,
    results: Results,
    round: nat,
) -> (EngineView, Outcome)
    decreases engine.calls.len() - engine.cursor,
{
    if (outcome matches Ok(SendStepView::CallTool(_))) && engine.phase == Phase::Dispatching
        && engine.cursor < engine.calls.len() {
        proof {
            lemma_next_routed(table, engine.calls, engine.cursor + 1);
        }
        let (next, then) = engine.on_tool(table, results(round, engine.cursor));
        settle(next, then, table, results, round)
    } else {
        (engine, outcome)
    }
}

/// Holds the conversation against the model's replies `replies`, in order,
/// with at most `limit` rounds allowed: each reply is taken in and the calls
/// that it asks for are made. It ends with the first reply that does not
/// lead back to the model, or when the replies are used up.
pub open spec fn run(
    engine: EngineView,
    table: Map<Seq<char>, usize>,
    limit: nat,
    replies: Seq<ChatResponseView>,
    results: Results,
) -> (EngineView, Outcome)
    decreases replies.len(),
{
    if replies.len() == 0 {
        (engine, Ok(SendStepView::AskModel))
    } else {
        let (asked, first) = engine.step(
            table,
            limit,
            SendEventView::ModelReplied(replies.first()),
        );
        let (settled, then) = settle(asked, first, table, results, engine.rounds);
        if then == Ok::<SendStepView, SendErrorView>(SendStepView::AskModel) {
            run(settled, table, limit, replies.drop_first(), results)
        } else {
            (settled, then)
        }
    }
}

/// The results of the calls from `from` are the results of the calls from
/// the first routed call at or after `from`.
proof fn lemma_results_skip(
    table: Map<Seq<char>, usize>,
    calls: Seq<ToolCallView>,
    from: nat,
    results: Results,
    round: nat,
)
    requires
        from <= calls.len(),
    ensures
        results_from(table, calls, from, results, round) == results_from(
            table,
            calls,
            next_routed(table, calls, from),
            results,
            round,
        ),
        routed_count(table, calls, from) == routed_count(
            table,
            calls,
            next_routed(table, calls, from),
        ),
    decreases calls.len() - from,
{
    if from < calls.len() && !table.dom().contains(calls[from as int].name) {
        lemma_results_skip(table, calls, from + 1, results, round);
    }
}

/// There are as many results as there are routed calls.
proof fn lemma_results_count(
    table: Map<Seq<char>, usize>,
    calls: Seq<ToolCallView>,
    from: nat,
    results: Results,
    round: nat,
)
    ensures
        results_from(table, calls, from, results, round).len() == routed_count(table, calls, from),
    decreases calls.len() - from,
{
    if from < calls.len() {
        lemma_results_count(table, calls, from + 1, results, round);
    }
}

/// There are as many messages as the count says.
proof fn lemma_script_count(
    table: Map<Seq<char>, usize>,
    replies: Seq<ChatResponseView>,
    results: Results,
    round: nat,
)
    ensures
        script_messages(table, replies, results, round).len() == script_count(table, replies),
    decreases replies.len(),
{
    if replies.len() > 0 {
        lemma_results_count(table, replies.first().tool_calls.unwrap(), 0, results, round);
        lemma_script_count(table, replies.drop_first(), results, round + 1);
    }
}

/// Going on with the calls of a round from the place `from` and making every
/// call that is awaited leads back to the model, with the results of the
/// routed calls appended to the conversation, where the arguments of those
/// calls are JSON.
proof fn lemma_round(
    engine: EngineView,
    table: Map<Seq<char>, usize>,
    from: nat,
    results: Results,
    round: nat,
)
    requires
        from <= engine.calls.len(),
        readable_from(table, engine.calls, from),
    ensures
        ({
            let (asked, first) = engine.advance(table, from);
            let (settled, then) = settle(asked, first, table, results, round);
            &&& then == Ok::<SendStepView, SendErrorView>(SendStepView::AskModel)
            &&& settled == EngineView {
                conversation: crate::llm::message::ConversationView {
                    messages: engine.conversation.messages + results_from(
                        table,
                        engine.calls,
                        from,
                        results,
                        round,
                    ),
                    max_tokens: engine.conversation.max_tokens,
                },
                phase: Phase::AwaitingModel,
                cursor: engine.calls.len(),
                ..engine
            }
        }),
    decreases engine.calls.len() - from,
{
    let calls = engine.calls;
    let at: nat = next_routed(table, calls, from);
    lemma_next_routed(table, calls, from);
    lemma_results_skip(table, calls, from, results, round);
    if at < calls.len() {
        let asked = engine.advance(table, from).0;
        let appended = EngineView {
            conversation: asked.conversation.push(
                MessageView::result(results(round, at), calls[at as int].id),
            ),
            ..asked
        };
        lemma_round(appended, table, at + 1, results, round);
        assert(engine.conversation.messages + results_from(table, calls, at, results, round)
            =~= appended.conversation.messages + results_from(
            table,
            calls,
            at + 1,
            results,
            round,
        ));
    }
}

/// A conversation against a model that asks for tools in each of the replies
/// `replies` and then gives the answer `answer` ends with that answer after
/// as many rounds as there are replies, and each round appends one record
/// of the calls and one result for each call whose tool is routed. This
/// holds where the rounds stay within the limit and the arguments of the
/// routed calls are JSON.
pub proof fn scripted_conversation_ends(
    engine: EngineView,
    table: Map<Seq<char>, usize>,
    limit: nat,
    replies: Seq<ChatResponseView>,
    answer: ChatResponseView,
    results: Results,
)
    requires
        engine.phase == Phase::AwaitingModel,
        engine.rounds + replies.len() <= limit,
        forall|i: int| 0 <= i < replies.len() ==> (#[trigger] replies[i]).tool_calls is Some,
        forall|i: int|
            0 <= i < replies.len() ==> readable_from(
                table,
                (#[trigger] replies[i]).tool_calls.unwrap(),
                0,
            ),
        answer.tool_calls is None,
    ensures
        ({
            let (end, outcome) = run(engine, table, limit, replies.push(answer), results);
            &&& outcome == Ok::<SendStepView, SendErrorView>(
                SendStepView::Finished(final_answer(answer.conversation)),
            )
            &&& end.phase == Phase::Final
            &&& end.rounds == engine.rounds + replies.len()
            &&& end.conversation.max_tokens == engine.conversation.max_tokens
            &&& end.conversation.messages == engine.conversation.messages + script_messages(
                table,
                replies,
                results,
                engine.rounds,
            )
            &&& end.conversation.messages.len() == engine.conversation.messages.len()
                + script_count(table, replies)
        }),
    decreases replies.len(),
{
    lemma_script_count(table, replies, results, engine.rounds);
    if replies.len() > 0 {
        let calls = replies[0].tool_calls.unwrap();
        assert(replies.push(answer).drop_first() =~= replies.drop_first().push(answer));
        let started = EngineView {
            conversation: engine.conversation.push(MessageView::requests(calls)),
            phase: Phase::Dispatching,
            calls,
            cursor: 0,
            rounds: engine.rounds + 1,
        };
        lemma_round(started, table, 0, results, engine.rounds);
        let (asked, first) = started.advance(table, 0);
        let (settled, then) = settle(asked, first, table, results, engine.rounds);
        let rest = replies.drop_first();
        scripted_conversation_ends(settled, table, limit, rest, answer, results);
        lemma_script_count(table, rest, results, engine.rounds + 1);
    }
}

} // verus!
