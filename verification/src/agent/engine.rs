//! The engine of one conversation: it takes the model's replies and the
//! tools' results in, and says after each what has to be done next, until the
//! model gives its final answer.

use crate::agent::dispatch::DispatchTable;
use crate::llm::json::{json_reading, read_json, reading_view, JsonKind};
use crate::llm::message::{
    ChatResponse, ChatResponseView, Conversation, ConversationView, Message, MessageView, ToolCall,
    ToolCallView,
};
use crate::llm::openai::ChoiceView;
use crate::text::result_view;
use vstd::prelude::*;

verus! {

/// Where a conversation stands.
#[derive(Debug, Clone, Copy, PartialEq, Eq, Structural)]
pub enum Phase {
    /// The conversation is with the model; its reply is awaited.
    AwaitingModel,
    /// A tool has been called; its result is awaited.
    Dispatching,
    /// The model has given its final answer.
    Final,
    /// The conversation was given up after an error.
    Failed,
}

/// A call that has to be made to a provider.
#[derive(Debug, PartialEq, Eq)]
pub struct ToolRequest {
    /// The index of the provider in the registry.
    pub provider: usize,
    /// The name of the tool.
    pub name: String,
    /// The arguments as JSON text, where the model gave a JSON object; none
    /// where it gave another JSON value.
    pub arguments: Option<String>,
}

/// The view of a [`ToolRequest`].
pub struct ToolRequestView {
    pub provider: usize,
    pub name: Seq<char>,
    pub arguments: Option<Seq<char>>,
}

impl View for ToolRequest {
    type V = ToolRequestView;

    open spec fn view(&self) -> ToolRequestView {
        ToolRequestView {
            provider: self.provider,
            name: self.name@,
            arguments: self.arguments.deep_view(),
        }
    }
}

/// What has to be done next for a conversation.
#[derive(Debug, PartialEq, Eq)]
pub enum SendStep {
    /// Send the conversation to the model.
    AskModel,
    /// Call a tool.
    CallTool(ToolRequest),
    /// Nothing: this is the final answer.
    Finished(String),
}

/// The view of a [`SendStep`].
pub enum SendStepView {
    AskModel,
    CallTool(ToolRequestView),
    Finished(Seq<char>),
}

impl View for SendStep {
    type V = SendStepView;

    open spec fn view(&self) -> SendStepView {
        match self {
            SendStep::AskModel => SendStepView::AskModel,
            SendStep::CallTool(request) => SendStepView::CallTool(request@),
            SendStep::Finished(answer) => SendStepView::Finished(answer@),
        }
    }
}

/// Why a conversation was given up.
#[derive(Debug, PartialEq, Eq)]
pub enum SendError {
    /// The call to the model failed.
    ModelCall { cause: String },
    /// The call to a tool failed.
    ToolCall { tool: String, cause: String },
    /// The arguments that the model gave for a tool are no JSON.
    Arguments { tool: String, cause: String },
    /// The model asked for tools in more rounds than are allowed.
    RoundLimit { limit: usize },
    /// Something was reported that the conversation was not waiting for.
    OutOfTurn,
}

/// The view of a [`SendError`].
pub enum SendErrorView {
    ModelCall { cause: Seq<char> },
    ToolCall { tool: Seq<char>, cause: Seq<char> },
    Arguments { tool: Seq<char>, cause: Seq<char> },
    RoundLimit { limit: usize },
    OutOfTurn,
}

impl View for SendError {
    type V = SendErrorView;

    open spec fn view(&self) -> SendErrorView {
        match self {
            SendError::ModelCall { cause } => SendErrorView::ModelCall { cause: cause@ },
            SendError::ToolCall { tool, cause } => SendErrorView::ToolCall {
                tool: tool@,
                cause: cause@,
            },
            SendError::Arguments { tool, cause } => SendErrorView::Arguments {
                tool: tool@,
                cause: cause@,
            },
            SendError::RoundLimit { limit } => SendErrorView::RoundLimit { limit: *limit },
            SendError::OutOfTurn => SendErrorView::OutOfTurn,
        }
    }
}

impl SendErrorView {
    /// The text that reports the error.
    pub open spec fn message(self) -> Seq<char> {
        match self {
            SendErrorView::ModelCall { cause } => "the call to the model failed: "@ + cause,
            SendErrorView::ToolCall { tool, cause } => "the call to the tool ["@ + tool
                + "] failed: "@ + cause,
            SendErrorView::Arguments { tool, cause } => "the arguments for the tool ["@ + tool
                + "] are no JSON: "@ + cause,
            SendErrorView::RoundLimit { .. } => "the model asked for tools in too many rounds"@,
            SendErrorView::OutOfTurn => "the conversation was not waiting for this"@,
        }
    }
}

impl SendError {
    /// The text that reports the error.
    pub fn message(&self) -> (r: String)
        ensures
            r@ == self@.message(),
    {
        match self {
            SendError::ModelCall { cause } => {
                String::from_str("the call to the model failed: ").concat(cause.as_str())
            },
            SendError::ToolCall { tool, cause } => {
                String::from_str("the call to the tool [").concat(tool.as_str()).concat(
                    "] failed: ",
                ).concat(cause.as_str())
            },
            SendError::Arguments { tool, cause } => {
                String::from_str("the arguments for the tool [").concat(tool.as_str()).concat(
                    "] are no JSON: ",
                ).concat(cause.as_str())
            },
            SendError::RoundLimit { .. } => {
                String::from_str("the model asked for tools in too many rounds")
            },
            SendError::OutOfTurn => String::from_str("the conversation was not waiting for this"),
        }
    }
}

/// What is reported to a conversation.
#[derive(Debug, PartialEq, Eq)]
pub enum SendEvent {
    /// The model has replied.
    ModelReplied(ChatResponse),
    /// The call to the model failed.
    ModelFailed(String),
    /// The tool that was called has returned this result, serialized.
    ToolReturned(String),
    /// The call to the tool failed.
    ToolFailed(String),
}

/// The view of a [`SendEvent`].
pub enum SendEventView {
    ModelReplied(ChatResponseView),
    ModelFailed(Seq<char>),
    ToolReturned(Seq<char>),
    ToolFailed(Seq<char>),
}

impl View for SendEvent {
    type V = SendEventView;

    open spec fn view(&self) -> SendEventView {
        match self {
            SendEvent::ModelReplied(response) => SendEventView::ModelReplied(response@),
            SendEvent::ModelFailed(cause) => SendEventView::ModelFailed(cause@),
            SendEvent::ToolReturned(content) => SendEventView::ToolReturned(content@),
            SendEvent::ToolFailed(cause) => SendEventView::ToolFailed(cause@),
        }
    }
}

/// What a step gives: the next thing to do, or the error that ends the
/// conversation.
pub type Outcome = Result<SendStepView, SendErrorView>;

/// The answer that stands for a reply without text.
pub open spec fn placeholder() -> Seq<char> {
    "success"@
}

/// The final answer that a conversation holds: the text of its last message
/// where that is a message of the model with text, the placeholder otherwise.
pub open spec fn final_answer(conversation: ConversationView) -> Seq<char> {
    if conversation.messages.len() > 0 {
        match conversation.messages.last() {
            MessageView::Assistant { content: Some(text), .. } => text,
            _ => placeholder(),
        }
    } else {
        placeholder()
    }
}

/// The place of the first call at or after `from` whose tool the table
/// routes; the number of calls where there is none.
pub open spec fn next_routed(
    table: Map<Seq<char>, usize>,
    calls: Seq<ToolCallView>,
    from: nat,
) -> nat
    decreases calls.len() - from,
{
    if from >= calls.len() {
        calls.len()
    } else if table.dom().contains(calls[from as int].name) {
        from
    } else {
        next_routed(table, calls, from + 1)
    }
}

/// The request that `call` becomes at the provider `provider`, given what the
/// JSON reader made of its arguments: arguments that are no JSON end the
/// conversation, and only a JSON object is passed on.
pub open spec fn planned(
    provider: usize,
    call: ToolCallView,
    reading: Result<JsonKind, Seq<char>>,
) -> Result<ToolRequestView, SendErrorView> {
    match reading {
        Ok(kind) => Ok(
            ToolRequestView {
                provider,
                name: call.name,
                arguments: if kind == JsonKind::Object {
                    Some(call.arguments)
                } else {
                    None
                },
            },
        ),
        Err(cause) => Err(SendErrorView::Arguments { tool: call.name, cause }),
    }
}

/// The view of a [`ConversationEngine`].
pub struct EngineView {
    /// The conversation so far.
    pub conversation: ConversationView,
    pub phase: Phase,
    /// The calls that the model asked for in its last reply.
    pub calls: Seq<ToolCallView>,
    /// The place, among `calls`, of the call whose result is awaited.
    pub cursor: nat,
    /// The number of replies of the model that asked for tools.
    pub rounds: nat,
}

impl EngineView {
    /// The engine at the start of a conversation.
    pub open spec fn start(conversation: ConversationView) -> EngineView {
        EngineView {
            conversation,
            phase: Phase::AwaitingModel,
            calls: Seq::empty(),
            cursor: 0,
            rounds: 0,
        }
    }

    /// The engine after it has given up.
    pub open spec fn failed(self) -> EngineView {
        EngineView { phase: Phase::Failed, ..self }
    }

    /// Goes on with the calls from the place `from`: the calls whose tool is
    /// not routed are passed over, and the first one that is routed is
    /// called. Where none is left, it is the model's turn again.
    pub open spec fn advance(self, table: Map<Seq<char>, usize>, from: nat) -> (EngineView, Outcome) {
        let at: nat = next_routed(table, self.calls, from);
        if at >= self.calls.len() {
            (
                EngineView { phase: Phase::AwaitingModel, cursor: self.calls.len(), ..self },
                Ok(SendStepView::AskModel),
            )
        } else {
            let call = self.calls[at as int];
            match planned(table[call.name], call, json_reading(call.arguments)) {
                Ok(request) => (
                    EngineView { phase: Phase::Dispatching, cursor: at, ..self },
                    Ok(SendStepView::CallTool(request)),
                ),
                Err(e) => (EngineView { phase: Phase::Failed, cursor: at, ..self }, Err(e)),
            }
        }
    }

    /// Takes the model's reply in. A reply without tool calls ends the
    /// conversation with its final answer. A reply with tool calls starts a
    /// round, unless `limit` rounds have been made: the calls are recorded in
    /// the conversation and the first routed one is called.
    pub open spec fn on_model(
        self,
        table: Map<Seq<char>, usize>,
        limit: nat,
        response: ChatResponseView,
    ) -> (EngineView, Outcome) {
        match response.tool_calls {
            None => (
                EngineView { phase: Phase::Final, ..self },
                Ok(SendStepView::Finished(final_answer(response.conversation))),
            ),
            Some(calls) => if self.rounds >= limit {
                (self.failed(), Err(SendErrorView::RoundLimit { limit: limit as usize }))
            } else {
                EngineView {
                    conversation: self.conversation.push(MessageView::requests(calls)),
                    phase: Phase::Dispatching,
                    calls,
                    cursor: 0,
                    rounds: self.rounds + 1,
                }.advance(table, 0)
            },
        }
    }

    /// Takes the result of the awaited call in: it is appended to the
    /// conversation under the call's id, and the calls after it go on.
    pub open spec fn on_tool(self, table: Map<Seq<char>, usize>, content: Seq<char>) -> (
        EngineView,
        Outcome,
    ) {
        EngineView {
            conversation: self.conversation.push(
                MessageView::result(content, self.calls[self.cursor as int].id),
            ),
            ..self
        }.advance(table, self.cursor + 1)
    }

    /// One step: what `event` makes of the engine, and what has to be done
    /// next. An event that the engine is not waiting for changes nothing.
    pub open spec fn step(self, table: Map<Seq<char>, usize>, limit: nat, event: SendEventView) -> (
        EngineView,
        Outcome,
    ) {
        match (self.phase, event) {
            (Phase::AwaitingModel, SendEventView::ModelReplied(response)) => self.on_model(
                table,
                limit,
                response,
            ),
            (Phase::AwaitingModel, SendEventView::ModelFailed(cause)) => (
                self.failed(),
                Err(SendErrorView::ModelCall { cause }),
            ),
            (Phase::Dispatching, SendEventView::ToolReturned(content)) => self.on_tool(
                table,
                content,
            ),
            (Phase::Dispatching, SendEventView::ToolFailed(cause)) => (
                self.failed(),
                Err(
                    SendErrorView::ToolCall { tool: self.calls[self.cursor as int].name, cause },
                ),
            ),
            _ => (self, Err(SendErrorView::OutOfTurn)),
        }
    }
}

/// The request that `call` becomes at the provider `provider`, given what the
/// JSON reader made of its arguments.
pub fn plan_call(call: &ToolCall, provider: usize, reading: Result<JsonKind, String>) -> (r: Result<
    ToolRequest,
    SendError,
>)
    ensures
        result_view(r) == planned(provider, call@, reading_view(reading)),
{
    match reading {
        Ok(kind) => {
            let arguments = match kind {
                JsonKind::Object => Some(call.arguments.clone()),
                _ => None,
            };
            Ok(ToolRequest { provider, name: call.name.clone(), arguments })
        },
        Err(cause) => Err(SendError::Arguments { tool: call.name.clone(), cause }),
    }
}

/// The final answer that `conversation` holds.
pub fn answer_of(conversation: &Conversation) -> (r: String)
    ensures
        r@ == final_answer(conversation@),
{
    let n: usize = conversation.messages.len();
    if n > 0 {
        if let Message::Assistant { content: Some(text), .. } = &conversation.messages[n - 1] {
            return text.clone();
        }
    }
    String::from_str("success")
}

/// The engine of one conversation.
#[derive(Debug, PartialEq, Eq)]
pub struct ConversationEngine {
    conversation: Conversation,
    phase: Phase,
    calls: Vec<ToolCall>,
    cursor: usize,
    rounds: usize,
}

impl View for ConversationEngine {
    type V = EngineView;

    closed spec fn view(&self) -> EngineView {
        EngineView {
            conversation: self.conversation@,
            phase: self.phase,
            calls: self.calls.deep_view(),
            cursor: self.cursor as nat,
            rounds: self.rounds as nat,
        }
    }
}

impl EngineView {
    /// While a result is awaited, the cursor is at one of the calls.
    pub open spec fn wf(self) -> bool {
        &&& self.cursor <= self.calls.len()
        &&& self.phase == Phase::Dispatching ==> self.cursor < self.calls.len()
    }
}

impl ConversationEngine {
    /// The engine for `conversation`, which is with the model first.
    pub fn new(conversation: Conversation) -> (r: ConversationEngine)
        ensures
            r@ == EngineView::start(conversation@),
            r@.wf(),
    {
        let r = ConversationEngine {
            conversation,
            phase: Phase::AwaitingModel,
            calls: Vec::new(),
            cursor: 0,
            rounds: 0,
        };
        assert(r.calls.deep_view() =~= Seq::<ToolCallView>::empty());
        r
    }

    /// The conversation so far.
    pub fn conversation(&self) -> (r: &Conversation)
        ensures
            r@ == self@.conversation,
    {
        &self.conversation
    }

    /// Gives the conversation back.
    pub fn into_conversation(self) -> (r: Conversation)
        ensures
            r@ == self@.conversation,
    {
        self.conversation
    }

    /// Where the conversation stands.
    pub fn phase(&self) -> (r: Phase)
        ensures
            r == self@.phase,
    {
        self.phase
    }

    /// The number of replies of the model that asked for tools.
    pub fn rounds(&self) -> (r: usize)
        ensures
            r == self@.rounds,
    {
        self.rounds
    }

    /// Goes on with the calls of the round from the place `from`.
    fn handle_tool_calls(&mut self, table: &DispatchTable, from: usize) -> (r: Result<
        SendStep,
        SendError,
    >)
        requires
            table.wf(),
            from <= old(self)@.calls.len(),
        ensures
            (final(self)@, result_view(r)) == old(self)@.advance(table@, from as nat),
            final(self)@.wf(),
    {
        let ghost calls = self.calls.deep_view();
        let mut at: usize = from;
        while at < self.calls.len()
            invariant
                table.wf(),
                *self == *old(self),
                calls == self.calls.deep_view(),
                from <= at <= self.calls.len(),
                next_routed(table@, calls, from as nat) == next_routed(table@, calls, at as nat),
            decreases self.calls.len() - at,
        {
            match table.lookup(self.calls[at].name.as_str()) {
                Some(provider) => {
                    let reading = read_json(self.calls[at].arguments.as_str());
                    let plan = plan_call(&self.calls[at], provider, reading);
                    self.cursor = at;
                    match plan {
                        Ok(request) => {
                            self.phase = Phase::Dispatching;
                            return Ok(SendStep::CallTool(request));
                        },
                        Err(e) => {
                            self.phase = Phase::Failed;
                            return Err(e);
                        },
                    }
                },
                None => {
                    at = at + 1;
                },
            }
        }
        self.cursor = self.calls.len();
        self.phase = Phase::AwaitingModel;
        Ok(SendStep::AskModel)
    }

    /// Takes the model's reply in, with at most `max_rounds` rounds of tool
    /// calls allowed.
    fn send_llm(&mut self, table: &DispatchTable, max_rounds: usize, response: ChatResponse) -> (r:
        Result<SendStep, SendError>)
        requires
            table.wf(),
            old(self)@.wf(),
        ensures
            (final(self)@, result_view(r)) == old(self)@.on_model(
                table@,
                max_rounds as nat,
                response@,
            ),
            final(self)@.wf(),
    {
        match response.tool_calls {
            None => {
                self.phase = Phase::Final;
                Ok(SendStep::Finished(answer_of(&response.conversation)))
            },
            Some(calls) => {
                if self.rounds >= max_rounds {
                    self.phase = Phase::Failed;
                    return Err(SendError::RoundLimit { limit: max_rounds });
                }
                self.conversation.append_tool_call_response(&calls);
                self.calls = calls;
                self.cursor = 0;
                self.rounds = self.rounds + 1;
                self.phase = Phase::Dispatching;
                self.handle_tool_calls(table, 0)
            },
        }
    }

    /// Takes the result of the awaited call in.
    fn tool_result(&mut self, table: &DispatchTable, content: String) -> (r: Result<
        SendStep,
        SendError,
    >)
        requires
            table.wf(),
            old(self)@.wf(),
            old(self)@.phase == Phase::Dispatching,
        ensures
            (final(self)@, result_view(r)) == old(self)@.on_tool(table@, content@),
            final(self)@.wf(),
    {
        assert(self.cursor < self.calls.len());
        let id = self.calls[self.cursor].id.clone();
        self.conversation.append_tool_call_content(content, id);
        let from: usize = self.cursor + 1;
        self.handle_tool_calls(table, from)
    }

    /// One step of the conversation: takes `event` in and says what has to be
    /// done next.
    pub fn send(&mut self, table: &DispatchTable, max_rounds: usize, event: SendEvent) -> (r: Result<
        SendStep,
        SendError,
    >)
        requires
            table.wf(),
            old(self)@.wf(),
        ensures
            (final(self)@, result_view(r)) == old(self)@.step(table@, max_rounds as nat, event@),
            final(self)@.wf(),
    {
        match self.phase {
            Phase::AwaitingModel => match event {
                SendEvent::ModelReplied(response) => self.send_llm(table, max_rounds, response),
                SendEvent::ModelFailed(cause) => {
                    self.phase = Phase::Failed;
                    Err(SendError::ModelCall { cause })
                },
                _ => Err(SendError::OutOfTurn),
            },
            Phase::Dispatching => match event {
                SendEvent::ToolReturned(content) => self.tool_result(table, content),
                SendEvent::ToolFailed(cause) => {
                    self.phase = Phase::Failed;
                    Err(SendError::ToolCall { tool: self.calls[self.cursor].name.clone(), cause })
                },
                _ => Err(SendError::OutOfTurn),
            },
            _ => Err(SendError::OutOfTurn),
        }
    }
}

/// The first routed call at or after `from` is not before `from` and not
/// after the end, and where it is before the end, its tool is routed.
pub proof fn lemma_next_routed(table: Map<Seq<char>, usize>, calls: Seq<ToolCallView>, from: nat)
    requires
        from <= calls.len(),
    ensures
        from <= next_routed(table, calls, from) <= calls.len(),
        next_routed(table, calls, from) < calls.len() ==> table.dom().contains(
            calls[next_routed(table, calls, from) as int].name,
        ),
        forall|k: int|
            from <= k < next_routed(table, calls, from) ==> !table.dom().contains(
                (#[trigger] calls[k]).name,
            ),
    decreases calls.len() - from,
{
    if from < calls.len() && !table.dom().contains(calls[from as int].name) {
        lemma_next_routed(table, calls, from + 1);
    }
}

/// A call that a step asks for is a call of a tool that the table routes, at
/// the provider that the table gives for it.
pub proof fn requested_call_is_routed(
    engine: EngineView,
    table: Map<Seq<char>, usize>,
    limit: nat,
    event: SendEventView,
)
    requires
        engine.wf(),
    ensures
        engine.step(table, limit, event).1 matches Ok(SendStepView::CallTool(request))
            ==> table.dom().contains(request.name) && request.provider == table[request.name],
{
    match (engine.phase, event) {
        (Phase::AwaitingModel, SendEventView::ModelReplied(response)) => {
            if response.tool_calls is Some {
                lemma_next_routed(table, response.tool_calls.unwrap(), 0);
            }
        },
        (Phase::Dispatching, SendEventView::ToolReturned(content)) => {
            lemma_next_routed(table, engine.calls, engine.cursor + 1);
        },
        _ => {},
    }
}

/// A conversation that has ended takes nothing more in: after the final
/// answer or an error, every event is out of turn and changes nothing.
pub proof fn ended_conversation_takes_nothing_in(
    engine: EngineView,
    table: Map<Seq<char>, usize>,
    limit: nat,
    event: SendEventView,
)
    requires
        engine.phase == Phase::Final || engine.phase == Phase::Failed,
    ensures
        engine.step(table, limit, event) == (
            engine,
            Err::<SendStepView, SendErrorView>(SendErrorView::OutOfTurn),
        ),
{
}

/// A step of a conversation never takes a message away and never changes
/// one: the conversation after the step starts with the conversation before
/// it.
pub proof fn conversation_only_grows(
    engine: EngineView,
    table: Map<Seq<char>, usize>,
    limit: nat,
    event: SendEventView,
)
    ensures
        ({
            let next = engine.step(table, limit, event).0;
            &&& next.conversation.max_tokens == engine.conversation.max_tokens
            &&& engine.conversation.messages.len() <= next.conversation.messages.len()
            &&& next.conversation.messages.take(engine.conversation.messages.len() as int)
                == engine.conversation.messages
        }),
{
}

/// A call whose tool the table does not route is passed over: whatever its
/// arguments are, going on from it is going on from the call after it, so
/// it leaves no message and raises no error.
pub proof fn unrouted_call_is_passed_over(
    engine: EngineView,
    table: Map<Seq<char>, usize>,
    from: nat,
)
    requires
        from < engine.calls.len(),
        !table.dom().contains(engine.calls[from as int].name),
    ensures
        engine.advance(table, from) == engine.advance(table, from + 1),
{
}

/// A reply that asks only for tools that the table does not route adds the
/// record of its calls to the conversation and nothing else, and it is the
/// model's turn again.
pub proof fn unrouted_round_adds_only_its_record(
    engine: EngineView,
    table: Map<Seq<char>, usize>,
    limit: nat,
    response: ChatResponseView,
)
    requires
        engine.phase == Phase::AwaitingModel,
        engine.rounds < limit,
        response.tool_calls is Some,
        forall|k: int|
            0 <= k < response.tool_calls.unwrap().len() ==> !table.dom().contains(
                (#[trigger] response.tool_calls.unwrap()[k]).name,
            ),
    ensures
        engine.step(table, limit, SendEventView::ModelReplied(response)) == (
            EngineView {
                conversation: engine.conversation.push(
                    MessageView::requests(response.tool_calls.unwrap()),
                ),
                phase: Phase::AwaitingModel,
                calls: response.tool_calls.unwrap(),
                cursor: response.tool_calls.unwrap().len(),
                rounds: engine.rounds + 1,
            },
            Ok::<SendStepView, SendErrorView>(SendStepView::AskModel),
        ),
{
    lemma_next_routed(table, response.tool_calls.unwrap(), 0);
}

/// A reply of the model that holds text and asks for no tool ends the
/// conversation: the answer to the conversation has one message more than
/// the conversation, the model's text, and that text is the final answer.
pub proof fn reply_with_text_is_the_final_answer(
    engine: EngineView,
    table: Map<Seq<char>, usize>,
    limit: nat,
    conversation: ConversationView,
    text: Seq<char>,
)
    requires
        engine.phase == Phase::AwaitingModel,
    ensures
        ({
            let response = ChatResponseView::of_reply(
                conversation,
                seq![ChoiceView { content: Some(text), tool_calls: None }],
            );
            &&& response.conversation.messages.len() == conversation.messages.len() + 1
            &&& response.conversation.messages.last() == MessageView::text(text)
            &&& response.tool_calls is None
            &&& engine.step(table, limit, SendEventView::ModelReplied(response)) == (
                EngineView { phase: Phase::Final, ..engine },
                Ok::<SendStepView, SendErrorView>(SendStepView::Finished(text)),
            )
        }),
{
    let choices = seq![ChoiceView { content: Some(text), tool_calls: None }];
    let blank = ChatResponseView { conversation, tool_calls: None };
    assert(blank.absorb_all(choices.drop_last()) == blank);
}

} // verus!
