//! Messages, conversations and the answer of one round-trip to the model.

use vstd::prelude::*;

verus! {

/// A request of the model to call a tool.
#[derive(Debug, PartialEq, Eq)]
pub struct ToolCall {
    /// The id under which the model expects the result.
    pub id: String,
    /// The name of the tool.
    pub name: String,
    /// The arguments, as JSON text.
    pub arguments: String,
}

/// The view of a [`ToolCall`].
pub struct ToolCallView {
    pub id: Seq<char>,
    pub name: Seq<char>,
    pub arguments: Seq<char>,
}

impl View for ToolCall {
    type V = ToolCallView;

    open spec fn view(&self) -> ToolCallView {
        ToolCallView { id: self.id@, name: self.name@, arguments: self.arguments@ }
    }
}

impl DeepView for ToolCall {
    type V = ToolCallView;

    open spec fn deep_view(&self) -> ToolCallView {
        self@
    }
}

impl Clone for ToolCall {
    fn clone(&self) -> (r: ToolCall)
        ensures
            r == *self,
    {
        ToolCall {
            id: self.id.clone(),
            name: self.name.clone(),
            arguments: self.arguments.clone(),
        }
    }
}

/// A copy of a list of tool calls.
pub fn clone_calls(calls: &Vec<ToolCall>) -> (r: Vec<ToolCall>)
    ensures
        r@ == calls@,
{
    let mut out: Vec<ToolCall> = Vec::new();
    let mut i: usize = 0;
    while i < calls.len()
        invariant
            i <= calls.len(),
            out@ == calls@.take(i as int),
        decreases calls.len() - i,
    {
        out.push(calls[i].clone());
        i = i + 1;
    }
    out
}

/// One message of a conversation.
#[derive(Debug, PartialEq, Eq)]
#[allow(inconsistent_fields)]
pub enum Message {
    /// An instruction to the model.
    System { content: String },
    /// What the user says.
    User { content: String },
    /// What the model says: text, requests to call tools, or both.
    Assistant { content: Option<String>, tool_calls: Option<Vec<ToolCall>> },
    /// The result of the tool call with the id `tool_call_id`.
    Tool { content: String, tool_call_id: String },
}

/// The view of a [`Message`].
#[allow(inconsistent_fields)]
pub enum MessageView {
    System { content: Seq<char> },
    User { content: Seq<char> },
    Assistant { content: Option<Seq<char>>, tool_calls: Option<Seq<ToolCallView>> },
    Tool { content: Seq<char>, tool_call_id: Seq<char> },
}

impl View for Message {
    type V = MessageView;

    open spec fn view(&self) -> MessageView {
        match self {
            Message::System { content } => MessageView::System { content: content@ },
            Message::User { content } => MessageView::User { content: content@ },
            Message::Assistant { content, tool_calls } => MessageView::Assistant {
                content: content.deep_view(),
                tool_calls: tool_calls.deep_view(),
            },
            Message::Tool { content, tool_call_id } => MessageView::Tool {
                content: content@,
                tool_call_id: tool_call_id@,
            },
        }
    }
}

impl DeepView for Message {
    type V = MessageView;

    open spec fn deep_view(&self) -> MessageView {
        self@
    }
}

impl MessageView {
    /// An assistant message that holds text only.
    pub open spec fn text(content: Seq<char>) -> MessageView {
        MessageView::Assistant { content: Some(content), tool_calls: None }
    }

    /// An assistant message that records requests to call tools.
    pub open spec fn requests(calls: Seq<ToolCallView>) -> MessageView {
        MessageView::Assistant { content: None, tool_calls: Some(calls) }
    }

    /// The message that carries the result of the call with the id `id`.
    pub open spec fn result(content: Seq<char>, id: Seq<char>) -> MessageView {
        MessageView::Tool { content, tool_call_id: id }
    }
}

impl Clone for Message {
    fn clone(&self) -> (r: Message)
        ensures
            r@ == self@,
    {
        match self {
            Message::System { content } => Message::System { content: content.clone() },
            Message::User { content } => Message::User { content: content.clone() },
            Message::Assistant { content, tool_calls } => {
                let text = match content {
                    Some(c) => Some(c.clone()),
                    None => None,
                };
                let calls = match tool_calls {
                    Some(t) => Some(clone_calls(t)),
                    None => None,
                };
                Message::Assistant { content: text, tool_calls: calls }
            },
            Message::Tool { content, tool_call_id } => Message::Tool {
                content: content.clone(),
                tool_call_id: tool_call_id.clone(),
            },
        }
    }
}

/// The messages exchanged with the model, in order, and a token budget. A
/// conversation only grows at its end.
#[derive(Debug, PartialEq, Eq)]
pub struct Conversation {
    pub messages: Vec<Message>,
    pub max_tokens: u32,
}

/// The view of a [`Conversation`].
pub struct ConversationView {
    pub messages: Seq<MessageView>,
    pub max_tokens: u32,
}

impl ConversationView {
    /// The conversation with one more message at its end.
    pub open spec fn push(self, message: MessageView) -> ConversationView {
        ConversationView { messages: self.messages.push(message), max_tokens: self.max_tokens }
    }

    /// The number of messages.
    pub open spec fn len(self) -> nat {
        self.messages.len()
    }
}

impl View for Conversation {
    type V = ConversationView;

    open spec fn view(&self) -> ConversationView {
        ConversationView { messages: self.messages.deep_view(), max_tokens: self.max_tokens }
    }
}

impl Clone for Conversation {
    fn clone(&self) -> (r: Conversation)
        ensures
            r@ == self@,
    {
        let mut messages: Vec<Message> = Vec::new();
        let mut i: usize = 0;
        while i < self.messages.len()
            invariant
                i <= self.messages.len(),
                messages.len() == i,
                forall|j: int| 0 <= j < i ==> messages[j]@ == self.messages[j]@,
            decreases self.messages.len() - i,
        {
            messages.push(self.messages[i].clone());
            i = i + 1;
        }
        assert(messages.deep_view() =~= self.messages.deep_view());
        Conversation { messages, max_tokens: self.max_tokens }
    }
}

impl Conversation {
    /// An empty conversation with the token budget `max_tokens`.
    pub fn new(max_tokens: u32) -> (r: Conversation)
        ensures
            r@.messages == Seq::<MessageView>::empty(),
            r@.max_tokens == max_tokens,
    {
        let r = Conversation { messages: Vec::new(), max_tokens };
        r
    }

    /// A conversation that starts with the system prompt `system_prompt`.
    pub fn new_with_prompt(max_tokens: u32, system_prompt: String) -> (r: Conversation)
        ensures
            r@.messages == Seq::<MessageView>::empty().push(
                MessageView::System { content: system_prompt@ },
            ),
            r@.max_tokens == max_tokens,
    {
        let mut conversation = Conversation::new(max_tokens);
        conversation.append_system_content(system_prompt);
        conversation
    }

    /// Appends `message`.
    pub fn append_message(&mut self, message: Message)
        ensures
            final(self)@ == old(self)@.push(message@),
    {
        self.messages.push(message);
        assert(self@.messages =~= old(self)@.messages.push(message@));
    }

    /// Appends what the user says.
    pub fn append_user_content(&mut self, content: String)
        ensures
            final(self)@ == old(self)@.push(MessageView::User { content: content@ }),
    {
        self.append_message(Message::User { content })
    }

    /// Appends an instruction to the model.
    pub fn append_system_content(&mut self, content: String)
        ensures
            final(self)@ == old(self)@.push(MessageView::System { content: content@ }),
    {
        self.append_message(Message::System { content })
    }

    /// Appends the record of the model's requests to call tools.
    pub fn append_tool_call_response(&mut self, tool_calls: &Vec<ToolCall>)
        ensures
            final(self)@ == old(self)@.push(MessageView::requests(tool_calls.deep_view())),
    {
        self.append_message(
            Message::Assistant { content: None, tool_calls: Some(clone_calls(tool_calls)) },
        )
    }

    /// Appends text of the model.
    pub fn append_assistant_content(&mut self, content: String)
        ensures
            final(self)@ == old(self)@.push(MessageView::text(content@)),
    {
        self.append_message(Message::Assistant { content: Some(content), tool_calls: None })
    }

    /// Appends the result `content` of the tool call with the id `tool_id`.
    pub fn append_tool_call_content(&mut self, content: String, tool_id: String)
        ensures
            final(self)@ == old(self)@.push(MessageView::result(content@, tool_id@)),
    {
        self.append_message(Message::Tool { content, tool_call_id: tool_id })
    }
}

/// The answer of one round-trip to the model: the conversation with the
/// model's text appended, and the tools the model asks for, if any.
#[derive(Debug, PartialEq, Eq)]
pub struct ChatResponse {
    pub conversation: Conversation,
    pub tool_calls: Option<Vec<ToolCall>>,
}

/// The view of a [`ChatResponse`].
pub struct ChatResponseView {
    pub conversation: ConversationView,
    pub tool_calls: Option<Seq<ToolCallView>>,
}

impl View for ChatResponse {
    type V = ChatResponseView;

    open spec fn view(&self) -> ChatResponseView {
        ChatResponseView {
            conversation: self.conversation@,
            tool_calls: self.tool_calls.deep_view(),
        }
    }
}

impl ChatResponse {
    /// An answer that holds `conversation` and asks for no tool.
    pub fn new(conversation: Conversation) -> (r: ChatResponse)
        ensures
            r@.conversation == conversation@,
            r@.tool_calls is None,
    {
        ChatResponse { conversation, tool_calls: None }
    }
}

} // verus!
