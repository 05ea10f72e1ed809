//! The settings of an OpenAI-style chat endpoint, the request that is made to
//! it for a conversation, and what its reply adds to the conversation.

use crate::llm::message::{
    clone_calls, ChatResponse, ChatResponseView, Conversation, ConversationView, Message,
    MessageView, ToolCall, ToolCallView,
};
use crate::text::{trim, trim_matches};
use vstd::prelude::*;

verus! {

/// The declaration of a tool as the model sees it.
#[derive(Debug, PartialEq, Eq)]
pub struct ToolDecl {
    pub name: String,
    pub description: String,
    /// The JSON schema of the arguments, as JSON text.
    pub parameters: String,
}

/// The view of a [`ToolDecl`].
pub struct ToolDeclView {
    pub name: Seq<char>,
    pub description: Seq<char>,
    pub parameters: Seq<char>,
}

impl View for ToolDecl {
    type V = ToolDeclView;

    open spec fn view(&self) -> ToolDeclView {
        ToolDeclView {
            name: self.name@,
            description: self.description@,
            parameters: self.parameters@,
        }
    }
}

impl DeepView for ToolDecl {
    type V = ToolDeclView;

    open spec fn deep_view(&self) -> ToolDeclView {
        self@
    }
}

impl Clone for ToolDecl {
    fn clone(&self) -> (r: ToolDecl)
        ensures
            r == *self,
    {
        ToolDecl {
            name: self.name.clone(),
            description: self.description.clone(),
            parameters: self.parameters.clone(),
        }
    }
}

/// A copy of a list of tool declarations.
pub fn clone_tools(tools: &Vec<ToolDecl>) -> (r: Vec<ToolDecl>)
    ensures
        r@ == tools@,
{
    let mut out: Vec<ToolDecl> = Vec::new();
    let mut i: usize = 0;
    while i < tools.len()
        invariant
            i <= tools.len(),
            out@ == tools@.take(i as int),
        decreases tools.len() - i,
    {
        out.push(tools[i].clone());
        i = i + 1;
    }
    out
}

/// One setting of the endpoint.
#[derive(Debug, PartialEq, Eq)]
pub enum OpenAiOption {
    ApiKey(String),
    Model(String),
    BaseUrl(String),
    Tools(Vec<ToolDecl>),
}

/// The view of an [`OpenAiOption`].
pub enum OpenAiOptionView {
    ApiKey(Seq<char>),
    Model(Seq<char>),
    BaseUrl(Seq<char>),
    Tools(Seq<ToolDeclView>),
}

impl View for OpenAiOption {
    type V = OpenAiOptionView;

    open spec fn view(&self) -> OpenAiOptionView {
        match self {
            OpenAiOption::ApiKey(key) => OpenAiOptionView::ApiKey(key@),
            OpenAiOption::Model(model) => OpenAiOptionView::Model(model@),
            OpenAiOption::BaseUrl(url) => OpenAiOptionView::BaseUrl(url@),
            OpenAiOption::Tools(tools) => OpenAiOptionView::Tools(tools.deep_view()),
        }
    }
}

impl DeepView for OpenAiOption {
    type V = OpenAiOptionView;

    open spec fn deep_view(&self) -> OpenAiOptionView {
        self@
    }
}

/// The setting of the API key.
pub fn with_api_key(api_key: &str) -> (r: OpenAiOption)
    ensures
        r@ == OpenAiOptionView::ApiKey(api_key@),
{
    OpenAiOption::ApiKey(api_key.to_owned())
}

/// The setting of the model's name.
pub fn with_model(model: &str) -> (r: OpenAiOption)
    ensures
        r@ == OpenAiOptionView::Model(model@),
{
    OpenAiOption::Model(model.to_owned())
}

/// The setting of the base url. Slashes at its start and at its end are
/// dropped.
pub fn with_base_url(base_url: &str) -> (r: OpenAiOption)
    ensures
        r@ == OpenAiOptionView::BaseUrl(trim(base_url@, '/')),
{
    OpenAiOption::BaseUrl(trim_matches(base_url, '/').to_owned())
}

/// The setting of the tools that are declared to the model.
pub fn with_tools(tools: Vec<ToolDecl>) -> (r: OpenAiOption)
    ensures
        r@ == OpenAiOptionView::Tools(tools.deep_view()),
{
    OpenAiOption::Tools(tools)
}

/// The settings of the endpoint.
#[derive(Debug, PartialEq, Eq)]
pub struct OpenAi {
    api_key: String,
    base_url: String,
    model: String,
    tools: Vec<ToolDecl>,
}

/// The view of an [`OpenAi`].
pub struct OpenAiView {
    pub api_key: Seq<char>,
    pub base_url: Seq<char>,
    pub model: Seq<char>,
    pub tools: Seq<ToolDeclView>,
}

impl OpenAiView {
    /// The settings before any option is applied.
    pub open spec fn initial() -> OpenAiView {
        OpenAiView {
            api_key: Seq::empty(),
            base_url: "https://api.openai.com/v1"@,
            model: Seq::empty(),
            tools: Seq::empty(),
        }
    }

    /// The settings after `option` is applied.
    pub open spec fn with(self, option: OpenAiOptionView) -> OpenAiView {
        match option {
            OpenAiOptionView::ApiKey(api_key) => OpenAiView { api_key, ..self },
            OpenAiOptionView::Model(model) => OpenAiView { model, ..self },
            OpenAiOptionView::BaseUrl(base_url) => OpenAiView { base_url, ..self },
            OpenAiOptionView::Tools(tools) => OpenAiView { tools, ..self },
        }
    }

    /// The settings after the options are applied in order.
    pub open spec fn with_all(self, options: Seq<OpenAiOptionView>) -> OpenAiView
        decreases options.len(),
    {
        if options.len() == 0 {
            self
        } else {
            self.with_all(options.drop_last()).with(options.last())
        }
    }

    /// The request that is made for `conversation`. The tools are left out
    /// where there are none.
    pub open spec fn request(self, conversation: ConversationView) -> ChatRequestView {
        ChatRequestView {
            max_tokens: conversation.max_tokens,
            model: self.model,
            messages: conversation.messages,
            tools: if self.tools.len() == 0 {
                None
            } else {
                Some(self.tools)
            },
            response_format: ResponseFormat::JsonObject,
        }
    }
}

impl View for OpenAi {
    type V = OpenAiView;

    closed spec fn view(&self) -> OpenAiView {
        OpenAiView {
            api_key: self.api_key@,
            base_url: self.base_url@,
            model: self.model@,
            tools: self.tools.deep_view(),
        }
    }
}

impl Clone for OpenAi {
    fn clone(&self) -> (r: OpenAi)
        ensures
            r@ == self@,
    {
        let tools = clone_tools(&self.tools);
        OpenAi {
            api_key: self.api_key.clone(),
            base_url: self.base_url.clone(),
            model: self.model.clone(),
            tools,
        }
    }
}

impl DeepView for OpenAi {
    type V = OpenAiView;

    open spec fn deep_view(&self) -> OpenAiView {
        self@
    }
}

/// The form in which the model is asked to answer.
#[derive(Debug, Clone, Copy, PartialEq, Eq, Structural)]
pub enum ResponseFormat {
    Text,
    JsonObject,
}

/// A request for a chat completion.
#[derive(Debug, PartialEq, Eq)]
pub struct ChatRequest {
    pub max_tokens: u32,
    pub model: String,
    pub messages: Vec<Message>,
    pub tools: Option<Vec<ToolDecl>>,
    pub response_format: ResponseFormat,
}

/// The view of a [`ChatRequest`].
pub struct ChatRequestView {
    pub max_tokens: u32,
    pub model: Seq<char>,
    pub messages: Seq<MessageView>,
    pub tools: Option<Seq<ToolDeclView>>,
    pub response_format: ResponseFormat,
}

impl View for ChatRequest {
    type V = ChatRequestView;

    open spec fn view(&self) -> ChatRequestView {
        ChatRequestView {
            max_tokens: self.max_tokens,
            model: self.model@,
            messages: self.messages.deep_view(),
            tools: self.tools.deep_view(),
            response_format: self.response_format,
        }
    }
}

/// One alternative of the model's reply.
#[derive(Debug, PartialEq, Eq)]
pub struct Choice {
    pub content: Option<String>,
    pub tool_calls: Option<Vec<ToolCall>>,
}

/// The view of a [`Choice`].
pub struct ChoiceView {
    pub content: Option<Seq<char>>,
    pub tool_calls: Option<Seq<ToolCallView>>,
}

impl View for Choice {
    type V = ChoiceView;

    open spec fn view(&self) -> ChoiceView {
        ChoiceView { content: self.content.deep_view(), tool_calls: self.tool_calls.deep_view() }
    }
}

impl DeepView for Choice {
    type V = ChoiceView;

    open spec fn deep_view(&self) -> ChoiceView {
        self@
    }
}

impl ChatResponseView {
    /// The answer after one more alternative is taken in: its text becomes
    /// an assistant message, its tool calls join those asked for so far.
    pub open spec fn absorb(self, choice: ChoiceView) -> ChatResponseView {
        ChatResponseView {
            conversation: match choice.content {
                Some(content) => self.conversation.push(MessageView::text(content)),
                None => self.conversation,
            },
            tool_calls: match choice.tool_calls {
                Some(calls) => match self.tool_calls {
                    Some(earlier) => Some(earlier + calls),
                    None => Some(calls),
                },
                None => self.tool_calls,
            },
        }
    }

    /// The answer after the alternatives are taken in, in order.
    pub open spec fn absorb_all(self, choices: Seq<ChoiceView>) -> ChatResponseView
        decreases choices.len(),
    {
        if choices.len() == 0 {
            self
        } else {
            self.absorb_all(choices.drop_last()).absorb(choices.last())
        }
    }

    /// The answer to `conversation` that the alternatives `choices` make.
    pub open spec fn of_reply(
        conversation: ConversationView,
        choices: Seq<ChoiceView>,
    ) -> ChatResponseView {
        ChatResponseView { conversation, tool_calls: None }.absorb_all(choices)
    }
}

impl ChatResponse {
    /// Takes one alternative of the model's reply in.
    pub fn absorb(&mut self, choice: &Choice)
        ensures
            final(self)@ == old(self)@.absorb(choice@),
    {
        if let Some(content) = &choice.content {
            self.conversation.append_assistant_content(content.clone());
        }
        if let Some(calls) = &choice.tool_calls {
            let mut asked = clone_calls(calls);
            let mut all: Vec<ToolCall> = match self.tool_calls.take() {
                Some(earlier) => earlier,
                None => Vec::new(),
            };
            let ghost before = all.deep_view();
            all.append(&mut asked);
            assert(all.deep_view() =~= before + calls.deep_view());
            self.tool_calls = Some(all);
        }
    }
}

impl OpenAi {
    /// The settings before any option is applied: the public OpenAI
    /// endpoint, no key, no model and no tools.
    pub fn new() -> (r: OpenAi)
        ensures
            r@ == OpenAiView::initial(),
    {
        let r = OpenAi {
            api_key: String::new(),
            base_url: String::from_str("https://api.openai.com/v1"),
            model: String::new(),
            tools: Vec::new(),
        };
        assert(r.tools.deep_view() =~= Seq::<ToolDeclView>::empty());
        r
    }

    /// Applies one option.
    pub fn with_option(&mut self, opt: OpenAiOption) -> (r: &Self)
        ensures
            final(self)@ == old(self)@.with(opt@),
            r@ == final(self)@,
    {
        self.apply(opt);
        self
    }

    /// Sets the field that the option is for.
    fn apply(&mut self, opt: OpenAiOption)
        ensures
            final(self)@ == old(self)@.with(opt@),
    {
        match opt {
            OpenAiOption::ApiKey(api_key) => {
                self.api_key = api_key;
            },
            OpenAiOption::Model(model) => {
                self.model = model;
            },
            OpenAiOption::BaseUrl(base_url) => {
                self.base_url = base_url;
            },
            OpenAiOption::Tools(tools) => {
                self.tools = tools;
            },
        }
    }

    /// Applies the options in order.
    pub fn with_options(&mut self, opts: Vec<OpenAiOption>) -> (r: &Self)
        ensures
            final(self)@ == old(self)@.with_all(opts.deep_view()),
            r@ == final(self)@,
    {
        let ghost all = opts.deep_view();
        for opt in it: opts
            invariant
                all == it.seq().map_values(|o: OpenAiOption| o@),
                self@ == old(self)@.with_all(all.take(it.index() as int)),
        {
            self.apply(opt);
            assert(all.take(it.index() + 1).drop_last() =~= all.take(it.index() as int));
        }
        assert(all.take(all.len() as int) =~= all);
        self
    }

    /// The API key.
    pub fn api_key(&self) -> (r: &String)
        ensures
            r@ == self@.api_key,
    {
        &self.api_key
    }

    /// The base url of the endpoint.
    pub fn base_url(&self) -> (r: &String)
        ensures
            r@ == self@.base_url,
    {
        &self.base_url
    }

    /// The name of the model.
    pub fn model(&self) -> (r: &String)
        ensures
            r@ == self@.model,
    {
        &self.model
    }

    /// The tools that are declared to the model.
    pub fn tools(&self) -> (r: &Vec<ToolDecl>)
        ensures
            r.deep_view() == self@.tools,
    {
        &self.tools
    }

    /// The request that is made to the endpoint for `conversation`.
    pub fn request(&self, conversation: &Conversation) -> (r: ChatRequest)
        ensures
            r@ == self@.request(conversation@),
    {
        let copy = conversation.clone();
        let tools = if self.tools.len() == 0 {
            None
        } else {
            Some(clone_tools(&self.tools))
        };
        ChatRequest {
            max_tokens: conversation.max_tokens,
            model: self.model.clone(),
            messages: copy.messages,
            tools,
            response_format: ResponseFormat::JsonObject,
        }
    }

    /// The answer that the alternatives `choices` of the endpoint's reply make
    /// to `conversation`.
    pub fn response(conversation: Conversation, choices: &Vec<Choice>) -> (r: ChatResponse)
        ensures
            r@ == ChatResponseView::of_reply(conversation@, choices.deep_view()),
    {
        let mut resp = ChatResponse::new(conversation);
        let mut i: usize = 0;
        while i < choices.len()
            invariant
                i <= choices.len(),
                resp@ == ChatResponseView::of_reply(
                    conversation@,
                    choices.deep_view().take(i as int),
                ),
            decreases choices.len() - i,
        {
            resp.absorb(&choices[i]);
            assert(choices.deep_view().take(i + 1).drop_last() =~= choices.deep_view().take(
                i as int,
            ));
            i = i + 1;
        }
        assert(choices.deep_view().take(choices.len() as int) =~= choices.deep_view());
        resp
    }
}

} // verus!
