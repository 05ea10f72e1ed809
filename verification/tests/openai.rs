use mcp_agent::llm::message::{ChatResponse, Conversation, Message, ToolCall};
use mcp_agent::llm::openai::{
    with_api_key, with_base_url, with_model, with_tools, ChatRequest, Choice, OpenAi, OpenAiOption,
    ResponseFormat, ToolDecl,
};

fn call(id: &str, name: &str) -> ToolCall {
    ToolCall { id: id.to_string(), name: name.to_string(), arguments: "{}".to_string() }
}

fn decl(name: &str) -> ToolDecl {
    ToolDecl {
        name: name.to_string(),
        description: format!("the tool {}", name),
        parameters: "{\"type\":\"object\"}".to_string(),
    }
}

#[test]
fn new_settings_point_at_the_public_endpoint() {
    let llm = OpenAi::new();
    assert_eq!(llm.api_key(), "");
    assert_eq!(llm.model(), "");
    assert_eq!(llm.base_url(), "https://api.openai.com/v1");
    assert!(llm.tools().is_empty());
}

#[test]
fn options_set_their_fields() {
    assert_eq!(with_api_key("k"), OpenAiOption::ApiKey("k".to_string()));
    assert_eq!(with_model("m"), OpenAiOption::Model("m".to_string()));
    assert_eq!(with_tools(vec![decl("add")]), OpenAiOption::Tools(vec![decl("add")]));
    let mut llm = OpenAi::new();
    llm.with_option(with_api_key("k"));
    llm.with_option(with_model("m"));
    llm.with_option(with_tools(vec![decl("add")]));
    assert_eq!(llm.api_key(), "k");
    assert_eq!(llm.model(), "m");
    assert_eq!(llm.base_url(), "https://api.openai.com/v1");
    assert_eq!(llm.tools(), &vec![decl("add")]);
}

#[test]
fn base_url_loses_the_slashes_at_its_ends() {
    assert_eq!(
        with_base_url("https://proxy.example/v1/"),
        OpenAiOption::BaseUrl("https://proxy.example/v1".to_string())
    );
    assert_eq!(with_base_url("//a/b//"), OpenAiOption::BaseUrl("a/b".to_string()));
    assert_eq!(with_base_url("a/b"), OpenAiOption::BaseUrl("a/b".to_string()));
    assert_eq!(with_base_url("///"), OpenAiOption::BaseUrl("".to_string()));
    assert_eq!(with_base_url(""), OpenAiOption::BaseUrl("".to_string()));
}

#[test]
fn later_options_overwrite_earlier_ones() {
    let mut llm = OpenAi::new();
    llm.with_options(vec![
        with_api_key("first"),
        with_model("m1"),
        with_api_key("second"),
        with_base_url("http://host/"),
    ]);
    assert_eq!(llm.api_key(), "second");
    assert_eq!(llm.model(), "m1");
    assert_eq!(llm.base_url(), "http://host");
    llm.with_options(Vec::new());
    assert_eq!(llm.api_key(), "second");
}

#[test]
fn request_leaves_out_the_tools_where_there_are_none() {
    let mut llm = OpenAi::new();
    llm.with_option(with_model("gpt"));
    let mut c = Conversation::new(256);
    c.append_user_content("hi".to_string());
    let got = llm.request(&c);
    assert_eq!(
        got,
        ChatRequest {
            max_tokens: 256,
            model: "gpt".to_string(),
            messages: vec![Message::User { content: "hi".to_string() }],
            tools: None,
            response_format: ResponseFormat::JsonObject,
        }
    );
}

#[test]
fn request_carries_the_tools_where_there_are_some() {
    let mut llm = OpenAi::new();
    llm.with_options(vec![with_model("gpt"), with_tools(vec![decl("add"), decl("sub")])]);
    let c = Conversation::new_with_prompt(9, "p".to_string());
    let got = llm.request(&c);
    assert_eq!(got.tools, Some(vec![decl("add"), decl("sub")]));
    assert_eq!(got.messages, c.messages);
    assert_eq!(got.max_tokens, 9);
    assert_eq!(got.response_format, ResponseFormat::JsonObject);
}

#[test]
fn reply_with_text_adds_one_assistant_message() {
    let mut c = Conversation::new(64);
    c.append_user_content("question".to_string());
    let before = c.messages.len();
    let got = OpenAi::response(
        c,
        &vec![Choice { content: Some("answer".to_string()), tool_calls: None }],
    );
    assert_eq!(got.conversation.messages.len(), before + 1);
    assert_eq!(
        got.conversation.messages.last(),
        Some(&Message::Assistant { content: Some("answer".to_string()), tool_calls: None })
    );
    assert_eq!(got.tool_calls, None);
}

#[test]
fn reply_without_choices_changes_nothing() {
    let c = Conversation::new_with_prompt(64, "p".to_string());
    let got = OpenAi::response(c.clone(), &Vec::new());
    assert_eq!(got, ChatResponse { conversation: c, tool_calls: None });
}

#[test]
fn tool_calls_of_all_choices_are_joined_in_order() {
    let c = Conversation::new(64);
    let got = OpenAi::response(
        c,
        &vec![
            Choice { content: None, tool_calls: Some(vec![call("1", "add")]) },
            Choice { content: Some("thinking".to_string()), tool_calls: None },
            Choice { content: None, tool_calls: Some(vec![call("2", "sub"), call("3", "mul")]) },
        ],
    );
    assert_eq!(
        got.tool_calls,
        Some(vec![call("1", "add"), call("2", "sub"), call("3", "mul")])
    );
    assert_eq!(
        got.conversation.messages,
        vec![Message::Assistant { content: Some("thinking".to_string()), tool_calls: None }]
    );
}

#[test]
fn absorb_takes_one_choice_in() {
    let mut r = ChatResponse::new(Conversation::new(1));
    r.absorb(&Choice { content: Some("a".to_string()), tool_calls: Some(vec![]) });
    assert_eq!(r.tool_calls, Some(vec![]));
    assert_eq!(r.conversation.messages.len(), 1);
    r.absorb(&Choice { content: None, tool_calls: None });
    assert_eq!(r.tool_calls, Some(vec![]));
    assert_eq!(r.conversation.messages.len(), 1);
}
