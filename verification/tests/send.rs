use mcp_agent::agent::{
    Agent, Config, ConversationEngine, InitEvent, InitStep, LLMConfig, McpConfig, Phase, SendError,
    SendEvent, SendStep, ToolDescriptor, ToolRequest,
};
use mcp_agent::llm::message::{ChatResponse, Conversation, Message, ToolCall};
use mcp_agent::llm::openai::{Choice, OpenAi};

fn stdio(command: &str) -> McpConfig {
    McpConfig {
        command: command.to_string(),
        args: Vec::new(),
        env: Vec::new(),
        transport: None,
        url: None,
    }
}

fn tool(name: &str) -> ToolDescriptor {
    ToolDescriptor {
        name: name.to_string(),
        description: Some(format!("does {}", name)),
        input_schema: "{}".to_string(),
    }
}

/// An agent with the providers "A" (tools add, sub) and "B" (tool mul).
fn ready_agent() -> Agent {
    let mut agent = Agent::new_with_config(Config {
        mcp_servers: vec![("A".to_string(), stdio("a")), ("B".to_string(), stdio("b"))],
        llm: LLMConfig::default(),
    });
    assert!(agent.initialize(InitEvent::Start).is_ok());
    assert!(agent.initialize(InitEvent::Connected).is_ok());
    assert!(agent.initialize(InitEvent::Connected).is_ok());
    assert!(agent.initialize(InitEvent::Listed(vec![tool("add"), tool("sub")])).is_ok());
    assert_eq!(agent.initialize(InitEvent::Listed(vec![tool("mul")])), Ok(InitStep::Ready));
    agent
}

fn call(id: &str, name: &str, arguments: &str) -> ToolCall {
    ToolCall { id: id.to_string(), name: name.to_string(), arguments: arguments.to_string() }
}

fn question() -> Conversation {
    let mut c = Conversation::new_with_prompt(1024, "you are helpful".to_string());
    c.append_user_content("what is 1 + 2?".to_string());
    c
}

fn asks(conversation: &Conversation, calls: Vec<ToolCall>) -> SendEvent {
    SendEvent::ModelReplied(OpenAi::response(
        conversation.clone(),
        &vec![Choice { content: None, tool_calls: Some(calls) }],
    ))
}

fn says(conversation: &Conversation, text: &str) -> SendEvent {
    SendEvent::ModelReplied(OpenAi::response(
        conversation.clone(),
        &vec![Choice { content: Some(text.to_string()), tool_calls: None }],
    ))
}

fn request(provider: usize, name: &str, arguments: Option<&str>) -> SendStep {
    SendStep::CallTool(ToolRequest {
        provider,
        name: name.to_string(),
        arguments: arguments.map(|a| a.to_string()),
    })
}

#[test]
fn reply_without_tool_calls_is_the_final_answer() {
    let agent = ready_agent();
    let input = question();
    let response = OpenAi::response(
        input.clone(),
        &vec![Choice { content: Some("three".to_string()), tool_calls: None }],
    );
    assert_eq!(response.conversation.messages.len(), input.messages.len() + 1);
    let mut engine = ConversationEngine::new(input.clone());
    assert_eq!(engine.phase(), Phase::AwaitingModel);
    let got = agent.send(&mut engine, SendEvent::ModelReplied(response));
    assert_eq!(got, Ok(SendStep::Finished("three".to_string())));
    assert_eq!(engine.phase(), Phase::Final);
    assert_eq!(engine.rounds(), 0);
    assert_eq!(engine.into_conversation(), input);
}

#[test]
fn reply_without_text_gives_the_placeholder() {
    let agent = ready_agent();
    let mut engine = ConversationEngine::new(question());
    let silent = ChatResponse::new(question());
    assert_eq!(
        agent.send(&mut engine, SendEvent::ModelReplied(silent)),
        Ok(SendStep::Finished("success".to_string()))
    );
}

#[test]
fn empty_conversation_gives_the_placeholder() {
    let agent = ready_agent();
    let mut engine = ConversationEngine::new(Conversation::new(8));
    let silent = ChatResponse::new(Conversation::new(8));
    assert_eq!(
        agent.send(&mut engine, SendEvent::ModelReplied(silent)),
        Ok(SendStep::Finished("success".to_string()))
    );
}

#[test]
fn last_message_without_text_gives_the_placeholder() {
    let agent = ready_agent();
    let mut c = question();
    c.append_tool_call_response(&vec![call("1", "unknown", "{}")]);
    let mut engine = ConversationEngine::new(c.clone());
    assert_eq!(
        agent.send(&mut engine, SendEvent::ModelReplied(ChatResponse::new(c))),
        Ok(SendStep::Finished("success".to_string()))
    );
}

#[test]
fn one_round_of_tool_calls() {
    let agent = ready_agent();
    let input = question();
    let mut engine = ConversationEngine::new(input.clone());
    let calls = vec![call("c1", "add", "{\"a\":1,\"b\":2}"), call("c2", "mul", "{\"a\":3}")];
    assert_eq!(
        agent.send(&mut engine, asks(&input, calls.clone())),
        Ok(request(0, "add", Some("{\"a\":1,\"b\":2}")))
    );
    assert_eq!(engine.phase(), Phase::Dispatching);
    assert_eq!(engine.rounds(), 1);
    assert_eq!(engine.conversation().messages.len(), input.messages.len() + 1);
    assert_eq!(
        agent.send(&mut engine, SendEvent::ToolReturned("{\"content\":\"3\"}".to_string())),
        Ok(request(1, "mul", Some("{\"a\":3}")))
    );
    assert_eq!(
        agent.send(&mut engine, SendEvent::ToolReturned("{\"content\":\"9\"}".to_string())),
        Ok(SendStep::AskModel)
    );
    assert_eq!(engine.phase(), Phase::AwaitingModel);
    let mut want = input.clone();
    want.append_message(Message::Assistant { content: None, tool_calls: Some(calls) });
    want.append_message(Message::Tool {
        content: "{\"content\":\"3\"}".to_string(),
        tool_call_id: "c1".to_string(),
    });
    want.append_message(Message::Tool {
        content: "{\"content\":\"9\"}".to_string(),
        tool_call_id: "c2".to_string(),
    });
    assert_eq!(engine.conversation(), &want);
    let now = engine.conversation().clone();
    assert_eq!(
        agent.send(&mut engine, says(&now, "three and nine")),
        Ok(SendStep::Finished("three and nine".to_string()))
    );
    assert_eq!(engine.rounds(), 1);
    assert_eq!(engine.into_conversation(), want);
}

/// Drives a conversation against a model that asks for `rounds` rounds of
/// tool calls and then answers, and tools that always return "ok".
fn drive(agent: &Agent, rounds: usize, calls: Vec<ToolCall>) -> (Result<String, SendError>, ConversationEngine, usize) {
    let mut engine = ConversationEngine::new(question());
    let mut asked = 0;
    let mut executed = 0;
    let mut step = Ok(SendStep::AskModel);
    loop {
        match step {
            Ok(SendStep::AskModel) => {
                let now = engine.conversation().clone();
                let event = if asked < rounds {
                    asks(&now, calls.clone())
                } else {
                    says(&now, "done")
                };
                asked += 1;
                step = agent.send(&mut engine, event);
            }
            Ok(SendStep::CallTool(_)) => {
                executed += 1;
                step = agent.send(&mut engine, SendEvent::ToolReturned("ok".to_string()));
            }
            Ok(SendStep::Finished(answer)) => return (Ok(answer), engine, executed),
            Err(e) => return (Err(e), engine, executed),
        }
    }
}

#[test]
fn the_model_is_asked_until_it_answers() {
    let agent = ready_agent();
    let calls = vec![call("1", "add", "{}"), call("2", "nothing", "{}"), call("3", "mul", "{}")];
    for rounds in 0..6 {
        let (answer, engine, executed) = drive(&agent, rounds, calls.clone());
        assert_eq!(answer, Ok("done".to_string()));
        assert_eq!(engine.rounds(), rounds);
        assert_eq!(executed, 2 * rounds);
        assert_eq!(engine.phase(), Phase::Final);
        assert_eq!(engine.conversation().messages.len(), 2 + rounds * (1 + 2));
    }
}

#[test]
fn unrouted_calls_leave_no_result() {
    let agent = ready_agent();
    let input = question();
    let mut engine = ConversationEngine::new(input.clone());
    let calls = vec![call("1", "nothing", "not json"), call("2", "nobody", "{}")];
    assert_eq!(agent.send(&mut engine, asks(&input, calls.clone())), Ok(SendStep::AskModel));
    assert_eq!(engine.phase(), Phase::AwaitingModel);
    assert_eq!(engine.rounds(), 1);
    let mut want = input.clone();
    want.append_tool_call_response(&calls);
    assert_eq!(engine.conversation(), &want);
}

#[test]
fn unrouted_calls_between_routed_ones_are_passed_over() {
    let agent = ready_agent();
    let input = question();
    let mut engine = ConversationEngine::new(input.clone());
    let calls = vec![
        call("1", "nothing", "{}"),
        call("2", "sub", "{\"a\":1}"),
        call("3", "nothing", "{}"),
    ];
    assert_eq!(
        agent.send(&mut engine, asks(&input, calls)),
        Ok(request(0, "sub", Some("{\"a\":1}")))
    );
    assert_eq!(
        agent.send(&mut engine, SendEvent::ToolReturned("r".to_string())),
        Ok(SendStep::AskModel)
    );
    assert_eq!(engine.conversation().messages.len(), input.messages.len() + 2);
    assert_eq!(
        engine.conversation().messages.last(),
        Some(&Message::Tool { content: "r".to_string(), tool_call_id: "2".to_string() })
    );
}

#[test]
fn an_empty_list_of_calls_is_a_round_without_calls() {
    let agent = ready_agent();
    let input = question();
    let mut engine = ConversationEngine::new(input.clone());
    assert_eq!(agent.send(&mut engine, asks(&input, vec![])), Ok(SendStep::AskModel));
    assert_eq!(engine.rounds(), 1);
    assert_eq!(engine.conversation().messages.len(), input.messages.len() + 1);
}

#[test]
fn only_a_json_object_is_passed_on_as_arguments() {
    let agent = ready_agent();
    for (text, want) in [
        ("{\"a\": [1, 2]}", Some("{\"a\": [1, 2]}")),
        ("  {}  ", Some("  {}  ")),
        ("[1,2]", None),
        ("\"text\"", None),
        ("17", None),
        ("true", None),
        ("null", None),
    ] {
        let input = question();
        let mut engine = ConversationEngine::new(input.clone());
        assert_eq!(
            agent.send(&mut engine, asks(&input, vec![call("1", "add", text)])),
            Ok(request(0, "add", want))
        );
    }
}

#[test]
fn arguments_that_are_no_json_end_the_conversation() {
    let agent = ready_agent();
    for text in ["", "{", "{\"a\":}", "not json", "{} {}", "{'a':1}"] {
        let input = question();
        let mut engine = ConversationEngine::new(input.clone());
        let got = agent.send(&mut engine, asks(&input, vec![call("1", "add", text)]));
        match got {
            Err(SendError::Arguments { tool, cause }) => {
                assert_eq!(tool, "add");
                assert!(!cause.is_empty());
            }
            other => panic!("expected an error for {:?}, got {:?}", text, other),
        }
        assert_eq!(engine.phase(), Phase::Failed);
        assert_eq!(
            agent.send(&mut engine, SendEvent::ToolReturned("late".to_string())),
            Err(SendError::OutOfTurn)
        );
    }
}

#[test]
fn the_words_of_the_json_error_are_kept() {
    let agent = ready_agent();
    let input = question();
    let mut engine = ConversationEngine::new(input.clone());
    let got = agent.send(&mut engine, asks(&input, vec![call("1", "add", "{")]));
    assert_eq!(
        got,
        Err(SendError::Arguments {
            tool: "add".to_string(),
            cause: "EOF while parsing an object at line 1 column 1".to_string(),
        })
    );
}

#[test]
fn bad_arguments_are_met_only_when_the_call_is_reached() {
    let agent = ready_agent();
    let input = question();
    let mut engine = ConversationEngine::new(input.clone());
    let calls = vec![call("1", "add", "{}"), call("2", "mul", "oops")];
    assert_eq!(agent.send(&mut engine, asks(&input, calls)), Ok(request(0, "add", Some("{}"))));
    let got = agent.send(&mut engine, SendEvent::ToolReturned("3".to_string()));
    assert!(matches!(got, Err(SendError::Arguments { .. })));
    assert_eq!(engine.phase(), Phase::Failed);
    assert_eq!(engine.conversation().messages.len(), input.messages.len() + 2);
}

#[test]
fn a_failed_tool_call_ends_the_conversation() {
    let agent = ready_agent();
    let input = question();
    let mut engine = ConversationEngine::new(input.clone());
    let calls = vec![call("1", "mul", "{}"), call("2", "add", "{}")];
    assert_eq!(agent.send(&mut engine, asks(&input, calls)), Ok(request(1, "mul", Some("{}"))));
    assert_eq!(
        agent.send(&mut engine, SendEvent::ToolFailed("connection closed".to_string())),
        Err(SendError::ToolCall { tool: "mul".to_string(), cause: "connection closed".to_string() })
    );
    assert_eq!(engine.phase(), Phase::Failed);
    assert_eq!(engine.conversation().messages.len(), input.messages.len() + 1);
}

#[test]
fn a_failed_model_call_ends_the_conversation() {
    let agent = ready_agent();
    let mut engine = ConversationEngine::new(question());
    assert_eq!(
        agent.send(&mut engine, SendEvent::ModelFailed("503".to_string())),
        Err(SendError::ModelCall { cause: "503".to_string() })
    );
    assert_eq!(engine.phase(), Phase::Failed);
    assert_eq!(engine.conversation(), &question());
}

#[test]
fn reports_out_of_turn_leave_the_conversation() {
    let agent = ready_agent();
    let input = question();
    let mut engine = ConversationEngine::new(input.clone());
    assert_eq!(
        agent.send(&mut engine, SendEvent::ToolReturned("x".to_string())),
        Err(SendError::OutOfTurn)
    );
    assert_eq!(
        agent.send(&mut engine, SendEvent::ToolFailed("x".to_string())),
        Err(SendError::OutOfTurn)
    );
    assert_eq!(engine.phase(), Phase::AwaitingModel);
    assert_eq!(engine.conversation(), &input);
    assert!(agent.send(&mut engine, asks(&input, vec![call("1", "add", "{}")])).is_ok());
    let before = engine.conversation().clone();
    assert_eq!(agent.send(&mut engine, says(&input, "early")), Err(SendError::OutOfTurn));
    assert_eq!(
        agent.send(&mut engine, SendEvent::ModelFailed("x".to_string())),
        Err(SendError::OutOfTurn)
    );
    assert_eq!(engine.phase(), Phase::Dispatching);
    assert_eq!(engine.conversation(), &before);
    assert!(agent.send(&mut engine, SendEvent::ToolReturned("3".to_string())).is_ok());
    let now = engine.conversation().clone();
    assert_eq!(
        agent.send(&mut engine, says(&now, "three")),
        Ok(SendStep::Finished("three".to_string()))
    );
    assert_eq!(agent.send(&mut engine, says(&now, "again")), Err(SendError::OutOfTurn));
    assert_eq!(engine.phase(), Phase::Final);
}

#[test]
fn the_round_limit_ends_the_conversation() {
    let mut agent = Agent::new_with_config(Config {
        mcp_servers: vec![("A".to_string(), stdio("a"))],
        llm: LLMConfig::default(),
    });
    agent.set_max_rounds(2);
    assert!(agent.initialize(InitEvent::Start).is_ok());
    assert!(agent.initialize(InitEvent::Connected).is_ok());
    assert_eq!(agent.initialize(InitEvent::Listed(vec![tool("add")])), Ok(InitStep::Ready));
    let calls = vec![call("1", "add", "{}")];
    let (answer, engine, executed) = drive(&agent, 2, calls.clone());
    assert_eq!(answer, Ok("done".to_string()));
    assert_eq!((engine.rounds(), executed), (2, 2));
    let (answer, engine, executed) = drive(&agent, 3, calls);
    assert_eq!(answer, Err(SendError::RoundLimit { limit: 2 }));
    assert_eq!((engine.rounds(), executed), (2, 2));
    assert_eq!(engine.phase(), Phase::Failed);
    assert_eq!(engine.conversation().messages.len(), 2 + 2 * 2);
}

#[test]
fn conversation_errors_have_their_words() {
    assert_eq!(
        SendError::ModelCall { cause: "503".to_string() }.message(),
        "the call to the model failed: 503"
    );
    assert_eq!(
        SendError::ToolCall { tool: "add".to_string(), cause: "closed".to_string() }.message(),
        "the call to the tool [add] failed: closed"
    );
    assert_eq!(
        SendError::Arguments { tool: "add".to_string(), cause: "EOF".to_string() }.message(),
        "the arguments for the tool [add] are no JSON: EOF"
    );
    assert_eq!(
        SendError::RoundLimit { limit: 2 }.message(),
        "the model asked for tools in too many rounds"
    );
    assert_eq!(SendError::OutOfTurn.message(), "the conversation was not waiting for this");
}
