use mcp_agent::agent::{
    Agent, CatalogError, Config, ConfigError, InitError, InitEvent, InitStep, LLMConfig, Launch,
    McpConfig, Provider, Stage, ToolDescriptor, Transport,
};
use mcp_agent::llm::openai::ToolDecl;

fn stdio(command: &str) -> McpConfig {
    McpConfig {
        command: command.to_string(),
        args: vec!["serve".to_string()],
        env: Vec::new(),
        transport: None,
        url: None,
    }
}

fn endpoint(tag: &str, url: &str) -> McpConfig {
    McpConfig {
        command: String::new(),
        args: Vec::new(),
        env: Vec::new(),
        transport: Some(tag.to_string()),
        url: Some(url.to_string()),
    }
}

fn config(servers: Vec<(&str, McpConfig)>) -> Config {
    Config {
        mcp_servers: servers.into_iter().map(|(n, c)| (n.to_string(), c)).collect(),
        llm: LLMConfig {
            api_key: "key".to_string(),
            base_url: "https://proxy.example/v1/".to_string(),
            model: "gpt".to_string(),
        },
    }
}

fn tool(name: &str) -> ToolDescriptor {
    ToolDescriptor {
        name: name.to_string(),
        description: Some(format!("does {}", name)),
        input_schema: "{\"type\":\"object\"}".to_string(),
    }
}

fn decl(name: &str) -> ToolDecl {
    ToolDecl {
        name: name.to_string(),
        description: format!("does {}", name),
        parameters: "{\"type\":\"object\"}".to_string(),
    }
}

fn assert_nothing_stays(agent: &Agent) {
    assert_eq!(agent.stage(), Stage::Failed);
    assert!(!agent.is_ready());
    assert!(agent.providers().is_empty());
    assert!(agent.tools().is_empty());
    assert!(agent.llm().is_none());
    assert_eq!(agent.lookup("add"), None);
}

#[test]
fn agent_without_providers_is_ready_at_once() {
    let mut agent = Agent::new_with_config(config(vec![]));
    assert_eq!(agent.stage(), Stage::Created);
    assert_eq!(agent.max_rounds(), usize::MAX);
    assert_eq!(agent.initialize(InitEvent::Start), Ok(InitStep::Ready));
    assert!(agent.is_ready());
    let llm = agent.llm().unwrap();
    assert_eq!(llm.api_key(), "key");
    assert_eq!(llm.model(), "gpt");
    assert_eq!(llm.base_url(), "https://proxy.example/v1");
    assert!(llm.tools().is_empty());
}

#[test]
fn empty_base_url_keeps_the_public_endpoint() {
    let mut c = config(vec![]);
    c.llm.base_url = String::new();
    let mut agent = Agent::new_with_config(c);
    assert_eq!(agent.initialize(InitEvent::Start), Ok(InitStep::Ready));
    assert_eq!(agent.llm().unwrap().base_url(), "https://api.openai.com/v1");
}

#[test]
fn providers_are_connected_then_listed_in_order() {
    let mut agent = Agent::new_with_config(config(vec![
        ("a", stdio("run-a")),
        ("b", endpoint("sse", "http://b/sse")),
        ("c", endpoint("streamable", "http://c/mcp")),
    ]));
    assert_eq!(
        agent.initialize(InitEvent::Start),
        Ok(InitStep::Connect {
            provider: 0,
            launch: Launch::Stdio {
                command: "run-a".to_string(),
                args: vec!["serve".to_string()],
                env: Vec::new(),
            },
        })
    );
    assert_eq!(agent.stage(), Stage::Connecting);
    assert_eq!(
        agent.initialize(InitEvent::Connected),
        Ok(InitStep::Connect { provider: 1, launch: Launch::Sse { url: "http://b/sse".to_string() } })
    );
    assert_eq!(
        agent.initialize(InitEvent::Connected),
        Ok(InitStep::Connect {
            provider: 2,
            launch: Launch::Streamable { url: "http://c/mcp".to_string() },
        })
    );
    assert_eq!(agent.initialize(InitEvent::Connected), Ok(InitStep::ListTools { provider: 0 }));
    assert_eq!(agent.stage(), Stage::Listing);
    assert_eq!(
        agent.providers(),
        &vec![
            Provider { name: "a".to_string(), transport: Transport::Stdio },
            Provider { name: "b".to_string(), transport: Transport::Sse },
            Provider { name: "c".to_string(), transport: Transport::Streamable },
        ]
    );
    assert_eq!(
        agent.initialize(InitEvent::Listed(vec![tool("add"), tool("sub")])),
        Ok(InitStep::ListTools { provider: 1 })
    );
    assert_eq!(
        agent.initialize(InitEvent::Listed(vec![])),
        Ok(InitStep::ListTools { provider: 2 })
    );
    assert!(!agent.is_ready());
    assert_eq!(agent.initialize(InitEvent::Listed(vec![tool("mul")])), Ok(InitStep::Ready));
    assert!(agent.is_ready());
    assert_eq!(agent.tools(), &vec![decl("add"), decl("sub"), decl("mul")]);
    assert_eq!(agent.llm().unwrap().tools(), &vec![decl("add"), decl("sub"), decl("mul")]);
    assert_eq!(agent.lookup("add"), Some(0));
    assert_eq!(agent.lookup("sub"), Some(0));
    assert_eq!(agent.lookup("mul"), Some(2));
    assert_eq!(agent.lookup("div"), None);
}

#[test]
fn the_later_provider_wins_a_tool_that_two_expose() {
    let mut agent = Agent::new_with_config(config(vec![("A", stdio("a")), ("B", stdio("b"))]));
    assert!(agent.initialize(InitEvent::Start).is_ok());
    assert!(agent.initialize(InitEvent::Connected).is_ok());
    assert_eq!(agent.initialize(InitEvent::Connected), Ok(InitStep::ListTools { provider: 0 }));
    assert_eq!(
        agent.initialize(InitEvent::Listed(vec![tool("add")])),
        Ok(InitStep::ListTools { provider: 1 })
    );
    assert_eq!(agent.lookup("add"), Some(0));
    assert_eq!(agent.initialize(InitEvent::Listed(vec![tool("add")])), Ok(InitStep::Ready));
    assert_eq!(agent.lookup("add"), Some(1));
    assert_eq!(agent.providers()[1].name, "B");
    assert_eq!(agent.tools(), &vec![decl("add"), decl("add")]);
}

#[test]
fn wrong_entry_fails_before_anything_is_launched() {
    let mut agent = Agent::new_with_config(config(vec![("x", stdio(""))]));
    assert_eq!(
        agent.initialize(InitEvent::Start),
        Err(InitError::Config(ConfigError::EmptyCommand { name: "x".to_string() }))
    );
    assert_nothing_stays(&agent);
}

#[test]
fn wrong_later_entry_fails_when_it_is_reached() {
    let mut agent = Agent::new_with_config(config(vec![
        ("a", stdio("run-a")),
        ("w", endpoint("websocket", "ws://w")),
    ]));
    assert!(agent.initialize(InitEvent::Start).is_ok());
    assert_eq!(
        agent.initialize(InitEvent::Connected),
        Err(InitError::Config(ConfigError::UnsupportedTransport {
            name: "w".to_string(),
            transport: "websocket".to_string(),
        }))
    );
    assert_nothing_stays(&agent);
}

#[test]
fn connection_failure_ends_the_start_up() {
    let mut agent = Agent::new_with_config(config(vec![("a", stdio("a")), ("b", stdio("b"))]));
    assert!(agent.initialize(InitEvent::Start).is_ok());
    assert!(agent.initialize(InitEvent::Connected).is_ok());
    assert_eq!(
        agent.initialize(InitEvent::ConnectFailed("refused".to_string())),
        Err(InitError::Connect { provider: "b".to_string(), cause: "refused".to_string() })
    );
    assert_nothing_stays(&agent);
    assert_eq!(agent.initialize(InitEvent::Connected), Err(InitError::OutOfTurn));
    assert_eq!(agent.initialize(InitEvent::Start), Err(InitError::OutOfTurn));
    assert_nothing_stays(&agent);
}

#[test]
fn listing_failure_ends_the_start_up() {
    let mut agent = Agent::new_with_config(config(vec![("a", stdio("a")), ("b", stdio("b"))]));
    assert!(agent.initialize(InitEvent::Start).is_ok());
    assert!(agent.initialize(InitEvent::Connected).is_ok());
    assert!(agent.initialize(InitEvent::Connected).is_ok());
    assert!(agent.initialize(InitEvent::Listed(vec![tool("add")])).is_ok());
    assert_eq!(
        agent.initialize(InitEvent::ListFailed("timeout".to_string())),
        Err(InitError::Catalog(CatalogError::ListFailed {
            provider: "b".to_string(),
            cause: "timeout".to_string(),
        }))
    );
    assert_nothing_stays(&agent);
}

#[test]
fn tool_without_description_ends_the_start_up() {
    let mut agent = Agent::new_with_config(config(vec![("a", stdio("a"))]));
    assert!(agent.initialize(InitEvent::Start).is_ok());
    assert!(agent.initialize(InitEvent::Connected).is_ok());
    let mut bare = tool("sub");
    bare.description = None;
    let mut bare_too = tool("mul");
    bare_too.description = None;
    assert_eq!(
        agent.initialize(InitEvent::Listed(vec![tool("add"), bare, bare_too])),
        Err(InitError::Catalog(CatalogError::MissingDescription {
            provider: "a".to_string(),
            tool: "sub".to_string(),
        }))
    );
    assert_nothing_stays(&agent);
}

#[test]
fn events_out_of_turn_change_nothing() {
    let mut agent = Agent::new_with_config(config(vec![("a", stdio("a"))]));
    assert_eq!(agent.initialize(InitEvent::Connected), Err(InitError::OutOfTurn));
    assert_eq!(agent.initialize(InitEvent::Listed(vec![])), Err(InitError::OutOfTurn));
    assert_eq!(agent.stage(), Stage::Created);
    assert!(agent.initialize(InitEvent::Start).is_ok());
    assert_eq!(agent.initialize(InitEvent::Start), Err(InitError::OutOfTurn));
    assert_eq!(agent.initialize(InitEvent::Listed(vec![])), Err(InitError::OutOfTurn));
    assert_eq!(agent.initialize(InitEvent::ListFailed("x".to_string())), Err(InitError::OutOfTurn));
    assert_eq!(agent.stage(), Stage::Connecting);
    assert!(agent.initialize(InitEvent::Connected).is_ok());
    assert_eq!(agent.initialize(InitEvent::Connected), Err(InitError::OutOfTurn));
    assert_eq!(agent.stage(), Stage::Listing);
    assert_eq!(agent.initialize(InitEvent::Listed(vec![tool("add")])), Ok(InitStep::Ready));
    assert_eq!(agent.initialize(InitEvent::Listed(vec![tool("sub")])), Err(InitError::OutOfTurn));
    assert!(agent.is_ready());
    assert_eq!(agent.lookup("sub"), None);
    assert_eq!(agent.config().mcp_servers.len(), 1);
}

#[test]
fn the_round_limit_can_be_set() {
    let mut agent = Agent::new_with_config(config(vec![]));
    agent.set_max_rounds(3);
    assert_eq!(agent.max_rounds(), 3);
    assert_eq!(agent.stage(), Stage::Created);
}

#[test]
fn start_up_errors_have_their_words() {
    assert_eq!(
        InitError::Config(ConfigError::EmptyCommand { name: "x".to_string() }).message(),
        "mcp [x] command is empty"
    );
    assert_eq!(
        InitError::Connect { provider: "b".to_string(), cause: "refused".to_string() }.message(),
        "mcp [b] client error: refused"
    );
    assert_eq!(
        InitError::Catalog(CatalogError::ListFailed {
            provider: "b".to_string(),
            cause: "timeout".to_string(),
        })
        .message(),
        "mcp [b] error listing tools: timeout"
    );
    assert_eq!(
        CatalogError::MissingDescription { provider: "a".to_string(), tool: "sub".to_string() }
            .message(),
        "mcp [a] tool [sub] has no description"
    );
    assert_eq!(InitError::OutOfTurn.message(), "the start-up was not waiting for this");
}

#[test]
fn a_tool_is_declared_as_it_is_described() {
    let described = tool("add");
    assert_eq!(described.declare(), Some(decl("add")));
    let mut bare = tool("add");
    bare.description = None;
    assert_eq!(bare.declare(), None);
    let odd = ToolDescriptor {
        name: "Add It".to_string(),
        description: Some(String::new()),
        input_schema: "{\"type\":\"object\",\"properties\":{\"a\":{\"type\":\"integer\"}}}"
            .to_string(),
    };
    assert_eq!(
        odd.declare(),
        Some(ToolDecl {
            name: "Add It".to_string(),
            description: String::new(),
            parameters: "{\"type\":\"object\",\"properties\":{\"a\":{\"type\":\"integer\"}}}"
                .to_string(),
        })
    );
}

#[test]
fn the_agent_routes_a_tool_the_same_way_when_asked_again() {
    let mut agent = Agent::new_with_config(config(vec![("A", stdio("a")), ("B", stdio("b"))]));
    assert!(agent.initialize(InitEvent::Start).is_ok());
    assert!(agent.initialize(InitEvent::Connected).is_ok());
    assert!(agent.initialize(InitEvent::Connected).is_ok());
    assert!(agent.initialize(InitEvent::Listed(vec![tool("add")])).is_ok());
    assert_eq!(agent.initialize(InitEvent::Listed(vec![tool("sub")])), Ok(InitStep::Ready));
    for name in ["add", "sub", "mul"] {
        let first = agent.lookup(name);
        assert_eq!(agent.initialize(InitEvent::Start), Err(InitError::OutOfTurn));
        assert_eq!(agent.lookup(name), first);
    }
    assert_eq!(agent.lookup("add"), Some(0));
    assert_eq!(agent.lookup("sub"), Some(1));
}
