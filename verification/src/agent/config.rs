//! Provider and model configuration, and the connection each provider entry
//! asks for.

use crate::text::{clone_pairs, clone_strings, result_view};
use vstd::prelude::*;

verus! {

/// How a provider is reached.
#[derive(Debug, Clone, Copy, PartialEq, Eq, Structural)]
pub enum Transport {
    /// A spawned subprocess, spoken to over its standard streams.
    Stdio,
    /// A Server-Sent-Events endpoint.
    Sse,
    /// A streaming HTTP endpoint.
    Streamable,
}

/// One provider entry of the configuration.
#[derive(Debug, PartialEq, Eq)]
pub struct McpConfig {
    /// The command that is spawned, for a subprocess provider.
    pub command: String,
    /// The arguments of the command.
    pub args: Vec<String>,
    /// The variables that are set for the command: name and value.
    pub env: Vec<(String, String)>,
    /// The tag of the transport: `stdio`, `sse` or `streamable`. An entry
    /// without a tag is a subprocess provider.
    pub transport: Option<String>,
    /// The url of the endpoint, for an endpoint provider.
    pub url: Option<String>,
}

/// The view of a [`McpConfig`].
pub struct McpConfigView {
    pub command: Seq<char>,
    pub args: Seq<Seq<char>>,
    pub env: Seq<(Seq<char>, Seq<char>)>,
    pub transport: Option<Seq<char>>,
    pub url: Option<Seq<char>>,
}

impl View for McpConfig {
    type V = McpConfigView;

    open spec fn view(&self) -> McpConfigView {
        McpConfigView {
            command: self.command@,
            args: self.args.deep_view(),
            env: self.env.deep_view(),
            transport: self.transport.deep_view(),
            url: self.url.deep_view(),
        }
    }
}

impl DeepView for McpConfig {
    type V = McpConfigView;

    open spec fn deep_view(&self) -> McpConfigView {
        self@
    }
}

/// Settings of the language model endpoint.
#[derive(Debug, PartialEq, Eq)]
pub struct LLMConfig {
    pub api_key: String,
    /// The base url of the endpoint; the public OpenAI endpoint where it is
    /// empty.
    pub base_url: String,
    /// The name of the model.
    pub model: String,
}

/// The view of a [`LLMConfig`].
pub struct LLMConfigView {
    pub api_key: Seq<char>,
    pub base_url: Seq<char>,
    pub model: Seq<char>,
}

impl View for LLMConfig {
    type V = LLMConfigView;

    open spec fn view(&self) -> LLMConfigView {
        LLMConfigView { api_key: self.api_key@, base_url: self.base_url@, model: self.model@ }
    }
}

impl Default for LLMConfig {
    fn default() -> (r: LLMConfig)
        ensures
            r@.api_key == Seq::<char>::empty(),
            r@.base_url == Seq::<char>::empty(),
            r@.model == Seq::<char>::empty(),
    {
        LLMConfig { api_key: String::new(), base_url: String::new(), model: String::new() }
    }
}

/// The whole configuration: the providers, each under its name, in the
/// order in which they are registered, and the model settings. The providers
/// are named apart (see [`Config::wf`]).
#[derive(Debug, PartialEq, Eq)]
pub struct Config {
    /// The providers: name and entry, in the order of registration.
    pub mcp_servers: Vec<(String, McpConfig)>,
    /// The settings of the model.
    pub llm: LLMConfig,
}

/// The view of a [`Config`].
pub struct ConfigView {
    pub mcp_servers: Seq<(Seq<char>, McpConfigView)>,
    pub llm: LLMConfigView,
}

impl View for Config {
    type V = ConfigView;

    open spec fn view(&self) -> ConfigView {
        ConfigView { mcp_servers: self.mcp_servers.deep_view(), llm: self.llm@ }
    }
}

/// No two of the entries have the same name.
pub open spec fn distinct_names(servers: Seq<(Seq<char>, McpConfigView)>) -> bool {
    forall|i: int, j: int|
        0 <= i < j < servers.len() ==> (#[trigger] servers[i]).0 != (#[trigger] servers[j]).0
}

/// The place of the entry with the name `name`, if there is one.
pub open spec fn place_of(servers: Seq<(Seq<char>, McpConfigView)>, name: Seq<char>) -> Option<
    int,
> {
    if exists|i: int| 0 <= i < servers.len() && (#[trigger] servers[i]).0 == name {
        Some(choose|i: int| 0 <= i < servers.len() && (#[trigger] servers[i]).0 == name)
    } else {
        None
    }
}

/// The entries after `entry` is put under the name `name`: in the place of
/// the entry that had the name, or at the end where there was none.
pub open spec fn put(
    servers: Seq<(Seq<char>, McpConfigView)>,
    name: Seq<char>,
    entry: McpConfigView,
) -> Seq<(Seq<char>, McpConfigView)> {
    match place_of(servers, name) {
        Some(i) => servers.update(i, (name, entry)),
        None => servers.push((name, entry)),
    }
}

impl ConfigView {
    /// The providers are named apart: the configuration maps names to
    /// entries.
    pub open spec fn wf(self) -> bool {
        distinct_names(self.mcp_servers)
    }
}

impl Config {
    /// The providers are named apart.
    pub open spec fn wf(&self) -> bool {
        self@.wf()
    }

    /// A configuration without providers.
    pub fn new(llm: LLMConfig) -> (r: Config)
        ensures
            r.wf(),
            r@.mcp_servers == Seq::<(Seq<char>, McpConfigView)>::empty(),
            r@.llm == llm@,
    {
        Config { mcp_servers: Vec::new(), llm }
    }

    /// The place of the first entry with the name `name`, if there is one.
    pub fn position(&self, name: &str) -> (r: Option<usize>)
        ensures
            r matches Some(i) ==> i < self@.mcp_servers.len() && self@.mcp_servers[i as int].0
                == name@ && forall|j: int|
                0 <= j < i ==> (#[trigger] self@.mcp_servers[j]).0 != name@,
            r is None ==> forall|j: int|
                0 <= j < self@.mcp_servers.len() ==> (#[trigger] self@.mcp_servers[j]).0 != name@,
    {
        let mut i: usize = 0;
        while i < self.mcp_servers.len()
            invariant
                i <= self.mcp_servers.len(),
                forall|j: int| 0 <= j < i ==> (#[trigger] self@.mcp_servers[j]).0 != name@,
            decreases self.mcp_servers.len() - i,
        {
            if self.mcp_servers[i].0.as_str().eq(name) {
                return Some(i);
            }
            i = i + 1;
        }
        None
    }

    /// Puts `entry` under the name `name`: in the place of the entry that had
    /// the name, or at the end where there was none.
    pub fn insert(&mut self, name: String, entry: McpConfig)
        requires
            old(self).wf(),
        ensures
            final(self).wf(),
            final(self)@.mcp_servers == put(old(self)@.mcp_servers, name@, entry@),
            final(self)@.llm == old(self)@.llm,
    {
        let ghost before = self@.mcp_servers;
        match self.position(name.as_str()) {
            Some(i) => {
                self.mcp_servers.set(i, (name, entry));
                assert forall|a: int, b: int|
                    0 <= a < b < self@.mcp_servers.len() implies (#[trigger] self@.mcp_servers[a]).0
                    != (#[trigger] self@.mcp_servers[b]).0 by {
                    assert(before[a].0 != before[b].0);
                }
            },
            None => {
                self.mcp_servers.push((name, entry));
                assert forall|a: int, b: int|
                    0 <= a < b < self@.mcp_servers.len() implies (#[trigger] self@.mcp_servers[a]).0
                    != (#[trigger] self@.mcp_servers[b]).0 by {
                    if b < before.len() {
                        assert(before[a].0 != before[b].0);
                    } else {
                        assert(before[a].0 != name@);
                    }
                }
            },
        }
    }

    /// Whether the providers are named apart.
    pub fn is_well_formed(&self) -> (r: bool)
        ensures
            r == self.wf(),
    {
        let mut j: usize = 0;
        while j < self.mcp_servers.len()
            invariant
                j <= self.mcp_servers.len(),
                forall|a: int, b: int|
                    0 <= a < b < j ==> (#[trigger] self@.mcp_servers[a]).0
                        != (#[trigger] self@.mcp_servers[b]).0,
            decreases self.mcp_servers.len() - j,
        {
            if let Some(i) = self.position(self.mcp_servers[j].0.as_str()) {
                if i < j {
                    assert(self@.mcp_servers[i as int].0 == self@.mcp_servers[j as int].0);
                    return false;
                }
            }
            j = j + 1;
        }
        true
    }
}

/// What is wrong with a provider entry.
#[derive(Debug, PartialEq, Eq)]
pub enum ConfigError {
    /// A subprocess provider names no command.
    EmptyCommand { name: String },
    /// An endpoint provider gives no url at all.
    MissingUrl { name: String },
    /// An endpoint provider gives an empty url.
    EmptyUrl { name: String },
    /// The transport tag is none of the known ones.
    UnsupportedTransport { name: String, transport: String },
}

/// The view of a [`ConfigError`].
pub enum ConfigErrorView {
    EmptyCommand { name: Seq<char> },
    MissingUrl { name: Seq<char> },
    EmptyUrl { name: Seq<char> },
    UnsupportedTransport { name: Seq<char>, transport: Seq<char> },
}

impl View for ConfigError {
    type V = ConfigErrorView;

    open spec fn view(&self) -> ConfigErrorView {
        match self {
            ConfigError::EmptyCommand { name } => ConfigErrorView::EmptyCommand { name: name@ },
            ConfigError::MissingUrl { name } => ConfigErrorView::MissingUrl { name: name@ },
            ConfigError::EmptyUrl { name } => ConfigErrorView::EmptyUrl { name: name@ },
            ConfigError::UnsupportedTransport { name, transport } => {
                ConfigErrorView::UnsupportedTransport { name: name@, transport: transport@ }
            },
        }
    }
}

impl ConfigErrorView {
    /// The text that reports the error.
    pub open spec fn message(self) -> Seq<char> {
        match self {
            ConfigErrorView::EmptyCommand { name } => "mcp ["@ + name + "] command is empty"@,
            ConfigErrorView::MissingUrl { name } => "mcp ["@ + name + "] url is missing"@,
            ConfigErrorView::EmptyUrl { name } => "mcp ["@ + name + "] url is empty"@,
            ConfigErrorView::UnsupportedTransport { name, transport } => {
                "mcp ["@ + name + "] unsupported transport type "@ + transport
            },
        }
    }
}

impl ConfigError {
    /// The text that reports the error.
    pub fn message(&self) -> (r: String)
        ensures
            r@ == self@.message(),
    {
        match self {
            ConfigError::EmptyCommand { name } => {
                String::from_str("mcp [").concat(name.as_str()).concat("] command is empty")
            },
            ConfigError::MissingUrl { name } => {
                String::from_str("mcp [").concat(name.as_str()).concat("] url is missing")
            },
            ConfigError::EmptyUrl { name } => {
                String::from_str("mcp [").concat(name.as_str()).concat("] url is empty")
            },
            ConfigError::UnsupportedTransport { name, transport } => {
                String::from_str("mcp [").concat(name.as_str()).concat(
                    "] unsupported transport type ",
                ).concat(transport.as_str())
            },
        }
    }
}

/// What has to be done to reach a provider.
#[derive(Debug, PartialEq, Eq)]
pub enum Launch {
    /// Spawn `command` with the arguments `args` and the variables `env`.
    Stdio { command: String, args: Vec<String>, env: Vec<(String, String)> },
    /// Open the Server-Sent-Events endpoint at `url`.
    Sse { url: String },
    /// Open the streaming HTTP endpoint at `url`.
    Streamable { url: String },
}

/// The view of a [`Launch`].
pub enum LaunchView {
    Stdio { command: Seq<char>, args: Seq<Seq<char>>, env: Seq<(Seq<char>, Seq<char>)> },
    Sse { url: Seq<char> },
    Streamable { url: Seq<char> },
}

impl View for Launch {
    type V = LaunchView;

    open spec fn view(&self) -> LaunchView {
        match self {
            Launch::Stdio { command, args, env } => LaunchView::Stdio {
                command: command@,
                args: args.deep_view(),
                env: env.deep_view(),
            },
            Launch::Sse { url } => LaunchView::Sse { url: url@ },
            Launch::Streamable { url } => LaunchView::Streamable { url: url@ },
        }
    }
}

impl LaunchView {
    /// The transport that the launch goes over.
    pub open spec fn transport(self) -> Transport {
        match self {
            LaunchView::Stdio { .. } => Transport::Stdio,
            LaunchView::Sse { .. } => Transport::Sse,
            LaunchView::Streamable { .. } => Transport::Streamable,
        }
    }
}

impl Launch {
    /// The transport that the launch goes over.
    pub fn transport(&self) -> (r: Transport)
        ensures
            r == self@.transport(),
    {
        match self {
            Launch::Stdio { .. } => Transport::Stdio,
            Launch::Sse { .. } => Transport::Sse,
            Launch::Streamable { .. } => Transport::Streamable,
        }
    }
}

/// The transport that a tag names, if it names one.
pub open spec fn transport_for(tag: Seq<char>) -> Option<Transport> {
    if tag == "streamable"@ {
        Some(Transport::Streamable)
    } else if tag == "stdio"@ {
        Some(Transport::Stdio)
    } else if tag == "sse"@ {
        Some(Transport::Sse)
    } else {
        None
    }
}

/// The transport of an entry: the one that its tag names, or a subprocess
/// where the entry has no tag. (An unknown tag names none: such an entry has
/// no launch, and is counted as a subprocess here.)
pub open spec fn transport_of(config: McpConfigView) -> Transport {
    match config.transport {
        None => Transport::Stdio,
        Some(tag) => match transport_for(tag) {
            Some(transport) => transport,
            None => Transport::Stdio,
        },
    }
}

/// The launch of a subprocess provider: its command must not be empty.
pub open spec fn stdio_launch(name: Seq<char>, config: McpConfigView) -> Result<
    LaunchView,
    ConfigErrorView,
> {
    if config.command.len() == 0 {
        Err(ConfigErrorView::EmptyCommand { name })
    } else {
        Ok(LaunchView::Stdio { command: config.command, args: config.args, env: config.env })
    }
}

/// The url of an endpoint provider: it must be there and not be empty.
pub open spec fn endpoint_url(name: Seq<char>, config: McpConfigView) -> Result<
    Seq<char>,
    ConfigErrorView,
> {
    match config.url {
        None => Err(ConfigErrorView::MissingUrl { name }),
        Some(url) => if url.len() == 0 {
            Err(ConfigErrorView::EmptyUrl { name })
        } else {
            Ok(url)
        },
    }
}

/// The launch of a Server-Sent-Events provider.
pub open spec fn sse_launch(name: Seq<char>, config: McpConfigView) -> Result<
    LaunchView,
    ConfigErrorView,
> {
    match endpoint_url(name, config) {
        Ok(url) => Ok(LaunchView::Sse { url }),
        Err(e) => Err(e),
    }
}

/// The launch of a streaming HTTP provider.
pub open spec fn streamable_launch(name: Seq<char>, config: McpConfigView) -> Result<
    LaunchView,
    ConfigErrorView,
> {
    match endpoint_url(name, config) {
        Ok(url) => Ok(LaunchView::Streamable { url }),
        Err(e) => Err(e),
    }
}

/// The launch that a provider entry asks for, or what is wrong with it. An
/// entry without a tag is a subprocess provider.
pub open spec fn launch_for(name: Seq<char>, config: McpConfigView) -> Result<
    LaunchView,
    ConfigErrorView,
> {
    match config.transport {
        None => stdio_launch(name, config),
        Some(tag) => match transport_for(tag) {
            Some(Transport::Stdio) => stdio_launch(name, config),
            Some(Transport::Sse) => sse_launch(name, config),
            Some(Transport::Streamable) => streamable_launch(name, config),
            None => Err(ConfigErrorView::UnsupportedTransport { name, transport: tag }),
        },
    }
}

/// Selects a transport by its tag.
pub fn select_transport(tag: &str) -> (r: Option<Transport>)
    ensures
        r == transport_for(tag@),
{
    if tag.eq("streamable") {
        Some(Transport::Streamable)
    } else if tag.eq("stdio") {
        Some(Transport::Stdio)
    } else if tag.eq("sse") {
        Some(Transport::Sse)
    } else {
        None
    }
}

impl McpConfig {
    /// The transport of the entry.
    pub fn transport_kind(&self) -> (r: Transport)
        ensures
            r == transport_of(self@),
    {
        match &self.transport {
            None => Transport::Stdio,
            Some(tag) => match select_transport(tag.as_str()) {
                Some(transport) => transport,
                None => Transport::Stdio,
            },
        }
    }
}

/// An entry that has a launch is launched over its own transport.
pub proof fn launch_goes_over_the_entrys_transport(name: Seq<char>, config: McpConfigView)
    ensures
        launch_for(name, config) matches Ok(launch) ==> launch.transport() == transport_of(config),
{
}

/// Checks the entry of a subprocess provider and says what to spawn.
pub fn initialize_stdio_client(name: &str, config: &McpConfig) -> (r: Result<Launch, ConfigError>)
    ensures
        result_view(r) == stdio_launch(name@, config@),
{
    if config.command.as_str().is_empty() {
        return Err(ConfigError::EmptyCommand { name: name.to_owned() });
    }
    Ok(
        Launch::Stdio {
            command: config.command.clone(),
            args: clone_strings(&config.args),
            env: clone_pairs(&config.env),
        },
    )
}

/// The url of an endpoint provider, checked.
fn checked_url(name: &str, config: &McpConfig) -> (r: Result<String, ConfigError>)
    ensures
        result_view(r) == endpoint_url(name@, config@),
{
    match &config.url {
        None => Err(ConfigError::MissingUrl { name: name.to_owned() }),
        Some(url) => {
            if url.as_str().is_empty() {
                Err(ConfigError::EmptyUrl { name: name.to_owned() })
            } else {
                Ok(url.clone())
            }
        },
    }
}

/// Checks the entry of a streaming HTTP provider and says what to open.
pub fn initialize_streamable_client(name: &str, config: &McpConfig) -> (r: Result<
    Launch,
    ConfigError,
>)
    ensures
        result_view(r) == streamable_launch(name@, config@),
{
    match checked_url(name, config) {
        Ok(url) => Ok(Launch::Streamable { url }),
        Err(e) => Err(e),
    }
}

/// Checks the entry of a Server-Sent-Events provider and says what to open.
pub fn initialize_sse_client(name: &str, config: &McpConfig) -> (r: Result<Launch, ConfigError>)
    ensures
        result_view(r) == sse_launch(name@, config@),
{
    match checked_url(name, config) {
        Ok(url) => Ok(Launch::Sse { url }),
        Err(e) => Err(e),
    }
}

/// Checks a provider entry and says how to reach the provider.
pub fn plan_launch(name: &str, config: &McpConfig) -> (r: Result<Launch, ConfigError>)
    ensures
        result_view(r) == launch_for(name@, config@),
{
    match &config.transport {
        None => initialize_stdio_client(name, config),
        Some(tag) => match select_transport(tag.as_str()) {
            Some(Transport::Streamable) => initialize_streamable_client(name, config),
            Some(Transport::Stdio) => initialize_stdio_client(name, config),
            Some(Transport::Sse) => initialize_sse_client(name, config),
            None => Err(
                ConfigError::UnsupportedTransport { name: name.to_owned(), transport: tag.clone() },
            ),
        },
    }
}

} // verus!
