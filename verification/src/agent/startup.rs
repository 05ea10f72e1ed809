//! The start-up of an agent, step by step: every provider is connected, then
//! every provider's tools are taken into the catalog and the routing table,
//! then the model's settings are made. The first failure ends it, and
//! nothing of what was built stays.

use crate::agent::catalog::{
    declarations, first_undescribed, lemma_first_undescribed, CatalogError, CatalogErrorView,
    ToolDescriptor, ToolDescriptorView,
};
use crate::agent::config::{
    launch_for, transport_of, ConfigError, ConfigErrorView, ConfigView, Launch, LaunchView,
    Transport,
};
use crate::llm::openai::{OpenAiOptionView, OpenAiView, ToolDeclView};
use crate::text::trim;
use vstd::prelude::*;

verus! {

/// How far the start-up of an agent has come.
#[derive(Debug, Clone, Copy, PartialEq, Eq, Structural)]
pub enum Stage {
    /// Nothing has been done yet.
    Created,
    /// A provider is being connected.
    Connecting,
    /// A provider is listing its tools.
    Listing,
    /// Every provider is connected and the catalog is whole.
    Ready,
    /// The start-up has failed.
    Failed,
}

/// A provider that is connected.
#[derive(Debug, PartialEq, Eq)]
pub struct Provider {
    pub name: String,
    pub transport: Transport,
}

/// The view of a [`Provider`].
pub struct ProviderView {
    pub name: Seq<char>,
    pub transport: Transport,
}

impl View for Provider {
    type V = ProviderView;

    open spec fn view(&self) -> ProviderView {
        ProviderView { name: self.name@, transport: self.transport }
    }
}

impl DeepView for Provider {
    type V = ProviderView;

    open spec fn deep_view(&self) -> ProviderView {
        self@
    }
}

/// What is reported to an agent that starts up.
#[derive(Debug, PartialEq, Eq)]
pub enum InitEvent {
    /// The start-up is to begin.
    Start,
    /// The provider that was to be connected is connected.
    Connected,
    /// The provider that was to be connected could not be reached.
    ConnectFailed(String),
    /// The provider that was asked has listed these tools.
    Listed(Vec<ToolDescriptor>),
    /// The provider that was asked failed to list its tools.
    ListFailed(String),
}

/// The view of an [`InitEvent`].
pub enum InitEventView {
    Start,
    Connected,
    ConnectFailed(Seq<char>),
    Listed(Seq<ToolDescriptorView>),
    ListFailed(Seq<char>),
}

impl View for InitEvent {
    type V = InitEventView;

    open spec fn view(&self) -> InitEventView {
        match self {
            InitEvent::Start => InitEventView::Start,
            InitEvent::Connected => InitEventView::Connected,
            InitEvent::ConnectFailed(cause) => InitEventView::ConnectFailed(cause@),
            InitEvent::Listed(tools) => InitEventView::Listed(tools.deep_view()),
            InitEvent::ListFailed(cause) => InitEventView::ListFailed(cause@),
        }
    }
}

/// What has to be done next for the start-up.
#[derive(Debug, PartialEq, Eq)]
pub enum InitStep {
    /// Connect the provider with the index `provider` as `launch` says.
    Connect { provider: usize, launch: Launch },
    /// Ask the provider with the index `provider` for its tools.
    ListTools { provider: usize },
    /// Nothing: the agent is ready.
    Ready,
}

/// The view of an [`InitStep`].
pub enum InitStepView {
    Connect { provider: usize, launch: LaunchView },
    ListTools { provider: usize },
    Ready,
}

impl View for InitStep {
    type V = InitStepView;

    open spec fn view(&self) -> InitStepView {
        match self {
            InitStep::Connect { provider, launch } => InitStepView::Connect {
                provider: *provider,
                launch: launch@,
            },
            InitStep::ListTools { provider } => InitStepView::ListTools { provider: *provider },
            InitStep::Ready => InitStepView::Ready,
        }
    }
}

/// Why the start-up failed.
#[derive(Debug, PartialEq, Eq)]
pub enum InitError {
    /// A provider entry of the configuration is wrong.
    Config(ConfigError),
    /// A provider could not be reached.
    Connect { provider: String, cause: String },
    /// A provider's catalog could not be taken in.
    Catalog(CatalogError),
    /// Something was reported that the start-up was not waiting for.
    OutOfTurn,
}

/// The view of an [`InitError`].
pub enum InitErrorView {
    Config(ConfigErrorView),
    Connect { provider: Seq<char>, cause: Seq<char> },
    Catalog(CatalogErrorView),
    OutOfTurn,
}

impl View for InitError {
    type V = InitErrorView;

    open spec fn view(&self) -> InitErrorView {
        match self {
            InitError::Config(e) => InitErrorView::Config(e@),
            InitError::Connect { provider, cause } => InitErrorView::Connect {
                provider: provider@,
                cause: cause@,
            },
            InitError::Catalog(e) => InitErrorView::Catalog(e@),
            InitError::OutOfTurn => InitErrorView::OutOfTurn,
        }
    }
}

impl InitErrorView {
    /// The text that reports the error.
    pub open spec fn message(self) -> Seq<char> {
        match self {
            InitErrorView::Config(e) => e.message(),
            InitErrorView::Connect { provider, cause } => "mcp ["@ + provider
                + "] client error: "@ + cause,
            InitErrorView::Catalog(e) => e.message(),
            InitErrorView::OutOfTurn => "the start-up was not waiting for this"@,
        }
    }
}

impl InitError {
    /// The text that reports the error.
    pub fn message(&self) -> (r: String)
        ensures
            r@ == self@.message(),
    {
        match self {
            InitError::Config(e) => e.message(),
            InitError::Connect { provider, cause } => {
                String::from_str("mcp [").concat(provider.as_str()).concat(
                    "] client error: ",
                ).concat(cause.as_str())
            },
            InitError::Catalog(e) => e.message(),
            InitError::OutOfTurn => String::from_str("the start-up was not waiting for this"),
        }
    }
}

/// What a step of the start-up gives: the next thing to do, or the error
/// that ends it.
pub type Progress = Result<InitStepView, InitErrorView>;

/// The table `table` after each of the tools `decls` is routed to the
/// provider `provider`, in order.
pub open spec fn route_all(
    table: Map<Seq<char>, usize>,
    decls: Seq<ToolDeclView>,
    provider: usize,
) -> Map<Seq<char>, usize>
    decreases decls.len(),
{
    if decls.len() == 0 {
        table
    } else {
        route_all(table, decls.drop_last(), provider).insert(decls.last().name, provider)
    }
}

/// Every tool of the table is routed to a provider whose index is below
/// `bound`.
pub open spec fn routes_below(table: Map<Seq<char>, usize>, bound: nat) -> bool {
    forall|tool: Seq<char>| table.dom().contains(tool) ==> (#[trigger] table[tool]) < bound
}

/// The tools of the table are the tools that are declared in the catalog.
pub open spec fn routes_cover(table: Map<Seq<char>, usize>, catalog: Seq<ToolDeclView>) -> bool {
    forall|tool: Seq<char>| #[trigger] table.dom().contains(tool) <==> declares(catalog, tool)
}

/// One of the declarations is for the tool `tool`.
pub open spec fn declares(catalog: Seq<ToolDeclView>, tool: Seq<char>) -> bool {
    exists|k: int| 0 <= k < catalog.len() && (#[trigger] catalog[k]).name == tool
}

/// A tool is declared in a list exactly when it is declared in the list
/// without its last declaration, or by that last one.
proof fn lemma_declares_last(decls: Seq<ToolDeclView>, tool: Seq<char>)
    requires
        decls.len() > 0,
    ensures
        declares(decls, tool) <==> declares(decls.drop_last(), tool) || decls.last().name == tool,
{
    let front = decls.drop_last();
    if declares(front, tool) {
        let k = choose|k: int| 0 <= k < front.len() && (#[trigger] front[k]).name == tool;
        assert(decls[k].name == tool);
    }
    if decls.last().name == tool {
        assert(decls[decls.len() - 1].name == tool);
    }
    if declares(decls, tool) {
        let k = choose|k: int| 0 <= k < decls.len() && (#[trigger] decls[k]).name == tool;
        if k < decls.len() - 1 {
            assert(front[k].name == tool);
        }
    }
}

/// A tool is declared in two lists put together exactly when it is declared
/// in one of them.
proof fn lemma_declares_both(first: Seq<ToolDeclView>, second: Seq<ToolDeclView>, tool: Seq<char>)
    ensures
        declares(first + second, tool) <==> declares(first, tool) || declares(second, tool),
{
    let all = first + second;
    if declares(first, tool) {
        let k = choose|k: int| 0 <= k < first.len() && (#[trigger] first[k]).name == tool;
        assert(all[k].name == tool);
    }
    if declares(second, tool) {
        let k = choose|k: int| 0 <= k < second.len() && (#[trigger] second[k]).name == tool;
        assert(all[first.len() + k].name == tool);
    }
    if declares(all, tool) {
        let k = choose|k: int| 0 <= k < all.len() && (#[trigger] all[k]).name == tool;
        if k < first.len() {
            assert(first[k].name == tool);
        } else {
            assert(second[k - first.len()].name == tool);
        }
    }
}

/// After `route_all`, a tool is in the table exactly when it was there
/// before or is one of the tools that were routed.
pub(crate) proof fn lemma_route_all_domain(
    table: Map<Seq<char>, usize>,
    decls: Seq<ToolDeclView>,
    provider: usize,
    tool: Seq<char>,
)
    ensures
        route_all(table, decls, provider).dom().contains(tool) <==> table.dom().contains(tool)
            || declares(decls, tool),
    decreases decls.len(),
{
    if decls.len() > 0 {
        lemma_route_all_domain(table, decls.drop_last(), provider, tool);
        lemma_declares_last(decls, tool);
    }
}

/// Routing the tools that are added to the catalog keeps the table and the
/// catalog in step.
pub(crate) proof fn lemma_route_all_cover(
    table: Map<Seq<char>, usize>,
    catalog: Seq<ToolDeclView>,
    decls: Seq<ToolDeclView>,
    provider: usize,
)
    requires
        routes_cover(table, catalog),
    ensures
        routes_cover(route_all(table, decls, provider), catalog + decls),
{
    let after = route_all(table, decls, provider);
    assert forall|tool: Seq<char>| #[trigger] after.dom().contains(tool) <==> declares(
        catalog + decls,
        tool,
    ) by {
        lemma_route_all_domain(table, decls, provider, tool);
        lemma_declares_both(catalog, decls, tool);
        assert(table.dom().contains(tool) <==> declares(catalog, tool));
    }
}

/// What `route_all` says of a tool: the provider that was given, where the
/// tool is one of those that were routed, and what the table said of it before
/// otherwise.
pub(crate) proof fn lemma_route_all_entry(
    table: Map<Seq<char>, usize>,
    decls: Seq<ToolDeclView>,
    provider: usize,
    tool: Seq<char>,
)
    ensures
        declares(decls, tool) ==> route_all(table, decls, provider)[tool] == provider,
        !declares(decls, tool) ==> route_all(table, decls, provider)[tool] == table[tool],
    decreases decls.len(),
{
    if decls.len() > 0 {
        lemma_route_all_entry(table, decls.drop_last(), provider, tool);
        lemma_declares_last(decls, tool);
    }
}

/// Routing more tools to the provider `provider` keeps every route below
/// `provider + 1`, where the routes were below `provider` before.
pub(crate) proof fn lemma_route_all_below(
    table: Map<Seq<char>, usize>,
    decls: Seq<ToolDeclView>,
    provider: usize,
)
    requires
        routes_below(table, provider as nat),
    ensures
        routes_below(route_all(table, decls, provider), (provider + 1) as nat),
{
    let after = route_all(table, decls, provider);
    assert forall|tool: Seq<char>| after.dom().contains(tool) implies (#[trigger] after[tool])
        < provider + 1 by {
        lemma_route_all_entry(table, decls, provider, tool);
        lemma_route_all_domain(table, decls, provider, tool);
    }
}

/// The settings of the model for the configuration `config` and the catalog
/// `catalog`: the key and the model's name as they are; the base url, without
/// slashes at its ends, where one is given; the tools where there are any.
pub open spec fn model_settings(config: ConfigView, catalog: Seq<ToolDeclView>) -> OpenAiView {
    let named = OpenAiView::initial().with(OpenAiOptionView::ApiKey(config.llm.api_key)).with(
        OpenAiOptionView::Model(config.llm.model),
    );
    let based = if config.llm.base_url.len() == 0 {
        named
    } else {
        named.with(OpenAiOptionView::BaseUrl(trim(config.llm.base_url, '/')))
    };
    if catalog.len() == 0 {
        based
    } else {
        based.with(OpenAiOptionView::Tools(catalog))
    }
}

/// The view of an [`Agent`](crate::agent::Agent).
pub struct AgentView {
    pub config: ConfigView,
    pub stage: Stage,
    /// The providers that are connected, in the order of the configuration.
    pub providers: Seq<ProviderView>,
    /// The number of providers whose tools are in the catalog.
    pub listed: nat,
    /// The declarations of all the tools that were taken in, in order.
    pub catalog: Seq<ToolDeclView>,
    /// The routing table: the index of the provider of each tool.
    pub dispatch: Map<Seq<char>, usize>,
    /// The settings of the model, once the agent is ready.
    pub llm: Option<OpenAiView>,
    /// The number of rounds of tool calls that a conversation may take.
    pub max_rounds: usize,
}

impl AgentView {
    /// The agent before its start-up.
    pub open spec fn created(config: ConfigView, max_rounds: usize) -> AgentView {
        AgentView {
            config,
            stage: Stage::Created,
            providers: Seq::empty(),
            listed: 0,
            catalog: Seq::empty(),
            dispatch: Map::empty(),
            llm: None,
            max_rounds,
        }
    }

    /// The agent after its start-up has failed: nothing of what was built
    /// stays.
    pub open spec fn failed(self) -> AgentView {
        AgentView { stage: Stage::Failed, ..AgentView::created(self.config, self.max_rounds) }
    }

    /// The number of providers that the configuration names.
    pub open spec fn expected(self) -> nat {
        self.config.mcp_servers.len()
    }

    /// The name of the provider with the index `i`.
    pub open spec fn name_of(self, i: int) -> Seq<char> {
        self.config.mcp_servers[i].0
    }

    /// The agent is ready: the settings of the model are made.
    pub open spec fn ready(self) -> (AgentView, Progress) {
        (
            AgentView {
                stage: Stage::Ready,
                llm: Some(model_settings(self.config, self.catalog)),
                ..self
            },
            Ok(InitStepView::Ready),
        )
    }

    /// Goes on to the next provider that has not listed its tools; the agent
    /// is ready where there is none.
    pub open spec fn list_next(self) -> (AgentView, Progress) {
        if self.listed >= self.expected() {
            self.ready()
        } else {
            (
                AgentView { stage: Stage::Listing, ..self },
                Ok(InitStepView::ListTools { provider: self.listed as usize }),
            )
        }
    }

    /// Goes on to the next provider that is not connected: its entry is
    /// checked, and a wrong entry ends the start-up. Where every provider is
    /// connected, the listing begins.
    pub open spec fn connect_next(self) -> (AgentView, Progress) {
        let i: nat = self.providers.len();
        if i >= self.expected() {
            self.list_next()
        } else {
            match launch_for(self.name_of(i as int), self.config.mcp_servers[i as int].1) {
                Ok(launch) => (
                    AgentView { stage: Stage::Connecting, ..self },
                    Ok(InitStepView::Connect { provider: i as usize, launch }),
                ),
                Err(e) => (self.failed(), Err(InitErrorView::Config(e))),
            }
        }
    }

    /// The provider that was to be connected is connected: it joins the
    /// registry, and the next one is gone on to.
    pub open spec fn on_connected(self) -> (AgentView, Progress) {
        let i: int = self.providers.len() as int;
        AgentView {
            providers: self.providers.push(
                ProviderView {
                    name: self.name_of(i),
                    transport: transport_of(self.config.mcp_servers[i].1),
                },
            ),
            ..self
        }.connect_next()
    }

    /// The provider that was asked has listed `tools`: each is declared to
    /// the model and routed to the provider, a later tool overwriting an
    /// earlier one of the same name. A tool without a description ends the
    /// start-up.
    pub open spec fn on_listed(self, tools: Seq<ToolDescriptorView>) -> (AgentView, Progress) {
        match first_undescribed(tools) {
            Some(k) => (
                self.failed(),
                Err(
                    InitErrorView::Catalog(
                        CatalogErrorView::MissingDescription {
                            provider: self.name_of(self.listed as int),
                            tool: tools[k as int].name,
                        },
                    ),
                ),
            ),
            None => AgentView {
                listed: self.listed + 1,
                catalog: self.catalog + declarations(tools),
                dispatch: route_all(self.dispatch, declarations(tools), self.listed as usize),
                ..self
            }.list_next(),
        }
    }

    /// One step of the start-up: what `event` makes of the agent, and what
    /// has to be done next. An event that the agent is not waiting for
    /// changes nothing.
    pub open spec fn step(self, event: InitEventView) -> (AgentView, Progress) {
        match (self.stage, event) {
            (Stage::Created, InitEventView::Start) => self.connect_next(),
            (Stage::Connecting, InitEventView::Connected) => self.on_connected(),
            (Stage::Connecting, InitEventView::ConnectFailed(cause)) => (
                self.failed(),
                Err(
                    InitErrorView::Connect {
                        provider: self.name_of(self.providers.len() as int),
                        cause,
                    },
                ),
            ),
            (Stage::Listing, InitEventView::Listed(tools)) => self.on_listed(tools),
            (Stage::Listing, InitEventView::ListFailed(cause)) => (
                self.failed(),
                Err(
                    InitErrorView::Catalog(
                        CatalogErrorView::ListFailed {
                            provider: self.name_of(self.listed as int),
                            cause,
                        },
                    ),
                ),
            ),
            _ => (self, Err(InitErrorView::OutOfTurn)),
        }
    }

    /// What holds of the registry and the routing table at every stage: the
    /// providers are those of the configuration, in its order, and every tool
    /// is routed to a provider that has listed its tools.
    pub open spec fn registry_ok(self) -> bool {
        &&& self.providers.len() <= self.expected()
        &&& self.listed <= self.providers.len()
        &&& forall|i: int|
            0 <= i < self.providers.len() ==> (#[trigger] self.providers[i]).name == self.name_of(i)
        &&& routes_below(self.dispatch, self.listed)
        &&& routes_cover(self.dispatch, self.catalog)
        &&& self.config.wf()
        &&& self.expected() <= usize::MAX
    }

    /// What holds of an agent at every stage.
    pub open spec fn wf(self) -> bool {
        &&& self.registry_ok()
        &&& match self.stage {
            Stage::Created => self == AgentView::created(self.config, self.max_rounds),
            Stage::Connecting => {
                &&& self.providers.len() < self.expected()
                &&& self.listed == 0
                &&& self.llm is None
                &&& launch_for(
                    self.name_of(self.providers.len() as int),
                    self.config.mcp_servers[self.providers.len() as int].1,
                ) is Ok
            },
            Stage::Listing => {
                &&& self.providers.len() == self.expected()
                &&& self.listed < self.expected()
                &&& self.llm is None
            },
            Stage::Ready => {
                &&& self.providers.len() == self.expected()
                &&& self.listed == self.expected()
                &&& self.llm == Some(model_settings(self.config, self.catalog))
            },
            Stage::Failed => self == self.failed(),
        }
    }
}

/// A step of the start-up keeps what holds of an agent at every stage, and
/// it leaves either everything or nothing: after an error nothing of what
/// was built stays, an event out of turn changes nothing, and the agent is
/// ready exactly when the step says so, with every provider connected and
/// listed.
pub proof fn step_leaves_all_or_nothing(agent: AgentView, event: InitEventView)
    requires
        agent.wf(),
    ensures
        ({
            let (next, progress) = agent.step(event);
            &&& next.wf()
            &&& progress == Err::<InitStepView, InitErrorView>(InitErrorView::OutOfTurn) ==> next
                == agent
            &&& progress is Err && progress != Err::<InitStepView, InitErrorView>(
                InitErrorView::OutOfTurn,
            ) ==> next == agent.failed()
            &&& progress is Ok ==> (next.stage == Stage::Ready <==> progress == Ok::<
                InitStepView,
                InitErrorView,
            >(InitStepView::Ready))
            &&& progress is Ok ==> next.stage != Stage::Failed && next.stage != Stage::Created
            &&& next.stage == Stage::Ready ==> next.providers.len() == next.expected()
                && next.listed == next.expected()
        }),
{
    let (next, progress) = agent.step(event);
    match (agent.stage, event) {
        (Stage::Created, InitEventView::Start) => {
            lemma_connect_next(agent);
        },
        (Stage::Connecting, InitEventView::Connected) => {
            let i: int = agent.providers.len() as int;
            let joined = AgentView {
                providers: agent.providers.push(
                    ProviderView {
                        name: agent.name_of(i),
                        transport: transport_of(agent.config.mcp_servers[i].1),
                    },
                ),
                ..agent
            };
            lemma_connect_next(joined);
        },
        (Stage::Listing, InitEventView::Listed(tools)) => {
            if first_undescribed(tools) is None {
                let provider: usize = agent.listed as usize;
                lemma_route_all_below(agent.dispatch, declarations(tools), provider);
                lemma_route_all_cover(
                    agent.dispatch,
                    agent.catalog,
                    declarations(tools),
                    provider,
                );
            }
        },
        _ => {},
    }
}

/// A start-up that has ended takes nothing more in: once the agent is ready
/// or has failed, every event is out of turn and changes nothing.
pub proof fn ended_startup_takes_nothing_in(agent: AgentView, event: InitEventView)
    requires
        agent.stage == Stage::Ready || agent.stage == Stage::Failed,
    ensures
        agent.step(event) == (agent, Err::<InitStepView, InitErrorView>(InitErrorView::OutOfTurn)),
{
}

/// The registry maps names to providers: no two providers of an agent have
/// the same name.
pub proof fn registry_names_are_distinct(agent: AgentView)
    requires
        agent.wf(),
    ensures
        forall|i: int, j: int|
            0 <= i < j < agent.providers.len() ==> (#[trigger] agent.providers[i]).name != (
            #[trigger] agent.providers[j]).name,
{
}

/// Going on to the next provider that is not connected keeps what holds of
/// the registry, where no provider has listed its tools yet.
proof fn lemma_connect_next(agent: AgentView)
    requires
        agent.registry_ok(),
        agent.listed == 0,
        agent.llm is None,
    ensures
        agent.connect_next().0.wf(),
        agent.connect_next().1 is Err ==> agent.connect_next().0 == agent.failed(),
{
}

/// The events of a start-up up to the connection of the first `k` providers.
pub open spec fn connecting(k: nat) -> Seq<InitEventView>
    decreases k,
{
    if k == 0 {
        seq![InitEventView::Start]
    } else {
        connecting((k - 1) as nat).push(InitEventView::Connected)
    }
}

/// The events of a start-up in which every provider is connected and the
/// first `j` providers have listed their tools, `catalogs` being what the
/// providers list.
pub open spec fn listing(catalogs: Seq<Seq<ToolDescriptorView>>, j: nat) -> Seq<InitEventView>
    decreases j,
{
    if j == 0 {
        connecting(catalogs.len())
    } else {
        listing(catalogs, (j - 1) as nat).push(InitEventView::Listed(catalogs[j - 1]))
    }
}

/// The events of a start-up without failure: it begins, every provider is
/// connected, and every provider lists its tools.
pub open spec fn smooth_startup(catalogs: Seq<Seq<ToolDescriptorView>>) -> Seq<InitEventView> {
    listing(catalogs, catalogs.len())
}

/// The agent after the events `events`, in order.
pub open spec fn after(agent: AgentView, events: Seq<InitEventView>) -> AgentView
    decreases events.len(),
{
    if events.len() == 0 {
        agent
    } else {
        after(agent, events.drop_last()).step(events.last()).0
    }
}

/// The declarations of the tools of all the catalogs, in order.
pub open spec fn all_declarations(catalogs: Seq<Seq<ToolDescriptorView>>) -> Seq<ToolDeclView>
    decreases catalogs.len(),
{
    if catalogs.len() == 0 {
        Seq::empty()
    } else {
        all_declarations(catalogs.drop_last()) + declarations(catalogs.last())
    }
}

/// The routing table that the catalogs make, each provider's tools routed
/// to its index, the later providers overwriting the earlier ones.
pub open spec fn routes_of(catalogs: Seq<Seq<ToolDescriptorView>>) -> Map<Seq<char>, usize>
    decreases catalogs.len(),
{
    if catalogs.len() == 0 {
        Map::empty()
    } else {
        route_all(
            routes_of(catalogs.drop_last()),
            declarations(catalogs.last()),
            (catalogs.len() - 1) as usize,
        )
    }
}

/// The provider with the index `i` lists the tool `tool`.
pub open spec fn offers(catalogs: Seq<Seq<ToolDescriptorView>>, i: int, tool: Seq<char>) -> bool {
    0 <= i < catalogs.len() && exists|j: int|
        0 <= j < catalogs[i].len() && (#[trigger] catalogs[i][j]).name == tool
}

/// Every tool of every catalog has a description.
pub open spec fn all_described(catalogs: Seq<Seq<ToolDescriptorView>>) -> bool {
    forall|i: int| 0 <= i < catalogs.len() ==> first_undescribed(#[trigger] catalogs[i]) is None
}

/// The declarations of a catalog whose tools are all described name the
/// tools of the catalog.
proof fn lemma_declarations_names(tools: Seq<ToolDescriptorView>, tool: Seq<char>)
    requires
        first_undescribed(tools) is None,
    ensures
        declares(declarations(tools), tool) <==> exists|j: int|
            0 <= j < tools.len() && (#[trigger] tools[j]).name == tool,
{
    lemma_first_undescribed(tools);
    let decls = declarations(tools);
    if declares(decls, tool) {
        let k = choose|k: int| 0 <= k < decls.len() && (#[trigger] decls[k]).name == tool;
        assert(tools[k].name == tool);
    }
    if exists|j: int| 0 <= j < tools.len() && (#[trigger] tools[j]).name == tool {
        let j = choose|j: int| 0 <= j < tools.len() && (#[trigger] tools[j]).name == tool;
        assert(decls[j].name == tool);
    }
}

/// The routing table that the catalogs make holds exactly the tools that
/// some provider lists, and routes each of them to the last provider that
/// lists it.
pub proof fn routes_hold_every_tool(catalogs: Seq<Seq<ToolDescriptorView>>, tool: Seq<char>)
    requires
        all_described(catalogs),
        catalogs.len() <= usize::MAX,
    ensures
        routes_of(catalogs).dom().contains(tool) <==> exists|i: int|
            #[trigger] offers(catalogs, i, tool),
        routes_of(catalogs).dom().contains(tool) ==> offers(
            catalogs,
            routes_of(catalogs)[tool] as int,
            tool,
        ) && forall|i: int| routes_of(catalogs)[tool] < i ==> !#[trigger] offers(catalogs, i, tool),
    decreases catalogs.len(),
{
    if catalogs.len() > 0 {
        let front = catalogs.drop_last();
        let last: usize = (catalogs.len() - 1) as usize;
        let decls = declarations(catalogs.last());
        assert(all_described(front));
        routes_hold_every_tool(front, tool);
        lemma_route_all_domain(routes_of(front), decls, last, tool);
        lemma_route_all_entry(routes_of(front), decls, last, tool);
        lemma_declarations_names(catalogs.last(), tool);
        assert(declares(decls, tool) <==> offers(catalogs, last as int, tool));
        assert forall|i: int| 0 <= i < front.len() implies (offers(front, i, tool) <==> offers(
            catalogs,
            i,
            tool,
        )) by {
            assert(front[i] == catalogs[i]);
        }
    }
}

/// The providers of the first `k` entries of the configuration.
pub open spec fn providers_of(config: ConfigView, k: nat) -> Seq<ProviderView> {
    Seq::new(
        k,
        |i: int|
            ProviderView {
                name: config.mcp_servers[i].0,
                transport: transport_of(config.mcp_servers[i].1),
            },
    )
}

/// Every entry of the configuration has a launch.
pub open spec fn all_launchable(config: ConfigView) -> bool {
    forall|i: int|
        0 <= i < config.mcp_servers.len() ==> launch_for(
            (#[trigger] config.mcp_servers[i]).0,
            config.mcp_servers[i].1,
        ) is Ok
}

/// After the start and the connection of `k` providers, the registry holds
/// those providers, and the next provider is being connected, or, where all
/// are connected, the first is listing its tools.
proof fn lemma_after_connecting(config: ConfigView, max_rounds: usize, k: nat)
    requires
        all_launchable(config),
        0 < config.mcp_servers.len() <= usize::MAX,
        k <= config.mcp_servers.len(),
    ensures
        after(AgentView::created(config, max_rounds), connecting(k)) == (AgentView {
            stage: if k < config.mcp_servers.len() {
                Stage::Connecting
            } else {
                Stage::Listing
            },
            providers: providers_of(config, k),
            ..AgentView::created(config, max_rounds)
        }),
    decreases k,
{
    let start = AgentView::created(config, max_rounds);
    if k == 0 {
        assert(after(start, connecting(k).drop_last()) == start);
        assert(providers_of(config, 0) =~= start.providers);
    } else {
        let before = connecting((k - 1) as nat);
        assert(connecting(k).drop_last() =~= before);
        lemma_after_connecting(config, max_rounds, (k - 1) as nat);
        assert(after(start, before).providers.push(
            ProviderView {
                name: config.mcp_servers[k - 1].0,
                transport: transport_of(config.mcp_servers[k - 1].1),
            },
        ) =~= providers_of(config, k));
    }
}

/// After every provider is connected and the first `j` providers have listed
/// their tools, the catalog and the routing table hold the tools of those
/// providers, and the next provider is listing its tools, or, where all have
/// listed them, the agent is ready.
proof fn lemma_after_listing(
    config: ConfigView,
    max_rounds: usize,
    catalogs: Seq<Seq<ToolDescriptorView>>,
    j: nat,
)
    requires
        all_launchable(config),
        all_described(catalogs),
        0 < config.mcp_servers.len() <= usize::MAX,
        catalogs.len() == config.mcp_servers.len(),
        j <= catalogs.len(),
    ensures
        after(AgentView::created(config, max_rounds), listing(catalogs, j)) == (AgentView {
            config,
            stage: if j < catalogs.len() {
                Stage::Listing
            } else {
                Stage::Ready
            },
            providers: providers_of(config, catalogs.len()),
            listed: j,
            catalog: all_declarations(catalogs.take(j as int)),
            dispatch: routes_of(catalogs.take(j as int)),
            llm: if j < catalogs.len() {
                None
            } else {
                Some(model_settings(config, all_declarations(catalogs.take(j as int))))
            },
            max_rounds,
        }),
    decreases j,
{
    if j == 0 {
        lemma_after_connecting(config, max_rounds, catalogs.len());
    } else {
        assert(listing(catalogs, j).drop_last() =~= listing(catalogs, (j - 1) as nat));
        lemma_after_listing(config, max_rounds, catalogs, (j - 1) as nat);
        assert(catalogs.take(j as int).drop_last() =~= catalogs.take(j - 1));
    }
}

/// A start-up without failure makes the agent ready, with every provider
/// of the configuration in its registry, in order; its catalog holds the
/// declarations of all the tools that the providers list, and its routing
/// table holds exactly the tools that some provider lists, each routed to
/// the last provider that lists it.
pub proof fn smooth_startup_connects_everything(
    config: ConfigView,
    max_rounds: usize,
    catalogs: Seq<Seq<ToolDescriptorView>>,
)
    requires
        all_launchable(config),
        all_described(catalogs),
        config.mcp_servers.len() <= usize::MAX,
        catalogs.len() == config.mcp_servers.len(),
    ensures
        ({
            let ready = after(AgentView::created(config, max_rounds), smooth_startup(catalogs));
            &&& ready.stage == Stage::Ready
            &&& ready.providers == providers_of(config, config.mcp_servers.len())
            &&& ready.listed == config.mcp_servers.len()
            &&& ready.catalog == all_declarations(catalogs)
            &&& ready.dispatch == routes_of(catalogs)
            &&& ready.llm == Some(model_settings(config, ready.catalog))
            &&& forall|tool: Seq<char>| #[trigger]
                ready.dispatch.dom().contains(tool) <==> exists|i: int| #[trigger]
                    offers(catalogs, i, tool)
            &&& forall|tool: Seq<char>| #[trigger]
                ready.dispatch.dom().contains(tool) ==> offers(
                    catalogs,
                    ready.dispatch[tool] as int,
                    tool,
                ) && forall|i: int|
                    ready.dispatch[tool] < i ==> !#[trigger] offers(catalogs, i, tool)
        }),
{
    let start = AgentView::created(config, max_rounds);
    if catalogs.len() == 0 {
        assert(after(start, smooth_startup(catalogs).drop_last()) == start);
    } else {
        lemma_after_listing(config, max_rounds, catalogs, catalogs.len());
        assert(catalogs.take(catalogs.len() as int) =~= catalogs);
    }
    assert forall|tool: Seq<char>| #[trigger]
        routes_of(catalogs).dom().contains(tool) implies offers(
        catalogs,
        routes_of(catalogs)[tool] as int,
        tool,
    ) && forall|i: int| routes_of(catalogs)[tool] < i ==> !#[trigger] offers(catalogs, i, tool) by {
        routes_hold_every_tool(catalogs, tool);
    }
    assert forall|tool: Seq<char>| #[trigger]
        routes_of(catalogs).dom().contains(tool) <==> exists|i: int| #[trigger]
            offers(catalogs, i, tool) by {
        routes_hold_every_tool(catalogs, tool);
    }
}

} // verus!
