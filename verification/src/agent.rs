//! The agent: its configuration, its registry of providers, its catalog of
//! tools, and the steps of its start-up and of its conversations.

pub mod catalog;
pub mod config;
pub mod dispatch;
pub mod engine;
pub mod scripted;
pub mod startup;

pub use catalog::{CatalogError, ToolDescriptor};
pub use config::{Config, ConfigError, LLMConfig, Launch, McpConfig, Transport};
pub use dispatch::DispatchTable;
pub use engine::{ConversationEngine, Phase, SendError, SendEvent, SendStep, ToolRequest};
pub use startup::{InitError, InitEvent, InitStep, Provider, Stage};

use crate::agent::catalog::{declare_all, lemma_first_undescribed};
use crate::agent::config::plan_launch;
use crate::agent::engine::requested_call_is_routed;
use crate::agent::startup::{
    lemma_route_all_below, lemma_route_all_cover, route_all, AgentView,
};
use crate::llm::openai::{
    clone_tools, with_api_key, with_base_url, with_model, with_tools, OpenAi, ToolDecl,
};
use crate::text::result_view;
use vstd::prelude::*;

verus! {

/// An agent: a configuration, the providers that are connected, the tools
/// that they offer, and the settings of the model that may call them.
///
/// Its start-up and its conversations are driven from outside, step by step:
/// the agent is told what has happened and says what has to be done next.
#[derive(Debug, PartialEq, Eq)]
pub struct Agent {
    config: Config,
    stage: Stage,
    providers: Vec<Provider>,
    listed: usize,
    catalog: Vec<ToolDecl>,
    dispatch: DispatchTable,
    llm: Option<OpenAi>,
    max_rounds: usize,
}

impl View for Agent {
    type V = AgentView;

    closed spec fn view(&self) -> AgentView {
        AgentView {
            config: self.config@,
            stage: self.stage,
            providers: self.providers.deep_view(),
            listed: self.listed as nat,
            catalog: self.catalog.deep_view(),
            dispatch: self.dispatch@,
            llm: self.llm.deep_view(),
            max_rounds: self.max_rounds,
        }
    }
}

impl Agent {
    /// What holds of an agent at every stage.
    pub closed spec fn wf(&self) -> bool {
        &&& self@.wf()
        &&& self.dispatch.wf()
    }

    /// What holds of the registry and the routing table at every stage.
    spec fn registry_ok(&self) -> bool {
        &&& self@.registry_ok()
        &&& self.dispatch.wf()
    }

    /// What holds of an agent holds of its view.
    pub proof fn lemma_wf(&self)
        requires
            self.wf(),
        ensures
            self@.wf(),
    {
    }

    /// An agent for `config`, before its start-up. A conversation of it may
    /// take any number of rounds of tool calls. The providers of `config` must
    /// be named apart, as [`Config::is_well_formed`] tells.
    pub fn new_with_config(config: Config) -> (r: Agent)
        requires
            config.wf(),
        ensures
            r.wf(),
            r@ == AgentView::created(config@, usize::MAX),
    {
        assert(config.mcp_servers@.len() == config.mcp_servers.len());
        let r = Agent {
            config,
            stage: Stage::Created,
            providers: Vec::new(),
            listed: 0,
            catalog: Vec::new(),
            dispatch: DispatchTable::new(),
            llm: None,
            max_rounds: usize::MAX,
        };
        assert(r@ =~= AgentView::created(config@, usize::MAX)) by {
            assert(r.providers.deep_view() =~= Seq::empty());
            assert(r.catalog.deep_view() =~= Seq::empty());
        }
        r
    }

    /// Sets the number of rounds of tool calls that a conversation may take.
    pub fn set_max_rounds(&mut self, max_rounds: usize)
        requires
            old(self).wf(),
        ensures
            final(self).wf(),
            final(self)@ == (AgentView { max_rounds, ..old(self)@ }),
    {
        self.max_rounds = max_rounds;
    }

    /// Gives up the start-up: nothing of what was built stays.
    fn fail(&mut self)
        requires
            old(self)@.config.wf(),
        ensures
            final(self).wf(),
            final(self)@ == old(self)@.failed(),
    {
        assert(self.config.mcp_servers@.len() == self.config.mcp_servers.len());
        self.stage = Stage::Failed;
        self.providers = Vec::new();
        self.listed = 0;
        self.catalog = Vec::new();
        self.dispatch = DispatchTable::new();
        self.llm = None;
        assert(self@ =~= old(self)@.failed()) by {
            assert(self.providers.deep_view() =~= Seq::empty());
            assert(self.catalog.deep_view() =~= Seq::empty());
        }
    }

    /// Makes the settings of the model from the configuration and the
    /// catalog; with them the agent is ready.
    fn initialize_llm(&mut self) -> (r: Result<InitStep, InitError>)
        requires
            old(self).registry_ok(),
            old(self)@.providers.len() == old(self)@.expected(),
            old(self)@.listed == old(self)@.expected(),
        ensures
            final(self).wf(),
            (final(self)@, result_view(r)) == old(self)@.ready(),
    {
        let mut llm = OpenAi::new();
        llm.with_option(with_api_key(self.config.llm.api_key.as_str()));
        llm.with_option(with_model(self.config.llm.model.as_str()));
        if !self.config.llm.base_url.as_str().is_empty() {
            llm.with_option(with_base_url(self.config.llm.base_url.as_str()));
        }
        let tools = clone_tools(&self.catalog);
        if tools.len() > 0 {
            llm.with_option(with_tools(tools));
        }
        self.llm = Some(llm);
        self.stage = Stage::Ready;
        Ok(InitStep::Ready)
    }

    /// Goes on to the next provider that has not listed its tools.
    fn list_next(&mut self) -> (r: Result<InitStep, InitError>)
        requires
            old(self).registry_ok(),
            old(self)@.providers.len() == old(self)@.expected(),
            old(self)@.llm is None,
        ensures
            final(self).wf(),
            (final(self)@, result_view(r)) == old(self)@.list_next(),
    {
        if self.listed >= self.config.mcp_servers.len() {
            self.initialize_llm()
        } else {
            self.stage = Stage::Listing;
            Ok(InitStep::ListTools { provider: self.listed })
        }
    }

    /// Goes on to the next provider that is not connected: checks its entry
    /// and says how to reach it.
    fn initialize_mcp(&mut self) -> (r: Result<InitStep, InitError>)
        requires
            old(self).registry_ok(),
            old(self)@.listed == 0,
            old(self)@.llm is None,
        ensures
            final(self).wf(),
            (final(self)@, result_view(r)) == old(self)@.connect_next(),
    {
        let i: usize = self.providers.len();
        if i >= self.config.mcp_servers.len() {
            return self.list_next();
        }
        let planned = plan_launch(
            self.config.mcp_servers[i].0.as_str(),
            &self.config.mcp_servers[i].1,
        );
        match planned {
            Ok(launch) => {
                self.stage = Stage::Connecting;
                Ok(InitStep::Connect { provider: i, launch })
            },
            Err(e) => {
                self.fail();
                Err(InitError::Config(e))
            },
        }
    }

    /// Takes the provider that was to be connected into the registry.
    fn connected(&mut self) -> (r: Result<InitStep, InitError>)
        requires
            old(self).wf(),
            old(self)@.stage == Stage::Connecting,
        ensures
            final(self).wf(),
            (final(self)@, result_view(r)) == old(self)@.on_connected(),
    {
        let i: usize = self.providers.len();
        let provider = Provider {
            name: self.config.mcp_servers[i].0.clone(),
            transport: self.config.mcp_servers[i].1.transport_kind(),
        };
        self.providers.push(provider);
        assert(self.providers.deep_view() =~= old(self).providers.deep_view().push(provider@));
        self.initialize_mcp()
    }

    /// Takes the tools that a provider has listed into the catalog and the
    /// routing table.
    fn list_tools(&mut self, tools: Vec<ToolDescriptor>) -> (r: Result<InitStep, InitError>)
        requires
            old(self).wf(),
            old(self)@.stage == Stage::Listing,
        ensures
            final(self).wf(),
            (final(self)@, result_view(r)) == old(self)@.on_listed(tools.deep_view()),
    {
        let provider: usize = self.listed;
        match declare_all(&tools) {
            Err(k) => {
                proof {
                    lemma_first_undescribed(tools.deep_view());
                }
                let e = CatalogError::MissingDescription {
                    provider: self.config.mcp_servers[provider].0.clone(),
                    tool: tools[k].name.clone(),
                };
                self.fail();
                Err(InitError::Catalog(e))
            },
            Ok(decls) => {
                let mut decls = decls;
                let ghost added = decls.deep_view();
                let mut i: usize = 0;
                while i < decls.len()
                    invariant
                        i <= decls.len(),
                        decls.deep_view() == added,
                        self.dispatch.wf(),
                        self.dispatch@ == route_all(
                            old(self).dispatch@,
                            added.take(i as int),
                            provider,
                        ),
                        self.config == old(self).config,
                        self.stage == old(self).stage,
                        self.providers == old(self).providers,
                        self.listed == old(self).listed,
                        self.catalog == old(self).catalog,
                        self.llm == old(self).llm,
                        self.max_rounds == old(self).max_rounds,
                    decreases decls.len() - i,
                {
                    self.dispatch.insert(decls[i].name.clone(), provider);
                    assert(added.take(i + 1).drop_last() =~= added.take(i as int));
                    i = i + 1;
                }
                proof {
                    assert(added.take(decls.len() as int) =~= added);
                    lemma_route_all_below(old(self).dispatch@, added, provider);
                    lemma_route_all_cover(
                        old(self).dispatch@,
                        old(self).catalog.deep_view(),
                        added,
                        provider,
                    );
                }
                self.catalog.append(&mut decls);
                assert(self.catalog.deep_view() =~= old(self).catalog.deep_view() + added);
                self.listed = self.listed + 1;
                self.list_next()
            },
        }
    }

    /// One step of the start-up: takes `event` in and says what has to be
    /// done next. After an error nothing of what was built stays, and the
    /// agent is ready only when every provider is connected and has listed
    /// its tools.
    pub fn initialize(&mut self, event: InitEvent) -> (r: Result<InitStep, InitError>)
        requires
            old(self).wf(),
        ensures
            final(self).wf(),
            (final(self)@, result_view(r)) == old(self)@.step(event@),
    {
        match self.stage {
            Stage::Created => match event {
                InitEvent::Start => self.initialize_mcp(),
                _ => Err(InitError::OutOfTurn),
            },
            Stage::Connecting => match event {
                InitEvent::Connected => self.connected(),
                InitEvent::ConnectFailed(cause) => {
                    let e = InitError::Connect {
                        provider: self.config.mcp_servers[self.providers.len()].0.clone(),
                        cause,
                    };
                    self.fail();
                    Err(e)
                },
                _ => Err(InitError::OutOfTurn),
            },
            Stage::Listing => match event {
                InitEvent::Listed(tools) => self.list_tools(tools),
                InitEvent::ListFailed(cause) => {
                    let e = CatalogError::ListFailed {
                        provider: self.config.mcp_servers[self.listed].0.clone(),
                        cause,
                    };
                    self.fail();
                    Err(InitError::Catalog(e))
                },
                _ => Err(InitError::OutOfTurn),
            },
            _ => Err(InitError::OutOfTurn),
        }
    }

    /// The configuration.
    pub fn config(&self) -> (r: &Config)
        ensures
            r@ == self@.config,
    {
        &self.config
    }

    /// How far the start-up has come.
    pub fn stage(&self) -> (r: Stage)
        ensures
            r == self@.stage,
    {
        self.stage
    }

    /// Whether the start-up is done and conversations may be held.
    pub fn is_ready(&self) -> (r: bool)
        ensures
            r == (self@.stage == Stage::Ready),
    {
        match self.stage {
            Stage::Ready => true,
            _ => false,
        }
    }

    /// The providers that are connected, in the order of the configuration.
    pub fn providers(&self) -> (r: &Vec<Provider>)
        ensures
            r.deep_view() == self@.providers,
    {
        &self.providers
    }

    /// The declarations of the tools that were taken in, in order.
    pub fn tools(&self) -> (r: &Vec<ToolDecl>)
        ensures
            r.deep_view() == self@.catalog,
    {
        &self.catalog
    }

    /// The settings of the model, once the agent is ready.
    pub fn llm(&self) -> (r: Option<&OpenAi>)
        ensures
            r.deep_view() == self@.llm,
    {
        self.llm.as_ref()
    }

    /// The number of rounds of tool calls that a conversation may take.
    pub fn max_rounds(&self) -> (r: usize)
        ensures
            r == self@.max_rounds,
    {
        self.max_rounds
    }

    /// The index of the provider that answers for `tool`, if there is one:
    /// an index into the registry of providers. The answer depends on the
    /// routing table and the name alone.
    pub fn lookup(&self, tool: &str) -> (r: Option<usize>)
        requires
            self.wf(),
        ensures
            r == (if self@.dispatch.dom().contains(tool@) {
                Some(self@.dispatch[tool@])
            } else {
                None
            }),
            r matches Some(provider) ==> provider < self@.providers.len(),
    {
        self.dispatch.lookup(tool)
    }

    /// One step of a conversation: takes `event` in and says what has to be
    /// done next. A call that it asks for goes to a provider of the
    /// registry.
    pub fn send(&self, engine: &mut ConversationEngine, event: SendEvent) -> (r: Result<
        SendStep,
        SendError,
    >)
        requires
            self.wf(),
            self@.stage == Stage::Ready,
            old(engine)@.wf(),
        ensures
            final(engine)@.wf(),
            (final(engine)@, result_view(r)) == old(engine)@.step(
                self@.dispatch,
                self@.max_rounds as nat,
                event@,
            ),
            r matches Ok(SendStep::CallTool(request)) ==> request.provider < self@.providers.len(),
    {
        proof {
            requested_call_is_routed(engine@, self@.dispatch, self.max_rounds as nat, event@);
        }
        engine.send(&self.dispatch, self.max_rounds, event)
    }
}

} // verus!
