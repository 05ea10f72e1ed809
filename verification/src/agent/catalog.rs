//! The tools that the providers report, and their declarations to the model.

use crate::llm::openai::{ToolDecl, ToolDeclView};
use vstd::prelude::*;

verus! {

/// A tool as a provider reports it.
#[derive(Debug, PartialEq, Eq)]
pub struct ToolDescriptor {
    pub name: String,
    pub description: Option<String>,
    /// The JSON schema of the arguments, as JSON text.
    pub input_schema: String,
}

/// The view of a [`ToolDescriptor`].
pub struct ToolDescriptorView {
    pub name: Seq<char>,
    pub description: Option<Seq<char>>,
    pub input_schema: Seq<char>,
}

impl View for ToolDescriptor {
    type V = ToolDescriptorView;

    open spec fn view(&self) -> ToolDescriptorView {
        ToolDescriptorView {
            name: self.name@,
            description: self.description.deep_view(),
            input_schema: self.input_schema@,
        }
    }
}

impl DeepView for ToolDescriptor {
    type V = ToolDescriptorView;

    open spec fn deep_view(&self) -> ToolDescriptorView {
        self@
    }
}

impl ToolDescriptorView {
    /// The declaration of the tool to the model: the name and the schema as
    /// they are, and the description, which must be there.
    pub open spec fn declaration(self) -> Option<ToolDeclView> {
        match self.description {
            Some(description) => Some(
                ToolDeclView { name: self.name, description, parameters: self.input_schema },
            ),
            None => None,
        }
    }
}

/// The place of the first tool without a description, if there is one.
pub open spec fn first_undescribed(tools: Seq<ToolDescriptorView>) -> Option<nat>
    decreases tools.len(),
{
    if tools.len() == 0 {
        None
    } else {
        match first_undescribed(tools.drop_last()) {
            Some(k) => Some(k),
            None => if tools.last().description is None {
                Some((tools.len() - 1) as nat)
            } else {
                None
            },
        }
    }
}

/// The declarations of the tools, in the order of the tools.
pub open spec fn declarations(tools: Seq<ToolDescriptorView>) -> Seq<ToolDeclView> {
    Seq::new(tools.len(), |i: int| tools[i].declaration().unwrap())
}

/// The first tool without a description comes before every other such tool,
/// and where there is none, every tool has a description.
pub(crate) proof fn lemma_first_undescribed(tools: Seq<ToolDescriptorView>)
    ensures
        first_undescribed(tools) matches Some(k) ==> k < tools.len() && tools[k as int].description
            is None && forall|j: int| 0 <= j < k ==> (#[trigger] tools[j]).description is Some,
        first_undescribed(tools) is None ==> forall|j: int|
            0 <= j < tools.len() ==> (#[trigger] tools[j]).description is Some,
    decreases tools.len(),
{
    if tools.len() > 0 {
        let front = tools.drop_last();
        lemma_first_undescribed(front);
        match first_undescribed(front) {
            Some(k) => {
                assert forall|j: int| 0 <= j < k implies (#[trigger] tools[j]).description is Some by {
                    assert(front[j] == tools[j]);
                }
            },
            None => {
                assert forall|j: int| 0 <= j < tools.len() - 1 implies (#[trigger] tools[j]).description is Some by {
                    assert(front[j] == tools[j]);
                }
            },
        }
    }
}

impl ToolDescriptor {
    /// Declares the tool to the model, if it has a description.
    pub fn declare(&self) -> (r: Option<ToolDecl>)
        ensures
            r.deep_view() == self@.declaration(),
    {
        match &self.description {
            Some(description) => Some(
                ToolDecl {
                    name: self.name.clone(),
                    description: description.clone(),
                    parameters: self.input_schema.clone(),
                },
            ),
            None => None,
        }
    }
}

/// Declares the tools to the model, in order. Fails at the first tool without
/// a description, with its place.
pub fn declare_all(tools: &Vec<ToolDescriptor>) -> (r: Result<Vec<ToolDecl>, usize>)
    ensures
        r matches Ok(decls) ==> first_undescribed(tools.deep_view()) is None && decls.deep_view()
            == declarations(tools.deep_view()),
        r matches Err(k) ==> first_undescribed(tools.deep_view()) == Some(k as nat),
{
    let mut decls: Vec<ToolDecl> = Vec::new();
    let mut i: usize = 0;
    while i < tools.len()
        invariant
            i <= tools.len(),
            decls.len() == i,
            first_undescribed(tools.deep_view().take(i as int)) is None,
            forall|j: int|
                0 <= j < i ==> Some(#[trigger] decls[j]@) == tools[j]@.declaration(),
        decreases tools.len() - i,
    {
        assert(tools.deep_view().take(i + 1).drop_last() =~= tools.deep_view().take(i as int));
        match tools[i].declare() {
            Some(decl) => {
                decls.push(decl);
            },
            None => {
                proof {
                    lemma_first_undescribed_extends(tools.deep_view(), i as nat);
                }
                return Err(i);
            },
        }
        i = i + 1;
    }
    assert(tools.deep_view().take(tools.len() as int) =~= tools.deep_view());
    Ok(decls)
}

/// A tool without a description that is found in the first part of a list is
/// also the first such tool of the whole list.
proof fn lemma_first_undescribed_extends(tools: Seq<ToolDescriptorView>, k: nat)
    requires
        k < tools.len(),
        first_undescribed(tools.take(k as int + 1)) == Some(k),
    ensures
        first_undescribed(tools) == Some(k),
    decreases tools.len(),
{
    if tools.len() == k + 1 {
        assert(tools.take(k as int + 1) =~= tools);
    } else {
        let front = tools.drop_last();
        assert(front.take(k as int + 1) =~= tools.take(k as int + 1));
        lemma_first_undescribed_extends(front, k);
    }
}

/// Why the catalog of a provider could not be taken in.
#[derive(Debug, PartialEq, Eq)]
pub enum CatalogError {
    /// The provider failed to list its tools.
    ListFailed { provider: String, cause: String },
    /// The provider reported a tool without a description.
    MissingDescription { provider: String, tool: String },
}

/// The view of a [`CatalogError`].
pub enum CatalogErrorView {
    ListFailed { provider: Seq<char>, cause: Seq<char> },
    MissingDescription { provider: Seq<char>, tool: Seq<char> },
}

impl View for CatalogError {
    type V = CatalogErrorView;

    open spec fn view(&self) -> CatalogErrorView {
        match self {
            CatalogError::ListFailed { provider, cause } => CatalogErrorView::ListFailed {
                provider: provider@,
                cause: cause@,
            },
            CatalogError::MissingDescription { provider, tool } => {
                CatalogErrorView::MissingDescription { provider: provider@, tool: tool@ }
            },
        }
    }
}

impl CatalogErrorView {
    /// The text that reports the error.
    pub open spec fn message(self) -> Seq<char> {
        match self {
            CatalogErrorView::ListFailed { provider, cause } => "mcp ["@ + provider
                + "] error listing tools: "@ + cause,
            CatalogErrorView::MissingDescription { provider, tool } => "mcp ["@ + provider
                + "] tool ["@ + tool + "] has no description"@,
        }
    }
}

impl CatalogError {
    /// The text that reports the error.
    pub fn message(&self) -> (r: String)
        ensures
            r@ == self@.message(),
    {
        match self {
            CatalogError::ListFailed { provider, cause } => {
                String::from_str("mcp [").concat(provider.as_str()).concat(
                    "] error listing tools: ",
                ).concat(cause.as_str())
            },
            CatalogError::MissingDescription { provider, tool } => {
                String::from_str("mcp [").concat(provider.as_str()).concat("] tool [").concat(
                    tool.as_str(),
                ).concat("] has no description")
            },
        }
    }
}

} // verus!
