//! The routing table: which provider answers for which tool.

use vstd::prelude::*;

verus! {

/// One entry of the table: the tool `tool` is answered by the provider with
/// the index `provider`.
#[derive(Debug, PartialEq, Eq)]
struct Route {
    tool: String,
    provider: usize,
}

/// The table that the routes `routes` make, the later ones overwriting the
/// earlier ones.
spec fn table_of(routes: Seq<Route>) -> Map<Seq<char>, usize>
    decreases routes.len(),
{
    if routes.len() == 0 {
        Map::empty()
    } else {
        table_of(routes.drop_last()).insert(routes.last().tool@, routes.last().provider)
    }
}

/// No two of the routes are for the same tool.
spec fn distinct_tools(routes: Seq<Route>) -> bool {
    forall|i: int, j: int|
        0 <= i < j < routes.len() ==> (#[trigger] routes[i]).tool@ != (#[trigger] routes[j]).tool@
}

/// A tool is in the table exactly when one of the routes is for it.
proof fn lemma_table_domain(routes: Seq<Route>, tool: Seq<char>)
    ensures
        table_of(routes).dom().contains(tool) <==> exists|i: int|
            0 <= i < routes.len() && (#[trigger] routes[i]).tool@ == tool,
    decreases routes.len(),
{
    if routes.len() > 0 {
        let front = routes.drop_last();
        lemma_table_domain(front, tool);
        if exists|i: int| 0 <= i < routes.len() && (#[trigger] routes[i]).tool@ == tool {
            let i = choose|i: int| 0 <= i < routes.len() && (#[trigger] routes[i]).tool@ == tool;
            if i < routes.len() - 1 {
                assert(front[i].tool@ == tool);
            }
        }
    }
}

/// Every part of a list of routes for different tools is such a list.
proof fn lemma_front_distinct(routes: Seq<Route>)
    requires
        distinct_tools(routes),
        routes.len() > 0,
    ensures
        distinct_tools(routes.drop_last()),
{
}

/// Where no two routes are for the same tool, each route is what the table
/// says of its tool.
proof fn lemma_table_entry(routes: Seq<Route>, i: int)
    requires
        distinct_tools(routes),
        0 <= i < routes.len(),
    ensures
        table_of(routes).dom().contains(routes[i].tool@),
        table_of(routes)[routes[i].tool@] == routes[i].provider,
    decreases routes.len(),
{
    if i < routes.len() - 1 {
        lemma_front_distinct(routes);
        lemma_table_entry(routes.drop_last(), i);
    }
}

/// Where no two routes are for the same tool, giving the tool of one route
/// another provider overwrites what the table says of that tool.
proof fn lemma_table_update(routes: Seq<Route>, i: int, route: Route)
    requires
        distinct_tools(routes),
        0 <= i < routes.len(),
        route.tool@ == routes[i].tool@,
    ensures
        distinct_tools(routes.update(i, route)),
        table_of(routes.update(i, route)) == table_of(routes).insert(route.tool@, route.provider),
    decreases routes.len(),
{
    let after = routes.update(i, route);
    let front = routes.drop_last();
    if i == routes.len() - 1 {
        assert(after.drop_last() =~= front);
    } else {
        lemma_front_distinct(routes);
        lemma_table_update(front, i, route);
        assert(after.drop_last() =~= front.update(i, route));
    }
}

/// The routing table. A tool has at most one provider: a later entry for a
/// tool overwrites the earlier one.
#[derive(Debug, PartialEq, Eq)]
pub struct DispatchTable {
    routes: Vec<Route>,
}

impl View for DispatchTable {
    type V = Map<Seq<char>, usize>;

    closed spec fn view(&self) -> Map<Seq<char>, usize> {
        table_of(self.routes@)
    }
}

impl DispatchTable {
    /// The table holds each tool once.
    pub closed spec fn wf(&self) -> bool {
        distinct_tools(self.routes@)
    }

    /// The provider that answers for `tool`, if there is one.
    pub open spec fn route(&self, tool: Seq<char>) -> Option<usize> {
        if self@.dom().contains(tool) {
            Some(self@[tool])
        } else {
            None
        }
    }

    /// The empty table.
    pub fn new() -> (r: DispatchTable)
        ensures
            r.wf(),
            r@ == Map::<Seq<char>, usize>::empty(),
    {
        DispatchTable { routes: Vec::new() }
    }

    /// The place of the route for `tool` among the routes, if there is one.
    fn position(&self, tool: &str) -> (r: Option<usize>)
        requires
            self.wf(),
        ensures
            r matches Some(i) ==> i < self.routes.len() && self.routes[i as int].tool@ == tool@,
            r is None ==> forall|j: int|
                0 <= j < self.routes.len() ==> self.routes[j].tool@ != tool@,
    {
        let mut i: usize = 0;
        while i < self.routes.len()
            invariant
                i <= self.routes.len(),
                forall|j: int| 0 <= j < i ==> self.routes[j].tool@ != tool@,
            decreases self.routes.len() - i,
        {
            if self.routes[i].tool.as_str().eq(tool) {
                return Some(i);
            }
            i = i + 1;
        }
        None
    }

    /// The provider that answers for `tool`, if there is one. The answer
    /// depends on the table and the name alone: asked again of the same
    /// table, the same name finds the same provider.
    pub fn lookup(&self, tool: &str) -> (r: Option<usize>)
        requires
            self.wf(),
        ensures
            r == self.route(tool@),
    {
        proof {
            lemma_table_domain(self.routes@, tool@);
        }
        match self.position(tool) {
            Some(i) => {
                proof {
                    lemma_table_entry(self.routes@, i as int);
                }
                Some(self.routes[i].provider)
            },
            None => None,
        }
    }

    /// Routes `tool` to `provider`, whatever it was routed to before.
    pub fn insert(&mut self, tool: String, provider: usize)
        requires
            old(self).wf(),
        ensures
            final(self).wf(),
            final(self)@ == old(self)@.insert(tool@, provider),
    {
        let route = Route { tool, provider };
        match self.position(route.tool.as_str()) {
            Some(i) => {
                proof {
                    lemma_table_update(self.routes@, i as int, route);
                }
                self.routes.set(i, route);
            },
            None => {
                self.routes.push(route);
                assert(self.routes@.drop_last() =~= old(self).routes@);
            },
        }
    }

    /// The number of tools that are routed.
    pub fn len(&self) -> (r: usize)
        requires
            self.wf(),
        ensures
            r == self@.dom().len(),
            self@.dom().finite(),
    {
        proof {
            lemma_table_len(self.routes@);
        }
        self.routes.len()
    }
}

/// Routing is a function of the table and the name: asked twice for the same
/// tool, a table that has not changed gives the same provider.
pub proof fn routing_is_stable(table: DispatchTable, first: Seq<char>, second: Seq<char>)
    requires
        first == second,
    ensures
        table.route(first) == table.route(second),
{
}

/// Where no two routes are for the same tool, the table holds as many tools as
/// there are routes.
proof fn lemma_table_len(routes: Seq<Route>)
    requires
        distinct_tools(routes),
    ensures
        table_of(routes).dom().finite(),
        table_of(routes).dom().len() == routes.len(),
    decreases routes.len(),
{
    if routes.len() > 0 {
        let front = routes.drop_last();
        lemma_front_distinct(routes);
        lemma_table_len(front);
        lemma_table_domain(front, routes.last().tool@);
    }
}

} // verus!
