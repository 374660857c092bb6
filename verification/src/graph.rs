//! The dependency graph held inside an `AnalysisUnit`. The graph itself
//! comes from the petgraph crate; this module declares it to the verifier,
//! names its contents, and wraps the few operations the library needs.
use vstd::prelude::*;
use crate::analyze::{Dependency, deps_view};

verus! {

#[verifier::external_type_specification]
#[verifier::external_body]
pub struct ExUndirected(petgraph::Undirected);

#[verifier::external_type_specification]
#[verifier::external_body]
#[verifier::reject_recursive_types(N)]
#[verifier::reject_recursive_types(E)]
#[verifier::reject_recursive_types(Ty)]
#[verifier::reject_recursive_types(Ix)]
pub struct ExGraph<N, E, Ty, Ix>(petgraph::graph::Graph<N, E, Ty, Ix>);

/// The node weights a dependency graph holds, in node-index order, which is
/// the order the nodes were inserted in.
pub uninterp spec fn graph_nodes(
    g: petgraph::graph::Graph<Dependency, (), petgraph::Undirected, u32>,
) -> Seq<Dependency>;

/// Relies on petgraph's `Graph::default`: a graph with no nodes and no
/// edges.
#[verifier::external_body]
pub(crate) fn graph_new() -> (g: petgraph::graph::UnGraph<Dependency, ()>)
    ensures
        graph_nodes(g) == Seq::<Dependency>::empty(),
{
    petgraph::graph::UnGraph::default()
}

/// Relies on petgraph's `Graph::add_node`: appends one node, whose index is
/// the previous node count; it panics when the node count reaches the index
/// type's end marker, which the precondition excludes.
#[verifier::external_body]
pub(crate) fn graph_add_node(g: &mut petgraph::graph::UnGraph<Dependency, ()>, d: Dependency)
    requires
        graph_nodes(*old(g)).len() < 0xFFFF_FFFFu32,
    ensures
        graph_nodes(*final(g)) == graph_nodes(*old(g)).push(d),
{
    let _ = g.add_node(d);
}

/// Relies on petgraph's `Graph::node_count`: the number of nodes.
#[verifier::external_body]
pub(crate) fn graph_node_count(g: &petgraph::graph::UnGraph<Dependency, ()>) -> (n: usize)
    ensures
        n == graph_nodes(*g).len(),
{
    g.node_count()
}

/// Relies on petgraph's `Graph::node_weights`: one reference per node, in
/// node-index (insertion) order.
#[verifier::external_body]
pub(crate) fn graph_node_refs<'a>(g: &'a petgraph::graph::UnGraph<Dependency, ()>) -> (r: Vec<
    &'a Dependency,
>)
    ensures
        r@.len() == graph_nodes(*g).len(),
        forall|i: int| 0 <= i < r@.len() ==> *r@[i] == graph_nodes(*g)[i],
{
    g.node_weights().collect()
}

/// Builds an undirected graph whose nodes are exactly the given
/// dependencies, in order, with no edges.
pub fn dependency_graph(deps: &Vec<Dependency>) -> (g: petgraph::graph::UnGraph<Dependency, ()>)
    requires
        deps@.len() < 0xFFFF_FFFFu32,
    ensures
        deps_view(graph_nodes(g)) == deps_view(deps@),
{
    let mut g = graph_new();
    let mut i: usize = 0;
    while i < deps.len()
        invariant
            0 <= i <= deps@.len(),
            deps@.len() < 0xFFFF_FFFFu32,
            graph_nodes(g).len() == i,
            forall|k: int| 0 <= k < i ==> (#[trigger] graph_nodes(g)[k])@ == deps@[k]@,
        decreases deps@.len() - i,
    {
        let ghost prev = graph_nodes(g);
        graph_add_node(&mut g, deps[i].clone());
        proof {
            assert forall|k: int| 0 <= k < i + 1 implies (#[trigger] graph_nodes(g)[k])@
                == deps@[k]@ by {
                if k < i {
                    assert(graph_nodes(g)[k] == prev[k]);
                }
            }
        }
        i += 1;
    }
    proof {
        assert forall|k: int| 0 <= k < deps@.len() implies deps_view(graph_nodes(g))[k]
            == deps_view(deps@)[k] by {}
        assert(deps_view(graph_nodes(g)) =~= deps_view(deps@));
    }
    g
}

} // verus!
