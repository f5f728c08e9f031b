//! The bindings as a graph: one node per declared control, chained per device.
use crate::binding::{lookup_spec, Binding, BindingTable, ControlKey, ControlKind};
use crate::state::{
    control_count, device_wf, value_at, ControlState, ControlValue, DeviceView,
};
use petgraph::graph::{EdgeIndex, Graph, NodeIndex};
use petgraph::Directed;
use vstd::prelude::*;

verus! {

#[verifier::external_type_specification]
#[verifier::external_body]
#[verifier::reject_recursive_types(N)]
#[verifier::reject_recursive_types(E)]
#[verifier::reject_recursive_types(Ty)]
#[verifier::reject_recursive_types(Ix)]
pub struct ExGraph<N, E, Ty, Ix>(Graph<N, E, Ty, Ix>);

#[verifier::external_type_specification]
#[verifier::external_body]
pub struct ExDirected(Directed);

/// One control, as the graph shows it.
#[derive(Clone, Copy, Debug, PartialEq, Eq, Structural)]
pub struct GraphNode {
    pub device: u32,
    pub kind: ControlKind,
    pub index: u16,
    pub value: ControlValue,
    pub binding: Option<Binding>,
}

/// The petgraph graph that holds the nodes; edges carry nothing.
pub type ControlGraph = Graph<GraphNode, (), Directed, usize>;

/// The node weights of a graph, in index order.
pub uninterp spec fn graph_nodes(g: ControlGraph) -> Seq<GraphNode>;

/// The `(source, target)` pairs of a graph's edges, in index order.
pub uninterp spec fn graph_edges(g: ControlGraph) -> Seq<(int, int)>;

/// Relies on petgraph's `Graph::with_capacity`: a graph with no node and no
/// edge.
#[verifier::external_body]
fn graph_with_capacity(nodes: usize, edges: usize) -> (g: ControlGraph)
    ensures
        graph_nodes(g) == Seq::<GraphNode>::empty(),
        graph_edges(g) == Seq::<(int, int)>::empty(),
{
    Graph::with_capacity(nodes, edges)
}

/// Relies on petgraph's `Graph::add_node`: it appends the weight and returns
/// the former node count as the new index; with `usize` indices it does not
/// panic.
#[verifier::external_body]
fn graph_add_node(g: &mut ControlGraph, n: GraphNode) -> (r: usize)
    ensures
        graph_nodes(*final(g)) == graph_nodes(*old(g)).push(n),
        graph_edges(*final(g)) == graph_edges(*old(g)),
        r == graph_nodes(*old(g)).len(),
{
    g.add_node(n).index()
}

/// Relies on petgraph's `Graph::add_edge`: it appends the edge `a -> b`; it
/// panics only when `a` or `b` is not a node, and with `usize` indices never
/// for want of an index.
#[verifier::external_body]
fn graph_add_edge(g: &mut ControlGraph, a: usize, b: usize)
    requires
        a < graph_nodes(*old(g)).len(),
        b < graph_nodes(*old(g)).len(),
    ensures
        graph_nodes(*final(g)) == graph_nodes(*old(g)),
        graph_edges(*final(g)) == graph_edges(*old(g)).push((a as int, b as int)),
{
    g.add_edge(NodeIndex::new(a), NodeIndex::new(b), ());
}

/// Relies on petgraph's `Graph::node_weight`: the weight at index `i`, or
/// `None` past the last node.
#[verifier::external_body]
fn graph_node_weight(g: &ControlGraph, i: usize) -> (r: Option<GraphNode>)
    ensures
        i < graph_nodes(*g).len() ==> r == Some(graph_nodes(*g)[i as int]),
        i >= graph_nodes(*g).len() ==> r is None,
{
    g.node_weight(NodeIndex::new(i)).copied()
}

/// Relies on petgraph's `Graph::edge_endpoints`: source and target of edge
/// `e`, or `None` past the last edge.
#[verifier::external_body]
fn graph_edge_endpoints(g: &ControlGraph, e: usize) -> (r: Option<(usize, usize)>)
    ensures
        e < graph_edges(*g).len() ==> r is Some && (r.unwrap().0 as int, r.unwrap().1 as int)
            == graph_edges(*g)[e as int],
        e >= graph_edges(*g).len() ==> r is None,
{
    g.edge_endpoints(EdgeIndex::new(e)).map(|(a, b)| (a.index(), b.index()))
}

/// Relies on petgraph's `Graph::node_count`.
#[verifier::external_body]
fn graph_node_count(g: &ControlGraph) -> (r: usize)
    ensures
        r == graph_nodes(*g).len(),
{
    g.node_count()
}

/// Relies on petgraph's `Graph::edge_count`.
#[verifier::external_body]
fn graph_edge_count(g: &ControlGraph) -> (r: usize)
    ensures
        r == graph_edges(*g).len(),
{
    g.edge_count()
}

/// The node of control `i` of kind `kind` of a device.
pub open spec fn control_node(
    d: DeviceView,
    kind: ControlKind,
    i: int,
    table: Map<ControlKey, Binding>,
) -> GraphNode {
    GraphNode {
        device: d.id,
        kind,
        index: i as u16,
        value: value_at(d, kind, i as u16).unwrap(),
        binding: lookup_spec(table, ControlKey { device: d.id, kind, index: i as u16 }),
    }
}

/// The nodes of the controls of one kind of a device, in declaration order.
pub open spec fn kind_nodes(d: DeviceView, kind: ControlKind, table: Map<ControlKey, Binding>) -> Seq<
    GraphNode,
> {
    Seq::new(control_count(d, kind), |i: int| control_node(d, kind, i, table))
}

/// The nodes of a device: its axes, then its buttons, then its hats.
pub open spec fn device_nodes(d: DeviceView, table: Map<ControlKey, Binding>) -> Seq<GraphNode> {
    kind_nodes(d, ControlKind::Axis, table) + kind_nodes(d, ControlKind::Button, table)
        + kind_nodes(d, ControlKind::Hat, table)
}

/// The number of controls a device declares.
pub open spec fn device_size(d: DeviceView) -> nat {
    d.axes.len() + d.buttons.len() + d.hats.len()
}

/// The edges that chain `n` nodes starting at index `start`.
pub open spec fn chain(start: int, n: int) -> Seq<(int, int)> {
    Seq::new(if n > 0 { (n - 1) as nat } else { 0 }, |i: int| (start + i, start + i + 1))
}

/// The number of nodes of all devices.
pub open spec fn total_size(devs: Seq<DeviceView>) -> nat
    decreases devs.len(),
{
    if devs.len() == 0 {
        0
    } else {
        total_size(devs.drop_last()) + device_size(devs.last())
    }
}

/// The nodes of the graph: device by device in attach order.
pub open spec fn graph_nodes_spec(devs: Seq<DeviceView>, table: Map<ControlKey, Binding>) -> Seq<
    GraphNode,
>
    decreases devs.len(),
{
    if devs.len() == 0 {
        Seq::empty()
    } else {
        graph_nodes_spec(devs.drop_last(), table) + device_nodes(devs.last(), table)
    }
}

/// The edges of the graph: each device's nodes chained in order, with no edge
/// between devices.
pub open spec fn graph_edges_spec(devs: Seq<DeviceView>) -> Seq<(int, int)>
    decreases devs.len(),
{
    if devs.len() == 0 {
        Seq::empty()
    } else {
        graph_edges_spec(devs.drop_last()) + chain(
            total_size(devs.drop_last()) as int,
            device_size(devs.last()) as int,
        )
    }
}

proof fn lemma_chain_step(start: int, n: int)
    requires
        n >= 0,
    ensures
        n == 0 ==> chain(start, n + 1) == chain(start, n),
        n > 0 ==> chain(start, n + 1) == chain(start, n).push((start + n - 1, start + n)),
{
    if n == 0 {
        assert(chain(start, 1) =~= chain(start, 0));
    } else {
        assert(chain(start, n + 1) =~= chain(start, n).push((start + n - 1, start + n)));
    }
}

/// The bindings as a petgraph graph.
pub struct BindingGraph {
    graph: ControlGraph,
}

/// Adds the nodes of the controls of one kind of device `p`, continuing the
/// device's chain of edges.
fn add_kind_nodes(
    graph: &mut ControlGraph,
    state: &ControlState,
    p: usize,
    kind: ControlKind,
    table: &BindingTable,
    prev: Option<usize>,
    Ghost(start): Ghost<int>,
    Ghost(before): Ghost<Seq<(int, int)>>,
) -> (last: Option<usize>)
    requires
        p < state@.len(),
        state.wf(),
        0 <= start <= graph_nodes(*old(graph)).len(),
        graph_edges(*old(graph)) == before + chain(start, graph_nodes(*old(graph)).len() - start),
        prev == (if graph_nodes(*old(graph)).len() > start {
            Some((graph_nodes(*old(graph)).len() - 1) as usize)
        } else {
            None::<usize>
        }),
    ensures
        graph_nodes(*final(graph)) == graph_nodes(*old(graph)) + kind_nodes(
            state@[p as int],
            kind,
            table@,
        ),
        graph_edges(*final(graph)) == before + chain(start, graph_nodes(*final(graph)).len() - start),
        last == (if graph_nodes(*final(graph)).len() > start {
            Some((graph_nodes(*final(graph)).len() - 1) as usize)
        } else {
            None::<usize>
        }),
{
    let ghost d = state@[p as int];
    let ghost nodes0 = graph_nodes(*graph);
    let id = state.id_at(p);
    let n = state.count_at(p, kind);
    assert(device_wf(d));
    let mut prev = prev;
    let mut i: usize = 0;
    while i < n
        invariant
            p < state@.len(),
            d == state@[p as int],
            device_wf(d),
            n == control_count(d, kind),
            id == d.id,
            0 <= i <= n,
            0 <= start <= nodes0.len(),
            graph_nodes(*graph) == nodes0 + kind_nodes(d, kind, table@).take(i as int),
            graph_edges(*graph) == before + chain(start, graph_nodes(*graph).len() - start),
            prev == (if graph_nodes(*graph).len() > start {
                Some((graph_nodes(*graph).len() - 1) as usize)
            } else {
                None::<usize>
            }),
        decreases n - i,
    {
        let ghost len0 = graph_nodes(*graph).len();
        let index = i as u16;
        let value = state.value_at_position(p, kind, index);
        let key = ControlKey { device: id, kind, index };
        let node = GraphNode {
            device: id,
            kind,
            index,
            value: value.unwrap(),
            binding: table.lookup(key),
        };
        assert(node == control_node(d, kind, i as int, table@));
        let idx = graph_add_node(graph, node);
        match prev {
            Some(q) => graph_add_edge(graph, q, idx),
            None => {},
        }
        proof {
            lemma_chain_step(start, len0 - start);
            assert(kind_nodes(d, kind, table@).take(i + 1) =~= kind_nodes(d, kind, table@).take(
                i as int,
            ).push(node));
        }
        prev = Some(idx);
        i += 1;
    }
    assert(kind_nodes(d, kind, table@).take(n as int) =~= kind_nodes(d, kind, table@));
    prev
}

impl BindingGraph {
    /// The node weights, in index order.
    pub closed spec fn nodes(&self) -> Seq<GraphNode> {
        graph_nodes(self.graph)
    }

    /// The edges, as `(source, target)` index pairs in index order.
    pub closed spec fn edges(&self) -> Seq<(int, int)> {
        graph_edges(self.graph)
    }

    /// Builds the graph of the current controls and bindings: one node per
    /// declared control, devices in attach order and, within a device, axes,
    /// buttons and hats in declaration order; one edge from each node to the
    /// next one of the same device.
    pub fn rebuild(state: &ControlState, table: &BindingTable) -> (g: BindingGraph)
        requires
            state.wf(),
        ensures
            g.nodes() == graph_nodes_spec(state@, table@),
            g.edges() == graph_edges_spec(state@),
    {
        let mut graph = graph_with_capacity(0, 0);
        let count = state.device_count();
        let mut p: usize = 0;
        assert(state@.take(0) =~= Seq::<DeviceView>::empty());
        while p < count
            invariant
                state.wf(),
                count == state@.len(),
                0 <= p <= count,
                graph_nodes(graph) == graph_nodes_spec(state@.take(p as int), table@),
                graph_nodes(graph).len() == total_size(state@.take(p as int)),
                graph_edges(graph) == graph_edges_spec(state@.take(p as int)),
            decreases count - p,
        {
            let ghost d = state@[p as int];
            let ghost start = graph_nodes(graph).len() as int;
            let ghost before = graph_edges(graph);
            assert(before =~= before + chain(start, 0));
            let last = add_kind_nodes(&mut graph, state, p, ControlKind::Axis, table, None, Ghost(start), Ghost(before));
            let last = add_kind_nodes(&mut graph, state, p, ControlKind::Button, table, last, Ghost(start), Ghost(before));
            let _ = add_kind_nodes(&mut graph, state, p, ControlKind::Hat, table, last, Ghost(start), Ghost(before));
            proof {
                let next = state@.take(p + 1);
                assert(next.drop_last() =~= state@.take(p as int));
                assert(next.last() == d);
                assert(graph_nodes(graph) =~= graph_nodes_spec(next, table@));
            }
            p += 1;
        }
        assert(state@.take(count as int) =~= state@);
        BindingGraph { graph }
    }

    /// The number of nodes.
    pub fn node_count(&self) -> (r: usize)
        ensures
            r == self.nodes().len(),
    {
        graph_node_count(&self.graph)
    }

    /// The number of edges.
    pub fn edge_count(&self) -> (r: usize)
        ensures
            r == self.edges().len(),
    {
        graph_edge_count(&self.graph)
    }

    /// The node at index `i`, if there is one.
    pub fn node(&self, i: usize) -> (r: Option<GraphNode>)
        ensures
            i < self.nodes().len() ==> r == Some(self.nodes()[i as int]),
            i >= self.nodes().len() ==> r is None,
    {
        graph_node_weight(&self.graph, i)
    }

    /// The endpoints of edge `e`, if there is one.
    pub fn edge(&self, e: usize) -> (r: Option<(usize, usize)>)
        ensures
            e < self.edges().len() ==> r is Some && (r.unwrap().0 as int, r.unwrap().1 as int)
                == self.edges()[e as int],
            e >= self.edges().len() ==> r is None,
    {
        graph_edge_endpoints(&self.graph, e)
    }

    /// The underlying petgraph graph, for presentation.
    pub fn as_graph(&self) -> (r: &ControlGraph)
        ensures
            graph_nodes(*r) == self.nodes(),
            graph_edges(*r) == self.edges(),
    {
        &self.graph
    }
}

proof fn lemma_device_nodes(d: DeviceView, table: Map<ControlKey, Binding>)
    ensures
        device_nodes(d, table).len() == device_size(d),
        forall|i: int|
            0 <= i < device_size(d) ==> (#[trigger] device_nodes(d, table)[i]).device == d.id,
{
    let a = kind_nodes(d, ControlKind::Axis, table);
    let b = kind_nodes(d, ControlKind::Button, table);
    let h = kind_nodes(d, ControlKind::Hat, table);
    assert forall|i: int| 0 <= i < device_size(d) implies (#[trigger] device_nodes(d, table)[i]).device
        == d.id by {
        if i < a.len() {
            assert(device_nodes(d, table)[i] == a[i]);
        } else if i < a.len() + b.len() {
            assert(device_nodes(d, table)[i] == b[i - a.len()]);
        } else {
            assert(device_nodes(d, table)[i] == h[i - a.len() - b.len()]);
        }
    }
}

/// The shape of the graph: it has one node per declared control, and every
/// edge joins a node to the next one, both of the same device; no edge
/// crosses from one device to another.
pub proof fn lemma_graph_shape(devs: Seq<DeviceView>, table: Map<ControlKey, Binding>)
    ensures
        graph_nodes_spec(devs, table).len() == total_size(devs),
        forall|k: int|
            0 <= k < graph_edges_spec(devs).len() ==> {
                let e = #[trigger] graph_edges_spec(devs)[k];
                let nodes = graph_nodes_spec(devs, table);
                &&& 0 <= e.0
                &&& e.1 == e.0 + 1
                &&& e.1 < nodes.len()
                &&& nodes[e.0].device == nodes[e.1].device
            },
    decreases devs.len(),
{
    if devs.len() > 0 {
        let pre = devs.drop_last();
        let d = devs.last();
        lemma_graph_shape(pre, table);
        lemma_device_nodes(d, table);
        let nodes = graph_nodes_spec(devs, table);
        let pre_nodes = graph_nodes_spec(pre, table);
        let start = total_size(pre) as int;
        let edges = graph_edges_spec(devs);
        let pre_edges = graph_edges_spec(pre);
        assert forall|k: int| 0 <= k < edges.len() implies {
            let e = #[trigger] edges[k];
            &&& 0 <= e.0
            &&& e.1 == e.0 + 1
            &&& e.1 < nodes.len()
            &&& nodes[e.0].device == nodes[e.1].device
        } by {
            if k < pre_edges.len() {
                let e = pre_edges[k];
                assert(edges[k] == e);
                assert(nodes[e.0] == pre_nodes[e.0]);
                assert(nodes[e.1] == pre_nodes[e.1]);
            } else {
                let i = k - pre_edges.len();
                assert(edges[k] == (start + i, start + i + 1));
                assert(nodes[start + i] == device_nodes(d, table)[i]);
                assert(nodes[start + i + 1] == device_nodes(d, table)[i + 1]);
            }
        }
    }
}

/// Rebuilding is deterministic: two graphs rebuilt from the same control
/// state and bindings have the same nodes and the same edges.
pub proof fn lemma_rebuild_deterministic(
    devs: Seq<DeviceView>,
    table: Map<ControlKey, Binding>,
    first: BindingGraph,
    second: BindingGraph,
)
    requires
        first.nodes() == graph_nodes_spec(devs, table),
        first.edges() == graph_edges_spec(devs),
        second.nodes() == graph_nodes_spec(devs, table),
        second.edges() == graph_edges_spec(devs),
    ensures
        first.nodes() == second.nodes(),
        first.edges() == second.edges(),
{
}

} // verus!
