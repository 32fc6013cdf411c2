//! The mathematical model of vertices and graphs, and the laws that hold of it.

use vstd::prelude::*;

verus! {

/// What a vertex is: its identifier and three independent property maps, each
/// from a property name to a value.
///
/// A float-valued property is held by the 64 bits of its IEEE 754
/// representation: the library stores and returns such a value and never
/// computes with it.
pub struct VertexModel {
    pub id: nat,
    pub string_props: Map<Seq<char>, Seq<char>>,
    pub int_props: Map<Seq<char>, i64>,
    pub float_props: Map<Seq<char>, u64>,
}

impl VertexModel {
    /// The vertex `id` without any property.
    pub open spec fn new(id: nat) -> VertexModel {
        VertexModel {
            id,
            string_props: Map::empty(),
            int_props: Map::empty(),
            float_props: Map::empty(),
        }
    }

    /// This vertex with the string property `name` set to `value`.
    pub open spec fn add_string_props(self, name: Seq<char>, value: Seq<char>) -> VertexModel {
        VertexModel { string_props: self.string_props.insert(name, value), ..self }
    }

    /// This vertex with the integer property `name` set to `value`.
    pub open spec fn add_int_props(self, name: Seq<char>, value: i64) -> VertexModel {
        VertexModel { int_props: self.int_props.insert(name, value), ..self }
    }

    /// This vertex with the float property `name` set to the value whose bits
    /// are `bits`.
    pub open spec fn add_float_props(self, name: Seq<char>, bits: u64) -> VertexModel {
        VertexModel { float_props: self.float_props.insert(name, bits), ..self }
    }
}

/// The identifiers that a stored neighbour list holds, as numbers.
pub open spec fn neighbor_ids(list: Seq<usize>) -> Seq<nat> {
    list.map_values(|id: usize| id as nat)
}

/// The sum of the lengths of `lists`.
pub open spec fn total_len(lists: Seq<Seq<nat>>) -> nat
    decreases lists.len(),
{
    if lists.len() == 0 {
        0
    } else {
        total_len(lists.drop_last()) + lists.last().len()
    }
}

/// What a graph is: whether its edges are directed, its vertices in the order
/// in which they were added, and for each vertex the identifiers of its
/// neighbours in the order in which the edges were added.
pub struct GraphModel {
    pub is_directed: bool,
    pub vertices: Seq<VertexModel>,
    pub adjacent: Seq<Seq<nat>>,
}

impl GraphModel {
    /// The graph without vertices.
    pub open spec fn new(is_directed: bool) -> GraphModel {
        GraphModel { is_directed, vertices: Seq::empty(), adjacent: Seq::empty() }
    }

    /// Every vertex has one neighbour list, the identifier of a vertex is its
    /// position, and every neighbour is a vertex of the graph.
    pub open spec fn wf(self) -> bool {
        &&& self.adjacent.len() == self.vertices.len()
        &&& forall|i: int|
            0 <= i < self.vertices.len() ==> (#[trigger] self.vertices[i]).id == i
        &&& forall|i: int, j: int|
            0 <= i < self.adjacent.len() && 0 <= j < self.adjacent[i].len() ==> (
            #[trigger] self.adjacent[i][j]) < self.vertices.len()
    }

    /// Every vertex has a neighbour list under its identifier. A well-formed
    /// graph has this property.
    pub open spec fn has_lists(self) -> bool {
        forall|i: int|
            0 <= i < self.vertices.len() ==> (#[trigger] self.vertices[i]).id < self.adjacent.len()
    }

    /// The number of vertices.
    pub open spec fn num_vertices(self) -> nat {
        self.vertices.len()
    }

    /// The number of entries in all neighbour lists together. An edge of an
    /// undirected graph stands in two lists and so counts twice.
    pub open spec fn num_edges(self) -> nat {
        total_len(self.adjacent)
    }

    /// The vertex at position `id`, if there is one.
    pub open spec fn get_vertex(self, id: nat) -> Option<VertexModel> {
        if id < self.vertices.len() {
            Some(self.vertices[id as int])
        } else {
            None
        }
    }

    /// The neighbour list at position `id`, if there is one.
    pub open spec fn get_adjacent_vertices(self, id: nat) -> Option<Seq<nat>> {
        if id < self.adjacent.len() {
            Some(self.adjacent[id as int])
        } else {
            None
        }
    }

    /// This graph with one more vertex: its identifier is the number of
    /// vertices so far, and it has no property and no neighbour.
    pub open spec fn add_vertex(self) -> GraphModel {
        GraphModel {
            vertices: self.vertices.push(VertexModel::new(self.vertices.len())),
            adjacent: self.adjacent.push(Seq::empty()),
            ..self
        }
    }

    /// This graph after `count` vertices were added one by one.
    pub open spec fn add_vertices(self, count: nat) -> GraphModel
        decreases count,
    {
        if count == 0 {
            self
        } else {
            self.add_vertices((count - 1) as nat).add_vertex()
        }
    }

    /// This graph with `to` appended to the neighbours of `from`.
    pub open spec fn add_arc(self, from: nat, to: nat) -> GraphModel
        recommends
            from < self.adjacent.len(),
    {
        GraphModel {
            adjacent: self.adjacent.update(from as int, self.adjacent[from as int].push(to)),
            ..self
        }
    }

    /// This graph with an edge from `from` to `to`: `to` becomes the last
    /// neighbour of `from` and then, unless the graph is directed, `from` the
    /// last neighbour of `to`. An edge that is there already is added again.
    pub open spec fn add_edge(self, from: nat, to: nat) -> GraphModel
        recommends
            from < self.adjacent.len(),
            to < self.adjacent.len(),
    {
        if self.is_directed {
            self.add_arc(from, to)
        } else {
            self.add_arc(from, to).add_arc(to, from)
        }
    }
}

/// Appending a list adds its length to the sum.
pub proof fn lemma_total_len_push(lists: Seq<Seq<nat>>, list: Seq<nat>)
    ensures
        total_len(lists.push(list)) == total_len(lists) + list.len(),
{
    assert(lists.push(list).drop_last() =~= lists);
}

/// Replacing a list changes the sum by the difference of the two lengths.
pub proof fn lemma_total_len_update(lists: Seq<Seq<nat>>, i: int, list: Seq<nat>)
    requires
        0 <= i < lists.len(),
    ensures
        total_len(lists.update(i, list)) + lists[i].len() == total_len(lists) + list.len(),
    decreases lists.len(),
{
    if i == lists.len() - 1 {
        assert(lists.update(i, list).drop_last() =~= lists.drop_last());
    } else {
        lemma_total_len_update(lists.drop_last(), i, list);
        assert(lists.update(i, list).drop_last() =~= lists.drop_last().update(i, list));
    }
}

/// The lengths of the first `k` lists sum to no more than those of all lists.
pub proof fn lemma_total_len_prefix(lists: Seq<Seq<nat>>, k: int)
    requires
        0 <= k <= lists.len(),
    ensures
        total_len(lists.take(k)) <= total_len(lists),
    decreases lists.len() - k,
{
    if k == lists.len() {
        assert(lists.take(k) =~= lists);
    } else {
        lemma_total_len_prefix(lists, k + 1);
        assert(lists.take(k + 1).drop_last() =~= lists.take(k));
    }
}

/// Appending a neighbour to the list of one vertex keeps a graph well formed
/// and its vertices as they are, and adds one to the number of edges.
pub proof fn lemma_add_arc(g: GraphModel, from: nat, to: nat)
    requires
        g.wf(),
        from < g.num_vertices(),
        to < g.num_vertices(),
    ensures
        g.add_arc(from, to).wf(),
        g.add_arc(from, to).vertices == g.vertices,
        g.add_arc(from, to).num_edges() == g.num_edges() + 1,
{
    let list = g.adjacent[from as int].push(to);
    lemma_total_len_update(g.adjacent, from as int, list);
}

/// Setting a property twice under one name leaves what the second call alone
/// would have left: one entry for the name, with the later value. This holds
/// in each of the three maps.
pub proof fn lemma_property_overwrite(
    v: VertexModel,
    name: Seq<char>,
    s1: Seq<char>,
    s2: Seq<char>,
    i1: i64,
    i2: i64,
    f1: u64,
    f2: u64,
)
    ensures
        v.add_string_props(name, s1).add_string_props(name, s2) == v.add_string_props(name, s2),
        v.add_string_props(name, s1).add_string_props(name, s2).string_props[name] == s2,
        v.add_int_props(name, i1).add_int_props(name, i2) == v.add_int_props(name, i2),
        v.add_int_props(name, i1).add_int_props(name, i2).int_props[name] == i2,
        v.add_float_props(name, f1).add_float_props(name, f2) == v.add_float_props(name, f2),
        v.add_float_props(name, f1).add_float_props(name, f2).float_props[name] == f2,
{
    assert(v.string_props.insert(name, s1).insert(name, s2) =~= v.string_props.insert(name, s2));
    assert(v.int_props.insert(name, i1).insert(name, i2) =~= v.int_props.insert(name, i2));
    assert(v.float_props.insert(name, f1).insert(name, f2) =~= v.float_props.insert(name, f2));
}

/// Setting a property touches neither the identifier, nor another name in the
/// same map, nor the two other maps.
pub proof fn lemma_property_frame(v: VertexModel, name: Seq<char>, value: Seq<char>, other: Seq<char>)
    requires
        other != name,
    ensures
        v.add_string_props(name, value).id == v.id,
        v.add_string_props(name, value).int_props == v.int_props,
        v.add_string_props(name, value).float_props == v.float_props,
        v.add_string_props(name, value).string_props.contains_key(other)
            == v.string_props.contains_key(other),
        v.string_props.contains_key(other) ==> v.add_string_props(name, value).string_props[other]
            == v.string_props[other],
{
}

/// An empty graph is well formed and has neither vertices nor edges.
pub proof fn lemma_new_graph(is_directed: bool)
    ensures
        GraphModel::new(is_directed).wf(),
        GraphModel::new(is_directed).is_directed == is_directed,
        GraphModel::new(is_directed).num_vertices() == 0,
        GraphModel::new(is_directed).num_edges() == 0,
{
}

/// A vertex added to a well-formed graph gets the number of vertices so far
/// as its identifier, can be looked up under it, and has no neighbours; the
/// vertices and lists that were there stay as they are.
pub proof fn lemma_add_vertex(g: GraphModel)
    requires
        g.wf(),
    ensures
        g.add_vertex().wf(),
        g.add_vertex().is_directed == g.is_directed,
        g.add_vertex().num_vertices() == g.num_vertices() + 1,
        g.add_vertex().num_edges() == g.num_edges(),
        g.add_vertex().get_vertex(g.num_vertices()) == Some(VertexModel::new(g.num_vertices())),
        g.add_vertex().get_vertex(g.num_vertices()).unwrap().id == g.num_vertices(),
        g.add_vertex().get_adjacent_vertices(g.num_vertices()) == Some(Seq::<nat>::empty()),
        forall|id: nat|
            id < g.num_vertices() ==> #[trigger] g.add_vertex().get_vertex(id) == g.get_vertex(id),
        forall|id: nat|
            id < g.num_vertices() ==> #[trigger] g.add_vertex().get_adjacent_vertices(id)
                == g.get_adjacent_vertices(id),
{
    lemma_total_len_push(g.adjacent, Seq::empty());
}

/// Adding `count` vertices one by one keeps a graph well formed and its edges
/// as they are, and makes the number of vertices grow by `count`.
pub proof fn lemma_add_vertices(g: GraphModel, count: nat)
    requires
        g.wf(),
    ensures
        g.add_vertices(count).wf(),
        g.add_vertices(count).is_directed == g.is_directed,
        g.add_vertices(count).num_vertices() == g.num_vertices() + count,
        g.add_vertices(count).num_edges() == g.num_edges(),
    decreases count,
{
    if count > 0 {
        lemma_add_vertices(g, (count - 1) as nat);
        lemma_add_vertex(g.add_vertices((count - 1) as nat));
    }
}

/// Of the vertices added one by one to an empty graph, the `k`-th (counted
/// from 1) gets the identifier `k - 1`, and after it the graph has `k`
/// vertices.
pub proof fn lemma_vertex_ids_count_up(is_directed: bool, k: nat)
    requires
        k >= 1,
    ensures
        GraphModel::new(is_directed).add_vertices((k - 1) as nat).num_vertices() == k - 1,
        GraphModel::new(is_directed).add_vertices(k).num_vertices() == k,
        GraphModel::new(is_directed).add_vertices(k).get_vertex((k - 1) as nat) == Some(
            VertexModel::new((k - 1) as nat),
        ),
{
    let before = GraphModel::new(is_directed).add_vertices((k - 1) as nat);
    lemma_add_vertices(GraphModel::new(is_directed), (k - 1) as nat);
    lemma_add_vertex(before);
}

/// In a well-formed graph, looking up a vertex or a neighbour list succeeds
/// for the identifiers below the number of vertices and for no others, and
/// the vertex found under an identifier carries that identifier.
pub proof fn lemma_lookup(g: GraphModel, id: nat)
    requires
        g.wf(),
    ensures
        id >= g.num_vertices() ==> g.get_vertex(id) is None && g.get_adjacent_vertices(id) is None,
        id < g.num_vertices() ==> g.get_vertex(id) is Some && g.get_adjacent_vertices(id) is Some
            && g.get_vertex(id).unwrap().id == id,
{
}

/// An edge added to a directed graph is appended to the neighbours of `a`
/// and to nothing else: every other list stays as it is, that of `b` too
/// unless `b` is `a`. The number of edges grows by one.
pub proof fn lemma_add_edge_directed(g: GraphModel, a: nat, b: nat)
    requires
        g.wf(),
        g.is_directed,
        a < g.num_vertices(),
        b < g.num_vertices(),
    ensures
        g.add_edge(a, b).wf(),
        g.add_edge(a, b).is_directed,
        g.add_edge(a, b).vertices == g.vertices,
        g.add_edge(a, b).adjacent[a as int] == g.adjacent[a as int].push(b),
        g.add_edge(a, b).adjacent[a as int].contains(b),
        forall|c: int|
            0 <= c < g.num_vertices() && c != a ==> #[trigger] g.add_edge(a, b).adjacent[c]
                == g.adjacent[c],
        b != a ==> g.add_edge(a, b).adjacent[b as int] == g.adjacent[b as int],
        g.add_edge(a, b).num_edges() == g.num_edges() + 1,
{
    lemma_add_arc(g, a, b);
    let list = g.adjacent[a as int].push(b);
    assert(list[list.len() - 1] == b);
}

/// An edge added to an undirected graph is appended to the neighbours of `a`
/// and then to those of `b`, so that each of the two is a neighbour of the
/// other; every other list stays as it is. The number of edges grows by two.
pub proof fn lemma_add_edge_undirected(g: GraphModel, a: nat, b: nat)
    requires
        g.wf(),
        !g.is_directed,
        a < g.num_vertices(),
        b < g.num_vertices(),
    ensures
        g.add_edge(a, b).wf(),
        !g.add_edge(a, b).is_directed,
        g.add_edge(a, b).vertices == g.vertices,
        a != b ==> g.add_edge(a, b).adjacent[a as int] == g.adjacent[a as int].push(b),
        a != b ==> g.add_edge(a, b).adjacent[b as int] == g.adjacent[b as int].push(a),
        a == b ==> g.add_edge(a, b).adjacent[a as int] == g.adjacent[a as int].push(a).push(a),
        g.add_edge(a, b).adjacent[a as int].contains(b),
        g.add_edge(a, b).adjacent[b as int].contains(a),
        forall|c: int|
            0 <= c < g.num_vertices() && c != a && c != b ==> #[trigger] g.add_edge(
                a,
                b,
            ).adjacent[c] == g.adjacent[c],
        g.add_edge(a, b).num_edges() == g.num_edges() + 2,
{
    let mid = g.add_arc(a, b);
    lemma_add_arc(g, a, b);
    lemma_add_arc(mid, b, a);
    let first = g.adjacent[a as int].push(b);
    let second = mid.adjacent[b as int].push(a);
    assert(first[first.len() - 1] == b);
    assert(second[second.len() - 1] == a);
    if a == b {
        assert(second[second.len() - 2] == b);
    } else {
        assert(g.add_edge(a, b).adjacent[a as int] == first);
    }
}

} // verus!
