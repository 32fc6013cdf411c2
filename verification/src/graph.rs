//! Graphs: vertices and, for each of them, the list of its neighbours.

use crate::model::{
    lemma_add_arc, lemma_total_len_prefix, lemma_total_len_push, neighbor_ids, total_len,
    GraphModel, VertexModel,
};
use crate::text::{graph_text, push_decimal, push_neighbors, vertex_lines};
use crate::vertex::Vertex;
use vstd::prelude::*;
use vstd::string::StringExecFns;

verus! {

/// A directed or undirected graph, stored as adjacency lists.
///
/// `adjacent[i]` holds the neighbours of `vertices[i]`. Vertices and edges are
/// only ever added. An edge may be added more than once and is then stored
/// more than once.
pub struct Graph {
    pub is_directed: bool,
    pub vertices: Vec<Vertex>,
    pub adjacent: Vec<Vec<usize>>,
}

impl View for Graph {
    type V = GraphModel;

    open spec fn view(&self) -> GraphModel {
        GraphModel {
            is_directed: self.is_directed,
            vertices: self.vertices@.map_values(|v: Vertex| v@),
            adjacent: self.adjacent@.map_values(|list: Vec<usize>| neighbor_ids(list@)),
        }
    }
}

impl Graph {
    /// The invariant of a graph: see [`GraphModel::wf`].
    pub open spec fn wf(&self) -> bool {
        self@.wf()
    }

    /// An empty graph, directed or not for as long as it lives.
    pub fn new(is_directed: bool) -> (g: Graph)
        ensures
            g@ == GraphModel::new(is_directed),
            g.wf(),
    {
        let g = Graph { is_directed, vertices: Vec::new(), adjacent: Vec::new() };
        assert(g@.vertices =~= Seq::empty());
        assert(g@.adjacent =~= Seq::empty());
        g
    }

    /// The number of vertices.
    pub fn num_vertices(&self) -> (n: usize)
        ensures
            n == self@.num_vertices(),
    {
        self.vertices.len()
    }

    /// The number of entries in all adjacency lists together: an edge of an
    /// undirected graph counts twice.
    pub fn num_edges(&self) -> (n: usize)
        requires
            self@.num_edges() <= usize::MAX,
        ensures
            n == self@.num_edges(),
    {
        let ghost lists = self@.adjacent;
        let mut n: usize = 0;
        let mut i: usize = 0;
        while i < self.adjacent.len()
            invariant
                lists == self@.adjacent,
                i <= self.adjacent.len(),
                n == total_len(lists.take(i as int)),
                total_len(lists) <= usize::MAX,
            decreases self.adjacent.len() - i,
        {
            proof {
                lemma_total_len_prefix(lists, i + 1);
                assert(lists.take(i + 1).drop_last() =~= lists.take(i as int));
            }
            n = n + self.adjacent[i].len();
            i = i + 1;
        }
        assert(lists.take(i as int) =~= lists);
        n
    }

    /// The vertex `id`, or `None` where the graph has no such vertex.
    pub fn get_vertex(&self, id: usize) -> (r: Option<&Vertex>)
        ensures
            match r {
                Some(v) => id < self.vertices.len() && *v == self.vertices[id as int]
                    && self@.get_vertex(id as nat) == Some(v@),
                None => self@.get_vertex(id as nat) is None,
            },
            r is None <==> id >= self@.num_vertices(),
            self.wf() ==> (r matches Some(v) ==> v.id == id),
    {
        if id < self.vertices.len() {
            Some(&self.vertices[id])
        } else {
            None
        }
    }

    /// The neighbours of the vertex `id` in the order in which the edges were
    /// added, or `None` where the graph has no such vertex.
    pub fn get_adjacent_vertices(&self, id: usize) -> (r: Option<&Vec<usize>>)
        ensures
            match r {
                Some(list) => {
                    &&& id < self.adjacent.len()
                    &&& *list == self.adjacent[id as int]
                    &&& self@.get_adjacent_vertices(id as nat) == Some(neighbor_ids(list@))
                    &&& list@.len() == self@.adjacent[id as int].len()
                    &&& forall|j: int|
                        0 <= j < list@.len() ==> #[trigger] list@[j] == self@.adjacent[id as int][j]
                },
                None => self@.get_adjacent_vertices(id as nat) is None,
            },
            r is None <==> id >= self@.adjacent.len(),
            self.wf() ==> (r is None <==> id >= self@.num_vertices()),
    {
        if id < self.adjacent.len() {
            Some(&self.adjacent[id])
        } else {
            None
        }
    }

    /// Adds a vertex without properties or neighbours and returns its
    /// identifier, which is the number of vertices before the call.
    pub fn add_vertex(&mut self) -> (id: usize)
        requires
            old(self).wf(),
        ensures
            final(self).wf(),
            id == old(self)@.num_vertices(),
            final(self)@ == old(self)@.add_vertex(),
            final(self)@.num_vertices() == old(self)@.num_vertices() + 1,
            final(self)@.num_edges() == old(self)@.num_edges(),
            final(self)@.get_vertex(id as nat) == Some(VertexModel::new(id as nat)),
            final(self)@.get_adjacent_vertices(id as nat) == Some(Seq::<nat>::empty()),
    {
        let n = self.num_vertices();
        let v = Vertex::new(n);
        self.vertices.push(v);
        self.adjacent.push(Vec::new());
        proof {
            assert(self@.vertices =~= old(self)@.vertices.push(VertexModel::new(n as nat)));
            assert(neighbor_ids(Seq::<usize>::empty()) =~= Seq::<nat>::empty());
            assert(self@.adjacent =~= old(self)@.adjacent.push(Seq::empty()));
            lemma_total_len_push(old(self)@.adjacent, Seq::empty());
        }
        n
    }

    /// Adds an edge from `from` to `to`: appends `to` to the neighbours of
    /// `from` and, in an undirected graph, `from` to the neighbours of `to`.
    pub fn add_edge(&mut self, from: usize, to: usize)
        requires
            old(self).wf(),
            from < old(self)@.num_vertices(),
            to < old(self)@.num_vertices(),
        ensures
            final(self).wf(),
            final(self)@ == old(self)@.add_edge(from as nat, to as nat),
            final(self)@.num_vertices() == old(self)@.num_vertices(),
            final(self)@.num_edges() == old(self)@.num_edges() + if old(self).is_directed {
                1nat
            } else {
                2nat
            },
    {
        self.adjacent[from].push(to);
        proof {
            let list = old(self)@.adjacent[from as int].push(to as nat);
            assert(neighbor_ids(self.adjacent[from as int]@) =~= list);
            assert(self@.adjacent =~= old(self)@.adjacent.update(from as int, list));
            assert(self@.vertices =~= old(self)@.vertices);
            lemma_add_arc(old(self)@, from as nat, to as nat);
        }
        if !self.is_directed {
            let ghost mid = self@;
            self.adjacent[to].push(from);
            proof {
                let list = mid.adjacent[to as int].push(from as nat);
                assert(neighbor_ids(self.adjacent[to as int]@) =~= list);
                assert(self@.adjacent =~= mid.adjacent.update(to as int, list));
                assert(self@.vertices =~= mid.vertices);
                lemma_add_arc(mid, to as nat, from as nat);
            }
        }
    }

    /// The text of this graph: whether it is directed, and each vertex with
    /// its neighbours, in the order in which they were added.
    pub fn to_string(&self) -> (s: String)
        requires
            self@.has_lists(),
        ensures
            s@ == graph_text(self@),
    {
        let mut s = String::new();
        if self.is_directed {
            s.append("DirectedGraph(");
        } else {
            s.append("UndirectedGraph(");
        }
        let ghost head = s@;
        let mut i: usize = 0;
        while i < self.vertices.len()
            invariant
                self@.has_lists(),
                i <= self.vertices.len(),
                s@ == head + vertex_lines(self@, i as nat),
            decreases self.vertices.len() - i,
        {
            let v = &self.vertices[i];
            assert(self@.vertices[i as int].id == v.id);
            push_decimal(&mut s, v.id);
            s.append(" => [");
            match self.get_adjacent_vertices(v.id) {
                Some(list) => {
                    push_neighbors(&mut s, list);
                },
                None => {},
            }
            s.append("],\n");
            i = i + 1;
        }
        s.append(")");
        s
    }
}

} // verus!
