//! The text form of vertices and graphs, for diagnostics.

use crate::model::{neighbor_ids, GraphModel, VertexModel};
use vstd::prelude::*;
use vstd::string::StringExecFns;

verus! {

/// The character that stands for the digit `d`.
pub open spec fn digit(d: nat) -> char
    recommends
        d < 10,
{
    if d == 0 {
        '0'
    } else if d == 1 {
        '1'
    } else if d == 2 {
        '2'
    } else if d == 3 {
        '3'
    } else if d == 4 {
        '4'
    } else if d == 5 {
        '5'
    } else if d == 6 {
        '6'
    } else if d == 7 {
        '7'
    } else if d == 8 {
        '8'
    } else {
        '9'
    }
}

/// `n` in decimal digits, without sign or leading zeros.
pub open spec fn decimal(n: nat) -> Seq<char>
    decreases n,
{
    if n < 10 {
        seq![digit(n)]
    } else {
        decimal(n / 10).push(digit(n % 10))
    }
}

/// The text of a vertex: `Vertex(id: 5)` for the vertex 5.
pub open spec fn vertex_text(v: VertexModel) -> Seq<char> {
    "Vertex(id: "@ + decimal(v.id) + ")"@
}

/// The neighbours in `list` in their order, each followed by a comma and a
/// space.
pub open spec fn neighbors_text(list: Seq<nat>) -> Seq<char>
    decreases list.len(),
{
    if list.len() == 0 {
        Seq::empty()
    } else {
        neighbors_text(list.drop_last()) + decimal(list.last()) + ", "@
    }
}

/// The line of the vertex at position `i`: its identifier, ` => `, its
/// neighbours in square brackets, a comma and a line feed.
pub open spec fn vertex_line(g: GraphModel, i: int) -> Seq<char>
    recommends
        g.has_lists(),
        0 <= i < g.vertices.len(),
{
    decimal(g.vertices[i].id) + " => ["@ + neighbors_text(g.adjacent[g.vertices[i].id as int])
        + "],\n"@
}

/// The lines of the first `count` vertices.
pub open spec fn vertex_lines(g: GraphModel, count: nat) -> Seq<char>
    recommends
        g.has_lists(),
        count <= g.vertices.len(),
    decreases count,
{
    if count == 0 {
        Seq::empty()
    } else {
        vertex_lines(g, (count - 1) as nat) + vertex_line(g, count - 1)
    }
}

/// The text of a graph: `DirectedGraph(` or `UndirectedGraph(`, the line of
/// each vertex in the order of the identifiers, and `)`.
pub open spec fn graph_text(g: GraphModel) -> Seq<char>
    recommends
        g.has_lists(),
{
    (if g.is_directed {
        "DirectedGraph("@
    } else {
        "UndirectedGraph("@
    }) + vertex_lines(g, g.vertices.len()) + ")"@
}

/// The one-character string of the digit `d`.
fn digit_str(d: usize) -> (s: &'static str)
    requires
        d < 10,
    ensures
        s@ == seq![digit(d as nat)],
{
    proof {
        reveal_strlit("0");
        reveal_strlit("1");
        reveal_strlit("2");
        reveal_strlit("3");
        reveal_strlit("4");
        reveal_strlit("5");
        reveal_strlit("6");
        reveal_strlit("7");
        reveal_strlit("8");
        reveal_strlit("9");
    }
    let s = match d {
        0 => "0",
        1 => "1",
        2 => "2",
        3 => "3",
        4 => "4",
        5 => "5",
        6 => "6",
        7 => "7",
        8 => "8",
        _ => "9",
    };
    assert(s@ =~= seq![digit(d as nat)]);
    s
}

/// Appends `n` in decimal digits to `out`.
pub fn push_decimal(out: &mut String, n: usize)
    ensures
        final(out)@ == old(out)@ + decimal(n as nat),
    decreases n,
{
    if n >= 10 {
        push_decimal(out, n / 10);
    }
    out.append(digit_str(n % 10));
    assert(out@ =~= old(out)@ + decimal(n as nat));
}

/// Appends each neighbour in `list`, followed by a comma and a space, to `out`.
pub fn push_neighbors(out: &mut String, list: &Vec<usize>)
    ensures
        final(out)@ == old(out)@ + neighbors_text(neighbor_ids(list@)),
{
    let ghost ids = neighbor_ids(list@);
    let mut j: usize = 0;
    while j < list.len()
        invariant
            j <= list.len(),
            ids == neighbor_ids(list@),
            out@ == old(out)@ + neighbors_text(ids.take(j as int)),
        decreases list.len() - j,
    {
        let ghost before = out@;
        push_decimal(out, list[j]);
        out.append(", ");
        proof {
            let next = ids.take(j + 1);
            assert(next.drop_last() =~= ids.take(j as int));
            assert(next.last() == list[j as int] as nat);
            assert(out@ =~= old(out)@ + neighbors_text(next));
        }
        j = j + 1;
    }
    assert(ids.take(j as int) =~= ids);
}

} // verus!
