//! Properties that relate several operations, proved over the store model.

use vstd::prelude::*;

use crate::engine::{
    apply_op, apply_ops, drop_families, droppable, edge_ref_of, fetch, is_delete, is_put_edge,
    is_put_node, linked, reserved, run_txn, tally, Contents, Graph, StoreOp,
};
use crate::error::GraphError;
use crate::ident::family_part;
use crate::record::{EdgeRecord, NodeRecord};
use crate::registry::{edge_permits, permits};
use crate::schema::{inbound_kinds, outbound_kinds, sources, targets, Schema, SchemaEdge};

verus! {

proof fn lemma_apply_one(s: Contents, ops: Seq<StoreOp>)
    requires
        ops.len() == 1,
    ensures
        apply_ops(s, ops) == apply_op(s, ops[0]),
{
    assert(ops.drop_last().len() == 0);
    assert(apply_ops(s, ops.drop_last()) == s);
    assert(ops.last() == ops[0]);
}

proof fn lemma_apply_two(s: Contents, ops: Seq<StoreOp>)
    requires
        ops.len() == 2,
    ensures
        apply_ops(s, ops) == apply_op(apply_op(s, ops[0]), ops[1]),
{
    lemma_apply_one(s, ops.drop_last());
    assert(ops.drop_last()[0] == ops[0]);
}

proof fn lemma_apply_three(s: Contents, ops: Seq<StoreOp>)
    requires
        ops.len() == 3,
    ensures
        apply_ops(s, ops) == apply_op(apply_op(apply_op(s, ops[0]), ops[1]), ops[2]),
{
    lemma_apply_two(s, ops.drop_last());
    assert(ops.drop_last()[0] == ops[0]);
    assert(ops.drop_last()[1] == ops[1]);
}

/// Adding a node and then reading it back by its identifier yields the node added.
pub proof fn lemma_add_then_get_node(g: Graph, s: Contents, node: NodeRecord, ops: Seq<StoreOp>)
    requires
        g.in_sync(s),
        g.location(node.id@) is Ok,
        ops.len() == 1,
        is_put_node(ops[0], g.location(node.id@)->Ok_0, node@),
    ensures
        g.node_read(node.id@, fetch(run_txn(s, ops, false), node.id@)) matches Ok(n) && n@
            == node@,
{
    lemma_apply_one(s, ops);
}

/// Removing a node and then reading it by its identifier fails with `KeyNotFound`.
pub proof fn lemma_remove_then_get_node(g: Graph, s: Contents, id: Seq<char>, ops: Seq<StoreOp>)
    requires
        g.in_sync(s),
        g.location(id) is Ok,
        ops.len() == 1,
        is_delete(ops[0], g.location(id)->Ok_0, id),
    ensures
        g.node_read(id, fetch(run_txn(s, ops, false), id)) == Err::<NodeRecord, GraphError>(
            GraphError::KeyNotFound,
        ),
{
    lemma_apply_one(s, ops);
}

/// The writes that `add_edge` hands back for `edge` from `from` to `to`.
pub open spec fn add_edge_writes(
    g: Graph,
    edge: EdgeRecord,
    from: NodeRecord,
    to: NodeRecord,
    ops: Seq<StoreOp>,
) -> bool {
    &&& g.location(edge.id@) is Ok
    &&& g.location(from.id@) is Ok
    &&& g.location(to.id@) is Ok
    &&& is_put_edge(ops[0], g.location(edge.id@)->Ok_0, edge@)
    &&& if from.id@ == to.id@ {
        ops.len() == 2 && is_put_node(ops[1], g.location(from.id@)->Ok_0, linked(from, edge, true, true))
    } else {
        &&& ops.len() == 3
        &&& is_put_node(ops[1], g.location(from.id@)->Ok_0, linked(from, edge, true, false))
        &&& is_put_node(ops[2], g.location(to.id@)->Ok_0, linked(to, edge, false, true))
    }
}

/// After `add_edge(edge, from, to)` commits, `from` holds the edge among its outbound
/// refs, tagged with the edge's kind, `to` holds it among its inbound refs, and the
/// stored edge links exactly `from` and `to`.
pub proof fn lemma_add_edge_links(
    g: Graph,
    s: Contents,
    edge: EdgeRecord,
    from: NodeRecord,
    to: NodeRecord,
    ops: Seq<StoreOp>,
)
    requires
        g.in_sync(s),
        edge.connection.from@ == from.id@,
        edge.connection.to@ == to.id@,
        edge.id@ != from.id@,
        edge.id@ != to.id@,
        add_edge_writes(g, edge, from, to, ops),
    ensures
        ({
            let t = run_txn(s, ops, false);
            &&& g.node_read(from.id@, fetch(t, from.id@)) matches Ok(a)
                && a.out_edge_ids@.contains(edge_ref_of(edge))
            &&& g.node_read(to.id@, fetch(t, to.id@)) matches Ok(b) && b.in_edge_ids@.contains(
                edge_ref_of(edge),
            )
            &&& g.edge_read(edge.id@, fetch(t, edge.id@)) matches Ok(e) && e@ == edge@
                && e.connection.from@ == from.id@ && e.connection.to@ == to.id@
        }),
{
    let r = edge_ref_of(edge);
    if from.id@ == to.id@ {
        lemma_apply_two(s, ops);
        let v = linked(from, edge, true, true);
        assert(v.1[v.1.len() - 1] == r);
        assert(v.2[v.2.len() - 1] == r);
    } else {
        lemma_apply_three(s, ops);
        let v = linked(from, edge, true, false);
        let w = linked(to, edge, false, true);
        assert(v.2[v.2.len() - 1] == r);
        assert(w.1[w.1.len() - 1] == r);
    }
}

/// `add_edge` is one transaction: where any of its writes or its commit fails, none of
/// the three records changes; where it commits, all of them do.
pub proof fn lemma_add_edge_atomic(
    g: Graph,
    s: Contents,
    edge: EdgeRecord,
    from: NodeRecord,
    to: NodeRecord,
    ops: Seq<StoreOp>,
)
    requires
        g.in_sync(s),
        edge.connection.from@ == from.id@,
        edge.connection.to@ == to.id@,
        edge.id@ != from.id@,
        edge.id@ != to.id@,
        add_edge_writes(g, edge, from, to, ops),
    ensures
        fetch(run_txn(s, ops, true), edge.id@) == fetch(s, edge.id@),
        fetch(run_txn(s, ops, true), from.id@) == fetch(s, from.id@),
        fetch(run_txn(s, ops, true), to.id@) == fetch(s, to.id@),
        g.edge_read(edge.id@, fetch(run_txn(s, ops, false), edge.id@)) matches Ok(e) && e@
            == edge@,
{
    lemma_add_edge_links(g, s, edge, from, to, ops);
}

proof fn lemma_droppable_keeps(fams: Seq<Seq<char>>, f: Seq<char>)
    requires
        fams.contains(f),
        f != reserved(),
    ensures
        droppable(fams).contains(f),
    decreases fams.len(),
{
    if fams.last() == f {
        assert(droppable(fams).last() == f);
    } else {
        let i = choose|i: int| 0 <= i < fams.len() && fams[i] == f;
        assert(fams.drop_last()[i] == f);
        lemma_droppable_keeps(fams.drop_last(), f);
        let d = droppable(fams.drop_last());
        let j = choose|j: int| 0 <= j < d.len() && d[j] == f;
        if fams.last() != reserved() {
            assert(d.push(fams.last())[j] == f);
        }
    }
}

/// Dropping every listed family but the reserved one leaves no record in any other
/// family, where the list holds every family of the store.
pub proof fn lemma_destroy_then_count(s: Contents, listed: Seq<Seq<char>>, counted: Seq<Seq<char>>)
    requires
        forall|f: Seq<char>| s.contains_key(f) ==> listed.contains(f),
        forall|i: int| 0 <= i < counted.len() ==> counted[i] != reserved(),
    ensures
        tally(drop_families(s, droppable(listed)), counted) == 0,
    decreases counted.len(),
{
    if counted.len() > 0 {
        let t = drop_families(s, droppable(listed));
        let f = counted.last();
        assert(counted[counted.len() - 1] != reserved());
        if s.contains_key(f) {
            lemma_droppable_keeps(listed, f);
        }
        assert(!t.contains_key(f));
        lemma_destroy_then_count(s, listed, counted.drop_last());
    }
}

proof fn lemma_kinds_grow(edges: Seq<SchemaEdge>, n: Seq<char>, k: Seq<char>)
    requires
        edges.len() > 0,
        outbound_kinds(edges.drop_last(), n).contains(k) || inbound_kinds(edges.drop_last(), n).contains(k),
    ensures
        outbound_kinds(edges.drop_last(), n).contains(k) ==> outbound_kinds(edges, n).contains(k),
        inbound_kinds(edges.drop_last(), n).contains(k) ==> inbound_kinds(edges, n).contains(k),
{
    if outbound_kinds(edges.drop_last(), n).contains(k) {
        let o = outbound_kinds(edges.drop_last(), n);
        let j = choose|j: int| 0 <= j < o.len() && o[j] == k;
        if sources(edges.last(), n) {
            assert(o.push(edges.last().name@)[j] == k);
        }
    }
    if inbound_kinds(edges.drop_last(), n).contains(k) {
        let o = inbound_kinds(edges.drop_last(), n);
        let j = choose|j: int| 0 <= j < o.len() && o[j] == k;
        if targets(edges.last(), n) {
            assert(o.push(edges.last().name@)[j] == k);
        }
    }
}

proof fn lemma_rule_in_kinds(edges: Seq<SchemaEdge>, i: int, j: int)
    requires
        0 <= i < edges.len(),
        0 <= j < edges[i].connections@.len(),
    ensures
        outbound_kinds(edges, edges[i].connections@[j].from@).contains(edges[i].name@),
        inbound_kinds(edges, edges[i].connections@[j].to@).contains(edges[i].name@),
    decreases edges.len(),
{
    let c = edges[i].connections@[j];
    let k = edges[i].name@;
    if i == edges.len() - 1 {
        assert(sources(edges.last(), c.from@));
        assert(targets(edges.last(), c.to@));
        assert(outbound_kinds(edges, c.from@).last() == k);
        assert(inbound_kinds(edges, c.to@).last() == k);
    } else {
        assert(edges.drop_last()[i] == edges[i]);
        lemma_rule_in_kinds(edges.drop_last(), i, j);
        lemma_kinds_grow(edges, c.from@, k);
        lemma_kinds_grow(edges, c.to@, k);
    }
}

/// An edge kind that a rule lets link node kind `f` to node kind `t` is among the
/// outbound ref kinds of `f` and the inbound ref kinds of `t`.
pub proof fn lemma_permitted_edge_in_ref_kinds(
    s: Schema,
    edge: Seq<char>,
    rule: Seq<char>,
    f: Seq<char>,
    t: Seq<char>,
)
    requires
        permits(s, edge, rule, f, t),
    ensures
        outbound_kinds(s.edges@, f).contains(edge),
        inbound_kinds(s.edges@, t).contains(edge),
{
    let i = choose|i: int|
        0 <= i < s.edges@.len() && (#[trigger] s.edges@[i]).name@ == edge
            && edge_permits(s.edges@[i], rule, f, t);
    let e = s.edges@[i];
    let j = choose|j: int|
        0 <= j < e.connections@.len() && {
            let c = #[trigger] e.connections@[j];
            c.name@ == rule && c.from@ == f && c.to@ == t
        };
    lemma_rule_in_kinds(s.edges@, i, j);
}

} // verus!
