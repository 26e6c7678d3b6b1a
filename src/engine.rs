//! The graph engine. Each operation is decided here: the partition it touches, the
//! error it fails with, and the exact writes that one atomic store transaction must
//! carry. The store's contents are modelled as a map from family to records by key.

use vstd::prelude::*;
use vstd::string::*;

use crate::error::GraphError;
use crate::ident::{family_of, family_part};
use crate::lookup::{contains_name, names};
use crate::record::{EdgeRecord, EdgeRef, Node, NodeRecord};

verus! {

/// A record as the store holds it under its key.
#[derive(Debug, Clone)]
pub enum Stored {
    Node(NodeRecord),
    Edge(EdgeRecord),
}

/// One write of a transaction.
#[derive(Debug, Clone)]
pub enum StoreOp {
    Put { family: String, key: String, value: Stored },
    Delete { family: String, key: String },
}

/// What a point read at a record's key gave back.
#[derive(Debug, Clone)]
pub enum Fetched {
    Absent,
    Found(Stored),
    /// The bytes under the key do not decode as a record.
    Undecodable,
}

/// The contents of the store: for each family, its records by key.
pub type Contents = Map<Seq<char>, Map<Seq<char>, Stored>>;

/// The name of the family that is never dropped.
pub open spec fn reserved() -> Seq<char> {
    seq!['d', 'e', 'f', 'a', 'u', 'l', 't']
}

pub open spec fn apply_op(s: Contents, op: StoreOp) -> Contents {
    match op {
        StoreOp::Put { family, key, value } => if s.contains_key(family@) {
            s.insert(family@, s[family@].insert(key@, value))
        } else {
            s
        },
        StoreOp::Delete { family, key } => if s.contains_key(family@) {
            s.insert(family@, s[family@].remove(key@))
        } else {
            s
        },
    }
}

/// The writes of `ops`, in order.
pub open spec fn apply_ops(s: Contents, ops: Seq<StoreOp>) -> Contents
    decreases ops.len(),
{
    if ops.len() == 0 {
        s
    } else {
        apply_op(apply_ops(s, ops.drop_last()), ops.last())
    }
}

/// A transaction: every write of `ops` where it commits, none where any write or the
/// commit fails.
pub open spec fn run_txn(s: Contents, ops: Seq<StoreOp>, failed: bool) -> Contents {
    if failed {
        s
    } else {
        apply_ops(s, ops)
    }
}

/// What a point read of the record `id` gives on contents `s`.
pub open spec fn fetch(s: Contents, id: Seq<char>) -> Fetched {
    match family_part(id) {
        Some(f) => if s.contains_key(f) && s[f].contains_key(id) {
            Fetched::Found(s[f][id])
        } else {
            Fetched::Absent
        },
        None => Fetched::Absent,
    }
}

/// `s` without the families of `fams`.
pub open spec fn drop_families(s: Contents, fams: Seq<Seq<char>>) -> Contents {
    s.remove_keys(fams.to_set())
}

/// The families of `fams` other than the reserved one, in order.
pub open spec fn droppable(fams: Seq<Seq<char>>) -> Seq<Seq<char>>
    decreases fams.len(),
{
    if fams.len() == 0 {
        fams
    } else if fams.last() == reserved() {
        droppable(fams.drop_last())
    } else {
        droppable(fams.drop_last()).push(fams.last())
    }
}

/// The kinds of `kinds` that are not in `known`, each once, in order of first occurrence.
pub open spec fn missing(known: Seq<Seq<char>>, kinds: Seq<Seq<char>>) -> Seq<Seq<char>>
    decreases kinds.len(),
{
    if kinds.len() == 0 {
        Seq::empty()
    } else {
        let m = missing(known, kinds.drop_last());
        if (known + m).contains(kinds.last()) {
            m
        } else {
            m.push(kinds.last())
        }
    }
}

/// The number of records held in the families of `fams`.
pub open spec fn tally(s: Contents, fams: Seq<Seq<char>>) -> nat
    decreases fams.len(),
{
    if fams.len() == 0 {
        0
    } else {
        tally(s, fams.drop_last()) + if s.contains_key(fams.last()) {
            s[fams.last()].len()
        } else {
            0
        }
    }
}

pub open spec fn total(v: Seq<usize>) -> int
    decreases v.len(),
{
    if v.len() == 0 {
        0
    } else {
        total(v.drop_last()) + v.last()
    }
}

pub open spec fn is_put_node(op: StoreOp, f: Seq<char>, v: <NodeRecord as View>::V) -> bool {
    match op {
        StoreOp::Put { family, key, value } => family@ == f && key@ == v.0 && match value {
            Stored::Node(n) => n@ == v,
            _ => false,
        },
        _ => false,
    }
}

pub open spec fn is_put_edge(op: StoreOp, f: Seq<char>, v: <EdgeRecord as View>::V) -> bool {
    match op {
        StoreOp::Put { family, key, value } => family@ == f && key@ == v.0 && match value {
            Stored::Edge(e) => e@ == v,
            _ => false,
        },
        _ => false,
    }
}

pub open spec fn is_delete(op: StoreOp, f: Seq<char>, k: Seq<char>) -> bool {
    match op {
        StoreOp::Delete { family, key } => family@ == f && key@ == k,
        _ => false,
    }
}

/// The reference to edge `e` that its endpoints record: its identifier, tagged with its kind.
pub open spec fn edge_ref_of(e: EdgeRecord) -> EdgeRef {
    EdgeRef { kind: e.connection.edge, id: e.id }
}

/// Node `n` once `e` is recorded among its outbound refs (`out`) and inbound refs (`inb`).
pub open spec fn linked(n: NodeRecord, e: EdgeRecord, out: bool, inb: bool) -> <NodeRecord as View>::V {
    (
        n.id@,
        if inb {
            n.in_edge_ids@.push(edge_ref_of(e))
        } else {
            n.in_edge_ids@
        },
        if out {
            n.out_edge_ids@.push(edge_ref_of(e))
        } else {
            n.out_edge_ids@
        },
        n.fields@,
    )
}

/// The state of the engine: where the store lives and which families it holds.
#[derive(Debug)]
pub struct Graph {
    pub path: String,
    pub families: Vec<String>,
}

impl Graph {
    pub open spec fn knows(&self, f: Seq<char>) -> bool {
        names(self.families@).contains(f)
    }

    /// Every family that the engine knows exists in the store.
    pub open spec fn in_sync(&self, s: Contents) -> bool {
        forall|f: Seq<char>| self.knows(f) ==> s.contains_key(f)
    }

    /// The family holding the record `id`, recovered from the identifier alone.
    pub open spec fn location(&self, id: Seq<char>) -> Result<Seq<char>, GraphError> {
        match family_part(id) {
            None => Err(GraphError::IdentifierParseFailed),
            Some(f) => if self.knows(f) {
                Ok(f)
            } else {
                Err(GraphError::PartitionNotFound)
            },
        }
    }

    /// What a read of node `id` yields, given what the store gave back.
    pub open spec fn node_read(&self, id: Seq<char>, fetched: Fetched) -> Result<NodeRecord, GraphError> {
        match self.location(id) {
            Err(e) => Err(e),
            Ok(_) => match fetched {
                Fetched::Absent => Err(GraphError::KeyNotFound),
                Fetched::Found(Stored::Node(n)) => Ok(n),
                _ => Err(GraphError::DecodeFailed),
            },
        }
    }

    /// What a read of edge `id` yields, given what the store gave back.
    pub open spec fn edge_read(&self, id: Seq<char>, fetched: Fetched) -> Result<EdgeRecord, GraphError> {
        match self.location(id) {
            Err(e) => Err(e),
            Ok(_) => match fetched {
                Fetched::Absent => Err(GraphError::KeyNotFound),
                Fetched::Found(Stored::Edge(e)) => Ok(e),
                _ => Err(GraphError::DecodeFailed),
            },
        }
    }

    /// An engine over the store at `path`, which holds the families `existing`.
    pub fn new(path: &str, existing: Vec<String>) -> (g: Graph)
        ensures
            g.path@ == path@,
            g.families@ == existing@,
    {
        Graph { path: String::from_str(path), families: existing }
    }

    /// Records `family_name` as a family of the store; true where it was not one yet,
    /// so that the store must create it.
    pub fn create_family_if_not_exists(&mut self, family_name: &str) -> (created: bool)
        ensures
            created == !old(self).knows(family_name@),
            names(final(self).families@) == if created {
                names(old(self).families@).push(family_name@)
            } else {
                names(old(self).families@)
            },
            final(self).path == old(self).path,
    {
        let f = String::from_str(family_name);
        if contains_name(&self.families, &f) {
            false
        } else {
            self.families.push(f);
            assert(names(self.families@) =~= names(old(self).families@).push(family_name@));
            true
        }
    }

    /// Records every kind of `kinds` as a family; returns those that were not known
    /// yet, each once and in order, which the store must create.
    pub fn ensure_families(&mut self, kinds: &Vec<String>) -> (created: Vec<String>)
        ensures
            names(created@) == missing(names(old(self).families@), names(kinds@)),
            names(final(self).families@) == names(old(self).families@) + names(created@),
            forall|i: int| 0 <= i < kinds@.len() ==> final(self).knows(#[trigger] kinds@[i]@),
            final(self).path == old(self).path,
    {
        let ghost known = names(self.families@);
        let mut created: Vec<String> = Vec::new();
        let mut i: usize = 0;
        while i < kinds.len()
            invariant
                i <= kinds@.len(),
                self.path == old(self).path,
                known == names(old(self).families@),
                names(created@) == missing(known, names(kinds@).subrange(0, i as int)),
                names(self.families@) == known + names(created@),
                forall|j: int| 0 <= j < i ==> self.knows(#[trigger] kinds@[j]@),
            decreases kinds@.len() - i,
        {
            let k = &kinds[i];
            let ghost before = names(self.families@);
            let ghost prev = names(created@);
            assert(names(kinds@).subrange(0, i + 1).drop_last() =~= names(kinds@).subrange(
                0,
                i as int,
            ));
            assert(names(kinds@).subrange(0, i + 1).last() == k@);
            if self.create_family_if_not_exists(k.as_str()) {
                created.push(k.clone());
                assert(names(created@) =~= prev.push(k@));
                assert(names(self.families@) =~= known + names(created@));
            }
            assert(names(self.families@)[names(self.families@).len() - 1] == k@ || before.contains(
                k@,
            ));
            assert forall|j: int| 0 <= j < i + 1 implies self.knows(#[trigger] kinds@[j]@) by {
                if j < i {
                    let w = choose|w: int| 0 <= w < before.len() && before[w] == kinds@[j]@;
                    assert(names(self.families@)[w] == kinds@[j]@);
                } else if before.contains(k@) {
                    let w = choose|w: int| 0 <= w < before.len() && before[w] == k@;
                    assert(names(self.families@)[w] == k@);
                }
            }
            i = i + 1;
        }
        assert(names(kinds@).subrange(0, i as int) =~= names(kinds@));
        created
    }

    /// The family holding the record `id`.
    pub fn locate(&self, id: &str) -> (r: Result<String, GraphError>)
        ensures
            match self.location(id@) {
                Ok(f) => r matches Ok(s) && s@ == f,
                Err(e) => r == Err::<String, GraphError>(e),
            },
    {
        let f = match family_of(id) {
            Ok(f) => f,
            Err(e) => return Err(e),
        };
        if contains_name(&self.families, &f) {
            Ok(f)
        } else {
            Err(GraphError::PartitionNotFound)
        }
    }

    /// The transaction that stores `node` under its identifier in its kind's family.
    pub fn add_node(&self, node: NodeRecord) -> (r: Result<Vec<StoreOp>, GraphError>)
        ensures
            match self.location(node.id@) {
                Ok(f) => r matches Ok(ops) && ops@.len() == 1 && is_put_node(ops@[0], f, node@),
                Err(e) => r == Err::<Vec<StoreOp>, GraphError>(e),
            },
    {
        let family = match self.locate(node.id.as_str()) {
            Ok(f) => f,
            Err(e) => return Err(e),
        };
        let key = node.id.clone();
        let mut ops: Vec<StoreOp> = Vec::new();
        ops.push(StoreOp::Put { family, key, value: Stored::Node(node) });
        Ok(ops)
    }

    /// The transaction that overwrites `node` in place at its identifier.
    pub fn update_node(&self, node: &NodeRecord) -> (r: Result<Vec<StoreOp>, GraphError>)
        ensures
            match self.location(node.id@) {
                Ok(f) => r matches Ok(ops) && ops@.len() == 1 && is_put_node(ops@[0], f, node@),
                Err(e) => r == Err::<Vec<StoreOp>, GraphError>(e),
            },
    {
        self.add_node(node.duplicate())
    }

    /// The transaction that writes `node` at its identifier, as `update_node` does.
    pub fn save_node(&self, node: &NodeRecord) -> (r: Result<Vec<StoreOp>, GraphError>)
        ensures
            match self.location(node.id@) {
                Ok(f) => r matches Ok(ops) && ops@.len() == 1 && is_put_node(ops@[0], f, node@),
                Err(e) => r == Err::<Vec<StoreOp>, GraphError>(e),
            },
    {
        self.update_node(node)
    }

    /// The node `node_id`, from what the store gave back for its key.
    pub fn get_node(&self, node_id: &str, fetched: Fetched) -> (r: Result<NodeRecord, GraphError>)
        ensures
            r == self.node_read(node_id@, fetched),
    {
        match self.locate(node_id) {
            Ok(_) => {},
            Err(e) => return Err(e),
        }
        match fetched {
            Fetched::Absent => Err(GraphError::KeyNotFound),
            Fetched::Found(Stored::Node(n)) => Ok(n),
            _ => Err(GraphError::DecodeFailed),
        }
    }

    /// The transaction that deletes the record `node_id`. Edges that reference the node
    /// are left as they are.
    pub fn remove_node(&self, node_id: &str) -> (r: Result<Vec<StoreOp>, GraphError>)
        ensures
            match self.location(node_id@) {
                Ok(f) => r matches Ok(ops) && ops@.len() == 1 && is_delete(ops@[0], f, node_id@),
                Err(e) => r == Err::<Vec<StoreOp>, GraphError>(e),
            },
    {
        let family = match self.locate(node_id) {
            Ok(f) => f,
            Err(e) => return Err(e),
        };
        let mut ops: Vec<StoreOp> = Vec::new();
        ops.push(StoreOp::Delete { family, key: String::from_str(node_id) });
        Ok(ops)
    }

    /// The one transaction that stores `edge`, records it among the outbound refs of
    /// `from` and the inbound refs of `to`, and writes both nodes back. Where `from` and
    /// `to` are one node, that node is written once with both refs.
    pub fn add_edge(&self, edge: EdgeRecord, from: NodeRecord, to: NodeRecord) -> (r: Result<
        Vec<StoreOp>,
        GraphError,
    >)
        requires
            edge.connection.from@ == from.id@,
            edge.connection.to@ == to.id@,
        ensures
            match (self.location(edge.id@), self.location(from.id@), self.location(to.id@)) {
                (Err(e), _, _) => r == Err::<Vec<StoreOp>, GraphError>(e),
                (Ok(_), Err(e), _) => r == Err::<Vec<StoreOp>, GraphError>(e),
                (Ok(_), Ok(_), Err(e)) => r == Err::<Vec<StoreOp>, GraphError>(e),
                (Ok(ef), Ok(ff), Ok(tf)) => r matches Ok(ops) && is_put_edge(ops@[0], ef, edge@)
                    && if from.id@ == to.id@ {
                    ops@.len() == 2 && is_put_node(ops@[1], ff, linked(from, edge, true, true))
                } else {
                    &&& ops@.len() == 3
                    &&& is_put_node(ops@[1], ff, linked(from, edge, true, false))
                    &&& is_put_node(ops@[2], tf, linked(to, edge, false, true))
                },
            },
    {
        let ef = match self.locate(edge.id.as_str()) {
            Ok(f) => f,
            Err(e) => return Err(e),
        };
        let ff = match self.locate(from.id.as_str()) {
            Ok(f) => f,
            Err(e) => return Err(e),
        };
        let tf = match self.locate(to.id.as_str()) {
            Ok(f) => f,
            Err(e) => return Err(e),
        };
        let mut from = from;
        let mut to = to;
        let tag = EdgeRef { kind: edge.connection.edge.clone(), id: edge.id.clone() };
        let self_loop = from.id == to.id;
        from.add_out_edge_id(tag.duplicate());
        if self_loop {
            from.add_in_edge_id(tag);
        } else {
            to.add_in_edge_id(tag);
        }
        let mut ops: Vec<StoreOp> = Vec::new();
        let edge_key = edge.id.clone();
        ops.push(StoreOp::Put { family: ef, key: edge_key, value: Stored::Edge(edge) });
        let from_key = from.id.clone();
        ops.push(StoreOp::Put { family: ff, key: from_key, value: Stored::Node(from) });
        if !self_loop {
            let to_key = to.id.clone();
            ops.push(StoreOp::Put { family: tf, key: to_key, value: Stored::Node(to) });
        }
        Ok(ops)
    }

    /// The edge `edge_id`, from what the store gave back for its key.
    pub fn get_edge(&self, edge_id: &str, fetched: Fetched) -> (r: Result<EdgeRecord, GraphError>)
        ensures
            r == self.edge_read(edge_id@, fetched),
    {
        match self.locate(edge_id) {
            Ok(_) => {},
            Err(e) => return Err(e),
        }
        match fetched {
            Fetched::Absent => Err(GraphError::KeyNotFound),
            Fetched::Found(Stored::Edge(e)) => Ok(e),
            _ => Err(GraphError::DecodeFailed),
        }
    }

    /// The transaction that deletes the edge `edge_id`, which must be stored (as
    /// `fetched` shows). The refs its endpoints hold to it are left as they are.
    pub fn remove_edge(&self, edge_id: &str, fetched: Fetched) -> (r: Result<
        Vec<StoreOp>,
        GraphError,
    >)
        ensures
            match self.edge_read(edge_id@, fetched) {
                Ok(_) => r matches Ok(ops) && ops@.len() == 1 && is_delete(
                    ops@[0],
                    family_part(edge_id@)->0,
                    edge_id@,
                ),
                Err(e) => r == Err::<Vec<StoreOp>, GraphError>(e),
            },
    {
        let family = match self.locate(edge_id) {
            Ok(f) => f,
            Err(e) => return Err(e),
        };
        match fetched {
            Fetched::Absent => Err(GraphError::KeyNotFound),
            Fetched::Found(Stored::Edge(_)) => {
                let mut ops: Vec<StoreOp> = Vec::new();
                ops.push(StoreOp::Delete { family, key: String::from_str(edge_id) });
                Ok(ops)
            },
            _ => Err(GraphError::DecodeFailed),
        }
    }

    /// The families to drop out of `listed`, the families the store holds: all but the
    /// reserved one. The engine then knows no family.
    pub fn destroy_everything(&mut self, listed: &Vec<String>) -> (r: Vec<String>)
        ensures
            names(r@) == droppable(names(listed@)),
            final(self).families@.len() == 0,
            final(self).path == old(self).path,
    {
        let mut r: Vec<String> = Vec::new();
        let mut i: usize = 0;
        while i < listed.len()
            invariant
                i <= listed@.len(),
                names(r@) == droppable(names(listed@).subrange(0, i as int)),
            decreases listed@.len() - i,
        {
            let f = &listed[i];
            assert(names(listed@).subrange(0, i + 1).drop_last() =~= names(listed@).subrange(
                0,
                i as int,
            ));
            assert(names(listed@).subrange(0, i + 1).last() == f@);
            if !is_reserved(f) {
                r.push(f.clone());
                assert(names(r@) =~= names(r@).drop_last().push(f@));
            }
            i = i + 1;
        }
        assert(names(listed@).subrange(0, i as int) =~= names(listed@));
        self.families = Vec::new();
        r
    }

    /// The number of records in all, from the count of each family; `None` where the
    /// sum does not fit a `usize`.
    pub fn count_nodes(&self, tallies: &Vec<usize>) -> (r: Option<usize>)
        ensures
            r == if total(tallies@) <= usize::MAX {
                Some(total(tallies@) as usize)
            } else {
                None::<usize>
            },
    {
        let mut sum: usize = 0;
        let mut i: usize = 0;
        while i < tallies.len()
            invariant
                i <= tallies@.len(),
                sum == total(tallies@.subrange(0, i as int)),
            decreases tallies@.len() - i,
        {
            assert(tallies@.subrange(0, i + 1).drop_last() =~= tallies@.subrange(0, i as int));
            match sum.checked_add(tallies[i]) {
                Some(s) => {
                    sum = s;
                },
                None => {
                    proof {
                        lemma_total_grows(tallies@, i as int + 1);
                    }
                    return None;
                },
            }
            i = i + 1;
        }
        assert(tallies@.subrange(0, i as int) =~= tallies@);
        Some(sum)
    }
}

/// Family management of an engine.
pub trait GraphOperations {
    spec fn known(&self) -> Seq<Seq<char>>;

    /// Records a family; true where it was not known yet and must be created.
    fn create_node_family(&mut self, family_name: &str) -> (created: bool)
        ensures
            created == !old(self).known().contains(family_name@),
            final(self).known() == if created {
                old(self).known().push(family_name@)
            } else {
                old(self).known()
            },
    ;
}

impl GraphOperations for Graph {
    open spec fn known(&self) -> Seq<Seq<char>> {
        names(self.families@)
    }

    fn create_node_family(&mut self, family_name: &str) -> (created: bool) {
        self.create_family_if_not_exists(family_name)
    }
}

/// Sums never shrink as more counts are added.
pub proof fn lemma_total_grows(v: Seq<usize>, k: int)
    requires
        0 <= k <= v.len(),
    ensures
        total(v.subrange(0, k)) <= total(v),
    decreases v.len() - k,
{
    if k < v.len() {
        lemma_total_grows(v, k + 1);
        assert(v.subrange(0, k + 1).drop_last() =~= v.subrange(0, k));
    } else {
        assert(v.subrange(0, k) =~= v);
    }
}

fn is_reserved(f: &String) -> (r: bool)
    ensures
        r == (f@ == reserved()),
{
    let d = String::from_str("default");
    proof {
        reveal_strlit("default");
    }
    assert(d@ =~= reserved());
    *f == d
}

} // verus!
