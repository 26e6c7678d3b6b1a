//! Typed node and edge records, the references a node keeps to its edges, and the
//! capability traits the engine is written against.

use vstd::prelude::*;
use vstd::string::*;

use crate::ident::family_part;

verus! {

/// A value of a declared field.
#[derive(Debug, Clone, PartialEq, Eq)]
pub enum FieldValue {
    Text(String),
    Int(i64),
    Bool(bool),
}

#[derive(Debug, Clone, PartialEq, Eq)]
pub struct Field {
    pub name: String,
    pub value: FieldValue,
}

/// An edge identifier as a node's ref set holds it, tagged with the edge's kind.
#[derive(Debug, Clone, PartialEq, Eq)]
pub struct EdgeRef {
    pub kind: String,
    pub id: String,
}

/// The rule an edge was built under and the two node identifiers it links.
#[derive(Debug, Clone, PartialEq, Eq)]
pub struct Connection {
    pub edge: String,
    pub rule: String,
    pub from: String,
    pub to: String,
}

#[derive(Debug, Clone, PartialEq, Eq)]
pub struct NodeRecord {
    pub id: String,
    pub in_edge_ids: Vec<EdgeRef>,
    pub out_edge_ids: Vec<EdgeRef>,
    pub fields: Vec<Field>,
}

#[derive(Debug, Clone, PartialEq, Eq)]
pub struct EdgeRecord {
    pub id: String,
    pub connection: Connection,
    pub fields: Vec<Field>,
}

impl View for EdgeRef {
    type V = (Seq<char>, Seq<char>);

    open spec fn view(&self) -> (Seq<char>, Seq<char>) {
        (self.kind@, self.id@)
    }
}

impl View for NodeRecord {
    /// Identifier, inbound refs, outbound refs, fields.
    type V = (Seq<char>, Seq<EdgeRef>, Seq<EdgeRef>, Seq<Field>);

    open spec fn view(&self) -> Self::V {
        (self.id@, self.in_edge_ids@, self.out_edge_ids@, self.fields@)
    }
}

impl View for EdgeRecord {
    /// Identifier, connection, fields.
    type V = (Seq<char>, Connection, Seq<Field>);

    open spec fn view(&self) -> Self::V {
        (self.id@, self.connection, self.fields@)
    }
}

/// The ref set `s` with every entry equal to `r` taken out.
pub open spec fn without(s: Seq<EdgeRef>, r: (Seq<char>, Seq<char>)) -> Seq<EdgeRef>
    decreases s.len(),
{
    if s.len() == 0 {
        s
    } else {
        let rest = without(s.drop_last(), r);
        if s.last()@ == r {
            rest
        } else {
            rest.push(s.last())
        }
    }
}

pub proof fn lemma_without_absent(s: Seq<EdgeRef>, r: (Seq<char>, Seq<char>))
    ensures
        forall|i: int| 0 <= i < without(s, r).len() ==> (#[trigger] without(s, r)[i])@ != r,
    decreases s.len(),
{
    if s.len() > 0 {
        let rest = without(s.drop_last(), r);
        lemma_without_absent(s.drop_last(), r);
        if s.last()@ != r {
            let t = rest.push(s.last());
            assert forall|i: int| 0 <= i < t.len() implies (#[trigger] t[i])@ != r by {
                if i < rest.len() {
                    assert(t[i] == rest[i]);
                }
            }
        }
    }
}

impl EdgeRef {
    pub fn new(kind: &str, id: &str) -> (r: EdgeRef)
        ensures
            r.kind@ == kind@,
            r.id@ == id@,
    {
        EdgeRef { kind: String::from_str(kind), id: String::from_str(id) }
    }

    pub fn duplicate(&self) -> (r: EdgeRef)
        ensures
            r == *self,
    {
        EdgeRef { kind: self.kind.clone(), id: self.id.clone() }
    }

    pub fn same(&self, other: &EdgeRef) -> (r: bool)
        ensures
            r == (self@ == other@),
    {
        self.kind == other.kind && self.id == other.id
    }
}

impl FieldValue {
    pub fn duplicate(&self) -> (r: FieldValue)
        ensures
            r == *self,
    {
        match self {
            FieldValue::Text(t) => FieldValue::Text(t.clone()),
            FieldValue::Int(i) => FieldValue::Int(*i),
            FieldValue::Bool(b) => FieldValue::Bool(*b),
        }
    }
}

impl Field {
    pub fn duplicate(&self) -> (r: Field)
        ensures
            r == *self,
    {
        Field { name: self.name.clone(), value: self.value.duplicate() }
    }
}

/// A copy of a field list.
pub fn copy_fields(v: &Vec<Field>) -> (r: Vec<Field>)
    ensures
        r@ == v@,
{
    let mut r: Vec<Field> = Vec::new();
    let mut i: usize = 0;
    while i < v.len()
        invariant
            i <= v@.len(),
            r@ == v@.subrange(0, i as int),
        decreases v@.len() - i,
    {
        r.push(v[i].duplicate());
        assert(r@ =~= v@.subrange(0, i + 1));
        i = i + 1;
    }
    assert(v@.subrange(0, i as int) =~= v@);
    assert(r@ == v@);
    r
}

impl Connection {
    pub fn duplicate(&self) -> (r: Connection)
        ensures
            r == *self,
    {
        Connection {
            edge: self.edge.clone(),
            rule: self.rule.clone(),
            from: self.from.clone(),
            to: self.to.clone(),
        }
    }
}

impl NodeRecord {
    pub fn duplicate(&self) -> (r: NodeRecord)
        ensures
            r@ == self@,
    {
        NodeRecord {
            id: self.id.clone(),
            in_edge_ids: copy_refs(&self.in_edge_ids),
            out_edge_ids: copy_refs(&self.out_edge_ids),
            fields: copy_fields(&self.fields),
        }
    }
}

impl EdgeRecord {
    pub fn duplicate(&self) -> (r: EdgeRecord)
        ensures
            r@ == self@,
    {
        EdgeRecord {
            id: self.id.clone(),
            connection: self.connection.duplicate(),
            fields: copy_fields(&self.fields),
        }
    }
}

/// A copy of a ref set.
pub fn copy_refs(v: &Vec<EdgeRef>) -> (r: Vec<EdgeRef>)
    ensures
        r@ == v@,
{
    let mut r: Vec<EdgeRef> = Vec::new();
    let mut i: usize = 0;
    while i < v.len()
        invariant
            i <= v@.len(),
            r@ == v@.subrange(0, i as int),
        decreases v@.len() - i,
    {
        r.push(v[i].duplicate());
        assert(r@ =~= v@.subrange(0, i + 1));
        i = i + 1;
    }
    assert(v@.subrange(0, i as int) =~= v@);
    assert(r@ == v@);
    r
}

/// The ref set `v` with every entry equal to `edge_id` taken out, the others kept in order.
pub fn remove_refs(v: &Vec<EdgeRef>, edge_id: &EdgeRef) -> (r: Vec<EdgeRef>)
    ensures
        r@ == without(v@, edge_id@),
{
    let mut r: Vec<EdgeRef> = Vec::new();
    let mut i: usize = 0;
    while i < v.len()
        invariant
            i <= v@.len(),
            r@ == without(v@.subrange(0, i as int), edge_id@),
        decreases v@.len() - i,
    {
        assert(v@.subrange(0, i + 1).drop_last() =~= v@.subrange(0, i as int));
        if !v[i].same(edge_id) {
            r.push(v[i].duplicate());
        }
        i = i + 1;
    }
    assert(v@.subrange(0, i as int) =~= v@);
    r
}

/// A record with an identifier whose prefix names the partition it lives in.
pub trait IceNode {
    spec fn id_view(&self) -> Seq<char>;

    fn id(&self) -> (r: &str)
        ensures
            r@ == self.id_view(),
    ;

    /// The partition named by the identifier, or `None` where it holds no `:`.
    fn family_name(&self) -> (r: Option<String>)
        ensures
            match family_part(self.id_view()) {
                Some(f) => r matches Some(s) && s@ == f,
                None => r is None,
            },
    ;
}

/// A record that keeps the edges it takes part in: inbound ones, where it is the
/// target, and outbound ones, where it is the source.
pub trait Node: IceNode {
    spec fn inbound(&self) -> Seq<EdgeRef>;

    spec fn outbound(&self) -> Seq<EdgeRef>;

    fn in_edge_ids(&self) -> (r: Vec<EdgeRef>)
        ensures
            r@ == self.inbound(),
    ;

    fn out_edge_ids(&self) -> (r: Vec<EdgeRef>)
        ensures
            r@ == self.outbound(),
    ;

    fn add_in_edge_id(&mut self, edge_id: EdgeRef)
        ensures
            final(self).inbound() == old(self).inbound().push(edge_id),
            final(self).outbound() == old(self).outbound(),
            final(self).id_view() == old(self).id_view(),
    ;

    /// Takes out every inbound entry equal to `edge_id`.
    fn remove_in_edge_id(&mut self, edge_id: &EdgeRef)
        ensures
            final(self).inbound() == without(old(self).inbound(), edge_id@),
            final(self).outbound() == old(self).outbound(),
            final(self).id_view() == old(self).id_view(),
    ;

    fn add_out_edge_id(&mut self, edge_id: EdgeRef)
        ensures
            final(self).outbound() == old(self).outbound().push(edge_id),
            final(self).inbound() == old(self).inbound(),
            final(self).id_view() == old(self).id_view(),
    ;

    /// Takes out every outbound entry equal to `edge_id`.
    fn remove_out_edge_id(&mut self, edge_id: &EdgeRef)
        ensures
            final(self).outbound() == without(old(self).outbound(), edge_id@),
            final(self).inbound() == old(self).inbound(),
            final(self).id_view() == old(self).id_view(),
    ;
}

/// An edge record seen through the two node identifiers it links.
pub trait IceEdge: IceNode {
    spec fn from_view(&self) -> Seq<char>;

    spec fn to_view(&self) -> Seq<char>;

    fn from_node_id(&self) -> (r: &str)
        ensures
            r@ == self.from_view(),
    ;

    fn to_node_id(&self) -> (r: &str)
        ensures
            r@ == self.to_view(),
    ;
}

fn family_of_id(id: &String) -> (r: Option<String>)
    ensures
        match family_part(id@) {
            Some(f) => r matches Some(s) && s@ == f,
            None => r is None,
        },
{
    match crate::ident::family_of(id.as_str()) {
        Ok(f) => Some(f),
        Err(_) => None,
    }
}

impl IceNode for NodeRecord {
    open spec fn id_view(&self) -> Seq<char> {
        self.id@
    }

    fn id(&self) -> (r: &str) {
        self.id.as_str()
    }

    fn family_name(&self) -> (r: Option<String>) {
        family_of_id(&self.id)
    }
}

impl Node for NodeRecord {
    open spec fn inbound(&self) -> Seq<EdgeRef> {
        self.in_edge_ids@
    }

    open spec fn outbound(&self) -> Seq<EdgeRef> {
        self.out_edge_ids@
    }

    fn in_edge_ids(&self) -> (r: Vec<EdgeRef>) {
        copy_refs(&self.in_edge_ids)
    }

    fn out_edge_ids(&self) -> (r: Vec<EdgeRef>) {
        copy_refs(&self.out_edge_ids)
    }

    fn add_in_edge_id(&mut self, edge_id: EdgeRef)
        ensures
            final(self).fields@ == old(self).fields@,
    {
        self.in_edge_ids.push(edge_id);
    }

    fn remove_in_edge_id(&mut self, edge_id: &EdgeRef)
        ensures
            final(self).fields@ == old(self).fields@,
    {
        self.in_edge_ids = remove_refs(&self.in_edge_ids, edge_id);
    }

    fn add_out_edge_id(&mut self, edge_id: EdgeRef)
        ensures
            final(self).fields@ == old(self).fields@,
    {
        self.out_edge_ids.push(edge_id);
    }

    fn remove_out_edge_id(&mut self, edge_id: &EdgeRef)
        ensures
            final(self).fields@ == old(self).fields@,
    {
        self.out_edge_ids = remove_refs(&self.out_edge_ids, edge_id);
    }
}

impl IceNode for EdgeRecord {
    open spec fn id_view(&self) -> Seq<char> {
        self.id@
    }

    fn id(&self) -> (r: &str) {
        self.id.as_str()
    }

    fn family_name(&self) -> (r: Option<String>) {
        family_of_id(&self.id)
    }
}

impl IceEdge for EdgeRecord {
    open spec fn from_view(&self) -> Seq<char> {
        self.connection.from@
    }

    open spec fn to_view(&self) -> Seq<char> {
        self.connection.to@
    }

    fn from_node_id(&self) -> (r: &str) {
        self.connection.from.as_str()
    }

    fn to_node_id(&self) -> (r: &str) {
        self.connection.to.as_str()
    }
}

} // verus!
