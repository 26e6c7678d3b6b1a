//! Building records against a compiled schema: only declared kinds, only their
//! declared fields, and only connections that a rule of the edge kind allows.

use vstd::prelude::*;
use vstd::string::*;

use crate::error::SchemaError;
use crate::ident::{compose, family_of, family_part, is_generated_token, new_id};
use crate::record::{Connection, EdgeRecord, Field, FieldValue, NodeRecord};
use crate::schema::{field_kind, kind_of_type, CompiledSchema, FieldKind, Schema, SchemaEdge, SchemaField};

verus! {

pub open spec fn has_rule(e: SchemaEdge, rule: Seq<char>) -> bool {
    exists|j: int| 0 <= j < e.connections@.len() && (#[trigger] e.connections@[j]).name@ == rule
}

/// Whether a rule of `e` named `rule` links node kind `f` to node kind `t`.
pub open spec fn edge_permits(e: SchemaEdge, rule: Seq<char>, f: Seq<char>, t: Seq<char>) -> bool {
    exists|j: int|
        0 <= j < e.connections@.len() && {
            let c = #[trigger] e.connections@[j];
            c.name@ == rule && c.from@ == f && c.to@ == t
        }
}

pub open spec fn declares_edge(s: Schema, edge: Seq<char>) -> bool {
    exists|i: int| 0 <= i < s.edges@.len() && (#[trigger] s.edges@[i]).name@ == edge
}

pub open spec fn declares_rule(s: Schema, edge: Seq<char>, rule: Seq<char>) -> bool {
    exists|i: int|
        0 <= i < s.edges@.len() && (#[trigger] s.edges@[i]).name@ == edge && has_rule(
            s.edges@[i],
            rule,
        )
}

/// Whether edge kind `edge` may link a node of kind `f` to a node of kind `t` under `rule`.
pub open spec fn permits(
    s: Schema,
    edge: Seq<char>,
    rule: Seq<char>,
    f: Seq<char>,
    t: Seq<char>,
) -> bool {
    exists|i: int|
        0 <= i < s.edges@.len() && (#[trigger] s.edges@[i]).name@ == edge && edge_permits(
            s.edges@[i],
            rule,
            f,
            t,
        )
}

/// Whether the identifiers `from` and `to` are of the node kinds that `rule` of `edge` links.
pub open spec fn endpoints_permitted(
    s: Schema,
    edge: Seq<char>,
    rule: Seq<char>,
    from: Seq<char>,
    to: Seq<char>,
) -> bool {
    match (family_part(from), family_part(to)) {
        (Some(f), Some(t)) => permits(s, edge, rule, f, t),
        _ => false,
    }
}

pub open spec fn value_kind(v: FieldValue) -> FieldKind {
    match v {
        FieldValue::Text(_) => FieldKind::Text,
        FieldValue::Int(_) => FieldKind::Int,
        FieldValue::Bool(_) => FieldKind::Bool,
    }
}

/// The given fields are the declared ones: same names in the same order, each value
/// of the kind its declared type names.
pub open spec fn fields_match(declared: Seq<SchemaField>, given: Seq<Field>) -> bool {
    &&& declared.len() == given.len()
    &&& forall|k: int|
        0 <= k < given.len() ==> {
            &&& (#[trigger] given[k]).name@ == declared[k].name@
            &&& kind_of_type(declared[k].ty@) == Some(value_kind(given[k].value))
        }
}

/// Whether node kind `kind` is declared with exactly the fields of `given`.
pub open spec fn node_shape_ok(s: Schema, kind: Seq<char>, given: Seq<Field>) -> bool {
    exists|i: int|
        0 <= i < s.nodes@.len() && (#[trigger] s.nodes@[i]).name@ == kind && fields_match(
            s.nodes@[i].fields@,
            given,
        )
}

pub open spec fn declares_node(s: Schema, kind: Seq<char>) -> bool {
    exists|i: int| 0 <= i < s.nodes@.len() && (#[trigger] s.nodes@[i]).name@ == kind
}

/// Whether edge kind `kind` is declared with exactly the fields of `given`.
pub open spec fn edge_shape_ok(s: Schema, kind: Seq<char>, given: Seq<Field>) -> bool {
    exists|i: int|
        0 <= i < s.edges@.len() && (#[trigger] s.edges@[i]).name@ == kind && fields_match(
            s.edges@[i].fields@,
            given,
        )
}

/// The identifier `id` is `kind:token` for the caller's token, or a generated one.
pub open spec fn id_made(id: Seq<char>, kind: Seq<char>, token: Option<String>) -> bool {
    match token {
        Some(t) => id == compose(kind, t@),
        None => exists|g: Seq<char>| is_generated_token(g) && id == compose(kind, g),
    }
}

pub proof fn lemma_permitted_declared(
    s: Schema,
    edge: Seq<char>,
    rule: Seq<char>,
    from: Seq<char>,
    to: Seq<char>,
)
    requires
        endpoints_permitted(s, edge, rule, from, to),
    ensures
        declares_edge(s, edge),
        declares_rule(s, edge, rule),
{
    let f = family_part(from)->0;
    let t = family_part(to)->0;
    let i = choose|i: int|
        0 <= i < s.edges@.len() && (#[trigger] s.edges@[i]).name@ == edge && edge_permits(
            s.edges@[i],
            rule,
            f,
            t,
        );
    let e = s.edges@[i];
    let j = choose|j: int|
        0 <= j < e.connections@.len() && {
            let c = #[trigger] e.connections@[j];
            c.name@ == rule && c.from@ == f && c.to@ == t
        };
    assert(e.connections@[j].name@ == rule);
    assert(has_rule(e, rule));
}

fn fields_match_exec(declared: &Vec<SchemaField>, given: &Vec<Field>) -> (r: bool)
    ensures
        r == fields_match(declared@, given@),
{
    if declared.len() != given.len() {
        return false;
    }
    let mut k: usize = 0;
    while k < given.len()
        invariant
            declared@.len() == given@.len(),
            k <= given@.len(),
            forall|m: int|
                0 <= m < k ==> {
                    &&& (#[trigger] given@[m]).name@ == declared@[m].name@
                    &&& kind_of_type(declared@[m].ty@) == Some(value_kind(given@[m].value))
                },
        decreases given@.len() - k,
    {
        if given[k].name != declared[k].name {
            return false;
        }
        let actual = match &given[k].value {
            FieldValue::Text(_) => FieldKind::Text,
            FieldValue::Int(_) => FieldKind::Int,
            FieldValue::Bool(_) => FieldKind::Bool,
        };
        match field_kind(&declared[k].ty) {
            Some(expected) => {
                if expected != actual {
                    return false;
                }
            },
            None => {
                return false;
            },
        }
        k = k + 1;
    }
    true
}

/// For one edge kind: whether it has a rule named `rule`, and whether such a rule
/// links kind `f` to kind `t` (where both are known).
fn scan_rules(e: &SchemaEdge, rule: &String, f: &Option<String>, t: &Option<String>) -> (r: (
    bool,
    bool,
))
    ensures
        r.0 == has_rule(*e, rule@),
        r.1 == (f is Some && t is Some && edge_permits(*e, rule@, f->0@, t->0@)),
{
    let mut named = false;
    let mut j: usize = 0;
    while j < e.connections.len()
        invariant
            j <= e.connections@.len(),
            named == exists|m: int| 0 <= m < j && (#[trigger] e.connections@[m]).name@ == rule@,
            !(f is Some && t is Some && exists|m: int|
                0 <= m < j && {
                    let c = #[trigger] e.connections@[m];
                    c.name@ == rule@ && c.from@ == f->0@ && c.to@ == t->0@
                }),
        decreases e.connections@.len() - j,
    {
        let c = &e.connections[j];
        if c.name == *rule {
            named = true;
            match (f, t) {
                (Some(fk), Some(tk)) => {
                    if c.from == *fk && c.to == *tk {
                        assert(has_rule(*e, rule@));
                        return (true, true);
                    }
                },
                _ => {},
            }
        }
        j = j + 1;
    }
    (named, false)
}

fn family_opt(id: &String) -> (r: Option<String>)
    ensures
        match family_part(id@) {
            Some(f) => r matches Some(s) && s@ == f,
            None => r is None,
        },
{
    match family_of(id.as_str()) {
        Ok(f) => Some(f),
        Err(_) => None,
    }
}

impl CompiledSchema {
    /// The connection of an edge of kind `edge` under `rule` from node `from` to node `to`.
    /// It exists only where the rule links the node kinds that the two identifiers name.
    pub fn connect(&self, edge: &String, rule: &String, from: &String, to: &String) -> (r: Result<
        Connection,
        SchemaError,
    >)
        ensures
            r is Ok <==> endpoints_permitted(self.schema, edge@, rule@, from@, to@),
            r matches Ok(c) ==> c.edge@ == edge@ && c.rule@ == rule@ && c.from@ == from@ && c.to@
                == to@,
            r == Err::<Connection, SchemaError>(SchemaError::UnknownEdgeKind) <==> !declares_edge(
                self.schema,
                edge@,
            ),
            r == Err::<Connection, SchemaError>(SchemaError::UnknownConnection) <==> declares_edge(
                self.schema,
                edge@,
            ) && !declares_rule(self.schema, edge@, rule@),
            r == Err::<Connection, SchemaError>(SchemaError::EndpointKindMismatch) <==> declares_rule(
                self.schema,
                edge@,
                rule@,
            ) && !endpoints_permitted(self.schema, edge@, rule@, from@, to@),
    {
        let f = family_opt(from);
        let t = family_opt(to);
        let edges = &self.schema.edges;
        let mut seen_edge = false;
        let mut seen_rule = false;
        let mut i: usize = 0;
        while i < edges.len()
            invariant
                edges == &self.schema.edges,
                i <= edges@.len(),
                match family_part(from@) {
                    Some(ff) => f matches Some(s) && s@ == ff,
                    None => f is None,
                },
                match family_part(to@) {
                    Some(tt) => t matches Some(s) && s@ == tt,
                    None => t is None,
                },
                seen_edge == exists|m: int| 0 <= m < i && (#[trigger] edges@[m]).name@ == edge@,
                seen_rule == exists|m: int|
                    0 <= m < i && (#[trigger] edges@[m]).name@ == edge@ && has_rule(
                        edges@[m],
                        rule@,
                    ),
                !(f is Some && t is Some && exists|m: int|
                    0 <= m < i && (#[trigger] edges@[m]).name@ == edge@ && edge_permits(
                        edges@[m],
                        rule@,
                        f->0@,
                        t->0@,
                    )),
            decreases edges@.len() - i,
        {
            let e = &edges[i];
            if e.name == *edge {
                seen_edge = true;
                let (named, linked) = scan_rules(e, rule, &f, &t);
                if named {
                    seen_rule = true;
                }
                if linked {
                    assert(permits(self.schema, edge@, rule@, f->0@, t->0@));
                    assert(family_part(from@) == Some(f->0@));
                    assert(family_part(to@) == Some(t->0@));
                    assert(endpoints_permitted(self.schema, edge@, rule@, from@, to@));
                    proof {
                        lemma_permitted_declared(self.schema, edge@, rule@, from@, to@);
                    }
                    return Ok(
                        Connection {
                            edge: edge.clone(),
                            rule: rule.clone(),
                            from: from.clone(),
                            to: to.clone(),
                        },
                    );
                }
            }
            i = i + 1;
        }
        if !seen_edge {
            Err(SchemaError::UnknownEdgeKind)
        } else if !seen_rule {
            Err(SchemaError::UnknownConnection)
        } else {
            Err(SchemaError::EndpointKindMismatch)
        }
    }

    /// A new node of kind `kind` with empty ref sets, where `kind` is declared with
    /// exactly the fields of `fields`.
    pub fn new_node(&self, kind: &String, token: Option<String>, fields: Vec<Field>) -> (r: Result<
        NodeRecord,
        SchemaError,
    >)
        ensures
            r is Ok <==> node_shape_ok(self.schema, kind@, fields@),
            r == Err::<NodeRecord, SchemaError>(SchemaError::UnknownNodeKind) <==> !declares_node(
                self.schema,
                kind@,
            ),
            r == Err::<NodeRecord, SchemaError>(SchemaError::FieldMismatch) <==> declares_node(
                self.schema,
                kind@,
            ) && !node_shape_ok(self.schema, kind@, fields@),
            r matches Ok(n) ==> {
                &&& id_made(n.id@, kind@, token)
                &&& n.in_edge_ids@.len() == 0
                &&& n.out_edge_ids@.len() == 0
                &&& n.fields == fields
            },
    {
        let nodes = &self.schema.nodes;
        let mut seen = false;
        let mut i: usize = 0;
        while i < nodes.len()
            invariant
                nodes == &self.schema.nodes,
                i <= nodes@.len(),
                seen == exists|m: int| 0 <= m < i && (#[trigger] nodes@[m]).name@ == kind@,
                !exists|m: int|
                    0 <= m < i && (#[trigger] nodes@[m]).name@ == kind@ && fields_match(
                        nodes@[m].fields@,
                        fields@,
                    ),
            decreases nodes@.len() - i,
        {
            if nodes[i].name == *kind {
                seen = true;
                if fields_match_exec(&nodes[i].fields, &fields) {
                    assert(node_shape_ok(self.schema, kind@, fields@));
                    let id = new_id(kind.as_str(), token);
                    return Ok(
                        NodeRecord { id, in_edge_ids: Vec::new(), out_edge_ids: Vec::new(), fields },
                    );
                }
            }
            i = i + 1;
        }
        if !seen {
            Err(SchemaError::UnknownNodeKind)
        } else {
            Err(SchemaError::FieldMismatch)
        }
    }

    /// A new edge of kind `kind` from node `from` to node `to` under `rule`, where the
    /// rule links the kinds of the two nodes and `kind` is declared with exactly the
    /// fields of `fields`.
    pub fn new_edge(
        &self,
        kind: &String,
        token: Option<String>,
        rule: &String,
        from: &String,
        to: &String,
        fields: Vec<Field>,
    ) -> (r: Result<EdgeRecord, SchemaError>)
        ensures
            r is Ok <==> endpoints_permitted(self.schema, kind@, rule@, from@, to@)
                && edge_shape_ok(self.schema, kind@, fields@),
            r == Err::<EdgeRecord, SchemaError>(SchemaError::UnknownEdgeKind) <==> !declares_edge(
                self.schema,
                kind@,
            ),
            r == Err::<EdgeRecord, SchemaError>(SchemaError::UnknownConnection) <==> declares_edge(
                self.schema,
                kind@,
            ) && !declares_rule(self.schema, kind@, rule@),
            r == Err::<EdgeRecord, SchemaError>(SchemaError::EndpointKindMismatch) <==> declares_rule(
                self.schema,
                kind@,
                rule@,
            ) && !endpoints_permitted(self.schema, kind@, rule@, from@, to@),
            r == Err::<EdgeRecord, SchemaError>(SchemaError::FieldMismatch) <==> endpoints_permitted(
                self.schema,
                kind@,
                rule@,
                from@,
                to@,
            ) && !edge_shape_ok(self.schema, kind@, fields@),
            r matches Ok(e) ==> {
                &&& id_made(e.id@, kind@, token)
                &&& e.connection.edge@ == kind@
                &&& e.connection.rule@ == rule@
                &&& e.connection.from@ == from@
                &&& e.connection.to@ == to@
                &&& e.fields == fields
            },
    {
        let connection = match self.connect(kind, rule, from, to) {
            Ok(c) => c,
            Err(e) => return Err(e),
        };
        let edges = &self.schema.edges;
        let mut i: usize = 0;
        while i < edges.len()
            invariant
                edges == &self.schema.edges,
                i <= edges@.len(),
                endpoints_permitted(self.schema, kind@, rule@, from@, to@),
                connection.edge@ == kind@ && connection.rule@ == rule@,
                connection.from@ == from@ && connection.to@ == to@,
                !exists|m: int|
                    0 <= m < i && (#[trigger] edges@[m]).name@ == kind@ && fields_match(
                        edges@[m].fields@,
                        fields@,
                    ),
            decreases edges@.len() - i,
        {
            if edges[i].name == *kind && fields_match_exec(&edges[i].fields, &fields) {
                assert(edge_shape_ok(self.schema, kind@, fields@));
                proof {
                    lemma_permitted_declared(self.schema, kind@, rule@, from@, to@);
                }
                let id = new_id(kind.as_str(), token);
                return Ok(EdgeRecord { id, connection, fields });
            }
            i = i + 1;
        }
        Err(SchemaError::FieldMismatch)
    }
}

} // verus!
