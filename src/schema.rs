//! The declarative schema and its compilation into the per-kind vocabulary:
//! the family list, and for every node kind the edge kinds that may reference it
//! from each side.

use vstd::prelude::*;

use vstd::string::*;

use crate::error::SchemaError;
use crate::ident::colon_free;
use crate::lookup::{all_distinct, contains_name, distinct_names, names};

verus! {

#[derive(Debug, Clone)]
pub struct SchemaField {
    pub name: String,
    pub ty: String,
}

#[derive(Debug, Clone)]
pub struct SchemaNode {
    pub name: String,
    pub fields: Vec<SchemaField>,
}

/// A rule allowing an edge kind to link a `from` node kind to a `to` node kind.
#[derive(Debug, Clone)]
pub struct SchemaConnection {
    pub from: String,
    pub to: String,
    pub name: String,
}

#[derive(Debug, Clone)]
pub struct SchemaEdge {
    pub name: String,
    pub connections: Vec<SchemaConnection>,
    pub fields: Vec<SchemaField>,
}

#[derive(Debug, Clone)]
pub struct Schema {
    pub nodes: Vec<SchemaNode>,
    pub edges: Vec<SchemaEdge>,
}

/// The edge kinds that may touch one node kind, each in order of declaration.
#[derive(Debug, Clone)]
pub struct NodeRefKinds {
    pub node: String,
    pub inbound: Vec<String>,
    pub outbound: Vec<String>,
}

/// A schema that passed compilation, with the vocabulary derived from it.
/// The type of a field names the kind of its values: `string` or `String` for text,
/// `int` or `i64` for integers, `bool` for booleans.
#[derive(Debug, Clone)]
pub struct CompiledSchema {
    pub schema: Schema,
    /// Every kind name: the node kinds, then the edge kinds.
    pub families: Vec<String>,
    /// One entry per node kind, in the order of `schema.nodes`.
    pub refs: Vec<NodeRefKinds>,
}

/// The kind of value a field type admits.
#[derive(Debug, Clone, Copy, PartialEq, Eq, Structural)]
pub enum FieldKind {
    Text,
    Int,
    Bool,
}

/// The kind of value that a declared field type names, if it names one.
pub open spec fn kind_of_type(ty: Seq<char>) -> Option<FieldKind> {
    if ty == seq!['s', 't', 'r', 'i', 'n', 'g'] || ty == seq!['S', 't', 'r', 'i', 'n', 'g'] {
        Some(FieldKind::Text)
    } else if ty == seq!['i', 'n', 't'] || ty == seq!['i', '6', '4'] {
        Some(FieldKind::Int)
    } else if ty == seq!['b', 'o', 'o', 'l'] {
        Some(FieldKind::Bool)
    } else {
        None
    }
}

pub open spec fn fields_typed(fields: Seq<SchemaField>) -> bool {
    forall|k: int| 0 <= k < fields.len() ==> kind_of_type((#[trigger] fields[k]).ty@) is Some
}

/// Every field of every kind has a type the records can hold.
pub open spec fn schema_typed(s: Schema) -> bool {
    &&& forall|i: int| 0 <= i < s.nodes@.len() ==> fields_typed((#[trigger] s.nodes@[i]).fields@)
    &&& forall|i: int| 0 <= i < s.edges@.len() ==> fields_typed((#[trigger] s.edges@[i]).fields@)
}

pub fn field_kind(ty: &String) -> (r: Option<FieldKind>)
    ensures
        r == kind_of_type(ty@),
{
    proof {
        reveal_strlit("string");
        reveal_strlit("String");
        reveal_strlit("int");
        reveal_strlit("i64");
        reveal_strlit("bool");
    }
    let text_lower = String::from_str("string");
    let text_upper = String::from_str("String");
    let int_short = String::from_str("int");
    let int_long = String::from_str("i64");
    let boolean = String::from_str("bool");
    assert(text_lower@ =~= seq!['s', 't', 'r', 'i', 'n', 'g']);
    assert(text_upper@ =~= seq!['S', 't', 'r', 'i', 'n', 'g']);
    assert(int_short@ =~= seq!['i', 'n', 't']);
    assert(int_long@ =~= seq!['i', '6', '4']);
    assert(boolean@ =~= seq!['b', 'o', 'o', 'l']);
    if *ty == text_lower || *ty == text_upper {
        Some(FieldKind::Text)
    } else if *ty == int_short || *ty == int_long {
        Some(FieldKind::Int)
    } else if *ty == boolean {
        Some(FieldKind::Bool)
    } else {
        None
    }
}

fn fields_typed_exec(fields: &Vec<SchemaField>) -> (r: bool)
    ensures
        r == fields_typed(fields@),
{
    let mut k: usize = 0;
    while k < fields.len()
        invariant
            k <= fields@.len(),
            forall|m: int| 0 <= m < k ==> kind_of_type((#[trigger] fields@[m]).ty@) is Some,
        decreases fields@.len() - k,
    {
        if field_kind(&fields[k].ty).is_none() {
            return false;
        }
        k = k + 1;
    }
    true
}

fn schema_typed_exec(s: &Schema) -> (r: bool)
    ensures
        r == schema_typed(*s),
{
    let mut i: usize = 0;
    while i < s.nodes.len()
        invariant
            i <= s.nodes@.len(),
            forall|m: int| 0 <= m < i ==> fields_typed((#[trigger] s.nodes@[m]).fields@),
        decreases s.nodes@.len() - i,
    {
        if !fields_typed_exec(&s.nodes[i].fields) {
            return false;
        }
        i = i + 1;
    }
    let mut j: usize = 0;
    while j < s.edges.len()
        invariant
            j <= s.edges@.len(),
            forall|m: int| 0 <= m < s.nodes@.len() ==> fields_typed((#[trigger] s.nodes@[m]).fields@),
            forall|m: int| 0 <= m < j ==> fields_typed((#[trigger] s.edges@[m]).fields@),
        decreases s.edges@.len() - j,
    {
        if !fields_typed_exec(&s.edges[j].fields) {
            return false;
        }
        j = j + 1;
    }
    true
}

pub open spec fn node_names(nodes: Seq<SchemaNode>) -> Seq<Seq<char>> {
    nodes.map_values(|n: SchemaNode| n.name@)
}

pub open spec fn edge_names(edges: Seq<SchemaEdge>) -> Seq<Seq<char>> {
    edges.map_values(|e: SchemaEdge| e.name@)
}

/// All kind names of the schema: node kinds first, then edge kinds.
pub open spec fn kind_names(s: Schema) -> Seq<Seq<char>> {
    node_names(s.nodes@) + edge_names(s.edges@)
}

pub open spec fn valid_kind_name(n: Seq<char>) -> bool {
    n.len() > 0 && colon_free(n)
}

pub open spec fn kind_names_valid(s: Schema) -> bool {
    forall|i: int| 0 <= i < kind_names(s).len() ==> valid_kind_name(#[trigger] kind_names(s)[i])
}

/// Every connection rule names declared node kinds at both ends.
pub open spec fn connections_known(s: Schema) -> bool {
    forall|i: int, j: int|
        0 <= i < s.edges@.len() && 0 <= j < s.edges@[i].connections@.len() ==> {
            let c = #[trigger] s.edges@[i].connections@[j];
            node_names(s.nodes@).contains(c.from@) && node_names(s.nodes@).contains(c.to@)
        }
}

pub open spec fn schema_valid(s: Schema) -> bool {
    &&& kind_names_valid(s)
    &&& all_distinct(kind_names(s))
    &&& connections_known(s)
    &&& schema_typed(s)
}

/// Whether some connection rule of `e` ends at node kind `n`.
pub open spec fn targets(e: SchemaEdge, n: Seq<char>) -> bool {
    exists|j: int| 0 <= j < e.connections@.len() && (#[trigger] e.connections@[j]).to@ == n
}

/// Whether some connection rule of `e` starts at node kind `n`.
pub open spec fn sources(e: SchemaEdge, n: Seq<char>) -> bool {
    exists|j: int| 0 <= j < e.connections@.len() && (#[trigger] e.connections@[j]).from@ == n
}

/// The edge kinds whose rules end at `n`, in order of declaration.
pub open spec fn inbound_kinds(edges: Seq<SchemaEdge>, n: Seq<char>) -> Seq<Seq<char>>
    decreases edges.len(),
{
    if edges.len() == 0 {
        Seq::empty()
    } else {
        let rest = inbound_kinds(edges.drop_last(), n);
        if targets(edges.last(), n) {
            rest.push(edges.last().name@)
        } else {
            rest
        }
    }
}

/// The edge kinds whose rules start at `n`, in order of declaration.
pub open spec fn outbound_kinds(edges: Seq<SchemaEdge>, n: Seq<char>) -> Seq<Seq<char>>
    decreases edges.len(),
{
    if edges.len() == 0 {
        Seq::empty()
    } else {
        let rest = outbound_kinds(edges.drop_last(), n);
        if sources(edges.last(), n) {
            rest.push(edges.last().name@)
        } else {
            rest
        }
    }
}

/// What compiling `s` yields: its families, and for each node kind its ref kinds.
pub open spec fn compiled_from(c: CompiledSchema, s: Schema) -> bool {
    &&& c.schema == s
    &&& names(c.families@) == kind_names(s)
    &&& c.refs@.len() == s.nodes@.len()
    &&& forall|i: int|
        0 <= i < s.nodes@.len() ==> {
            let r = #[trigger] c.refs@[i];
            &&& r.node@ == s.nodes@[i].name@
            &&& names(r.inbound@) == inbound_kinds(s.edges@, s.nodes@[i].name@)
            &&& names(r.outbound@) == outbound_kinds(s.edges@, s.nodes@[i].name@)
        }
}

fn contains_colon(s: &String) -> (r: bool)
    ensures
        r == !colon_free(s@),
{
    let t = s.as_str();
    let n = t.unicode_len();
    let mut k: usize = 0;
    while k < n
        invariant
            t@ == s@,
            n == s@.len(),
            k <= n,
            forall|i: int| 0 <= i < k ==> #[trigger] s@[i] != ':',
        decreases n - k,
    {
        if t.get_char(k) == ':' {
            return true;
        }
        k = k + 1;
    }
    false
}

fn all_names(s: &Schema) -> (r: Vec<String>)
    ensures
        names(r@) == kind_names(*s),
{
    let mut r: Vec<String> = Vec::new();
    let mut i: usize = 0;
    while i < s.nodes.len()
        invariant
            i <= s.nodes@.len(),
            r@.len() == i,
            forall|k: int| 0 <= k < i ==> (#[trigger] r@[k])@ == s.nodes@[k].name@,
        decreases s.nodes@.len() - i,
    {
        r.push(s.nodes[i].name.clone());
        i = i + 1;
    }
    let n = i;
    let mut j: usize = 0;
    while j < s.edges.len()
        invariant
            n == s.nodes@.len(),
            j <= s.edges@.len(),
            r@.len() == n + j,
            forall|k: int| 0 <= k < n ==> (#[trigger] r@[k])@ == s.nodes@[k].name@,
            forall|k: int| 0 <= k < j ==> (#[trigger] r@[n + k])@ == s.edges@[k].name@,
        decreases s.edges@.len() - j,
    {
        r.push(s.edges[j].name.clone());
        assert(r@[n + j]@ == s.edges@[j as int].name@);
        j = j + 1;
    }
    assert forall|k: int| 0 <= k < r@.len() implies names(r@)[k] == kind_names(*s)[k] by {
        if k >= n {
            assert(r@[n + (k - n)]@ == s.edges@[k - n].name@);
        }
    }
    assert(names(r@) =~= kind_names(*s));
    r
}

fn names_valid(v: &Vec<String>) -> (r: bool)
    ensures
        r == forall|i: int| 0 <= i < v@.len() ==> valid_kind_name(#[trigger] names(v@)[i]),
{
    let mut i: usize = 0;
    while i < v.len()
        invariant
            i <= v@.len(),
            forall|k: int| 0 <= k < i ==> valid_kind_name(#[trigger] names(v@)[k]),
        decreases v@.len() - i,
    {
        let bad = v[i].as_str().unicode_len() == 0 || contains_colon(&v[i]);
        if bad {
            assert(!valid_kind_name(names(v@)[i as int]));
            return false;
        }
        i = i + 1;
    }
    true
}

/// Whether every connection rule of every edge names declared node kinds.
fn connections_resolve(s: &Schema, nodes: &Vec<String>) -> (r: bool)
    requires
        names(nodes@) == node_names(s.nodes@),
    ensures
        r == connections_known(*s),
{
    let mut i: usize = 0;
    while i < s.edges.len()
        invariant
            names(nodes@) == node_names(s.nodes@),
            i <= s.edges@.len(),
            forall|a: int, b: int|
                0 <= a < i && 0 <= b < s.edges@[a].connections@.len() ==> {
                    let c = #[trigger] s.edges@[a].connections@[b];
                    node_names(s.nodes@).contains(c.from@) && node_names(s.nodes@).contains(
                        c.to@,
                    )
                },
        decreases s.edges@.len() - i,
    {
        let e = &s.edges[i];
        let mut j: usize = 0;
        while j < e.connections.len()
            invariant
                names(nodes@) == node_names(s.nodes@),
                i < s.edges@.len(),
                *e == s.edges@[i as int],
                j <= e.connections@.len(),
                forall|a: int, b: int|
                    0 <= a < i && 0 <= b < s.edges@[a].connections@.len() ==> {
                        let c = #[trigger] s.edges@[a].connections@[b];
                        node_names(s.nodes@).contains(c.from@) && node_names(
                            s.nodes@,
                        ).contains(c.to@)
                    },
                forall|b: int|
                    0 <= b < j ==> {
                        let c = #[trigger] s.edges@[i as int].connections@[b];
                        node_names(s.nodes@).contains(c.from@) && node_names(
                            s.nodes@,
                        ).contains(c.to@)
                    },
            decreases e.connections@.len() - j,
        {
            let c = &e.connections[j];
            if !contains_name(nodes, &c.from) || !contains_name(nodes, &c.to) {
                assert(s.edges@[i as int].connections@[j as int] == *c);
                return false;
            }
            j = j + 1;
        }
        i = i + 1;
    }
    true
}

/// Whether some rule of `e` ends (`inbound`) or starts (`!inbound`) at `n`.
fn touches(e: &SchemaEdge, n: &String, inbound: bool) -> (r: bool)
    ensures
        r == if inbound {
            targets(*e, n@)
        } else {
            sources(*e, n@)
        },
{
    let mut j: usize = 0;
    while j < e.connections.len()
        invariant
            j <= e.connections@.len(),
            forall|b: int|
                0 <= b < j ==> (if inbound {
                    (#[trigger] e.connections@[b]).to@ != n@
                } else {
                    e.connections@[b].from@ != n@
                }),
        decreases e.connections@.len() - j,
    {
        let c = &e.connections[j];
        let hit = if inbound {
            c.to == *n
        } else {
            c.from == *n
        };
        if hit {
            return true;
        }
        j = j + 1;
    }
    false
}

/// The edge kinds that may reference node kind `n` from one side.
fn ref_kinds(edges: &Vec<SchemaEdge>, n: &String, inbound: bool) -> (r: Vec<String>)
    ensures
        names(r@) == if inbound {
            inbound_kinds(edges@, n@)
        } else {
            outbound_kinds(edges@, n@)
        },
{
    let mut r: Vec<String> = Vec::new();
    let mut i: usize = 0;
    while i < edges.len()
        invariant
            i <= edges@.len(),
            names(r@) == if inbound {
                inbound_kinds(edges@.subrange(0, i as int), n@)
            } else {
                outbound_kinds(edges@.subrange(0, i as int), n@)
            },
        decreases edges@.len() - i,
    {
        let e = &edges[i];
        assert(edges@.subrange(0, i + 1).drop_last() =~= edges@.subrange(0, i as int));
        assert(edges@.subrange(0, i + 1).last() == *e);
        if touches(e, n, inbound) {
            r.push(e.name.clone());
            assert(names(r@) =~= names(r@).drop_last().push(e.name@));
        }
        i = i + 1;
    }
    assert(edges@.subrange(0, i as int) =~= edges@);
    r
}

/// Compiles a schema: checks that every kind name can prefix an identifier, that
/// kind names are unique across node and edge kinds, and that every connection
/// rule names declared node kinds, and that every field type is one records can
/// hold; then derives the family list and, for each node
/// kind, the edge kinds allowed on its inbound and outbound side.
pub fn compile_schema(schema: Schema) -> (r: Result<CompiledSchema, SchemaError>)
    ensures
        r is Ok <==> schema_valid(schema),
        r matches Ok(c) ==> compiled_from(c, schema),
        r == Err::<CompiledSchema, SchemaError>(SchemaError::InvalidKindName) <==> !kind_names_valid(
            schema,
        ),
        r == Err::<CompiledSchema, SchemaError>(SchemaError::DuplicateKind) <==> kind_names_valid(
            schema,
        ) && !all_distinct(kind_names(schema)),
        r == Err::<CompiledSchema, SchemaError>(SchemaError::UnknownNodeKind) <==> kind_names_valid(
            schema,
        ) && all_distinct(kind_names(schema)) && !connections_known(schema),
        r == Err::<CompiledSchema, SchemaError>(SchemaError::UnknownFieldType) <==> kind_names_valid(
            schema,
        ) && all_distinct(kind_names(schema)) && connections_known(schema) && !schema_typed(
            schema,
        ),
        r is Err ==> r == Err::<CompiledSchema, SchemaError>(SchemaError::InvalidKindName) || r
            == Err::<CompiledSchema, SchemaError>(SchemaError::DuplicateKind) || r == Err::<
            CompiledSchema,
            SchemaError,
        >(SchemaError::UnknownNodeKind) || r == Err::<CompiledSchema, SchemaError>(
            SchemaError::UnknownFieldType,
        ),
{
    let families = all_names(&schema);
    if !names_valid(&families) {
        return Err(SchemaError::InvalidKindName);
    }
    if !distinct_names(&families) {
        return Err(SchemaError::DuplicateKind);
    }
    let mut nodes: Vec<String> = Vec::new();
    let mut i: usize = 0;
    while i < schema.nodes.len()
        invariant
            i <= schema.nodes@.len(),
            nodes@.len() == i,
            forall|k: int| 0 <= k < i ==> (#[trigger] nodes@[k])@ == schema.nodes@[k].name@,
        decreases schema.nodes@.len() - i,
    {
        nodes.push(schema.nodes[i].name.clone());
        i = i + 1;
    }
    assert(names(nodes@) =~= node_names(schema.nodes@));
    if !connections_resolve(&schema, &nodes) {
        return Err(SchemaError::UnknownNodeKind);
    }
    if !schema_typed_exec(&schema) {
        return Err(SchemaError::UnknownFieldType);
    }
    let mut refs: Vec<NodeRefKinds> = Vec::new();
    let mut k: usize = 0;
    while k < schema.nodes.len()
        invariant
            k <= schema.nodes@.len(),
            refs@.len() == k,
            forall|a: int|
                0 <= a < k ==> {
                    let r = #[trigger] refs@[a];
                    &&& r.node@ == schema.nodes@[a].name@
                    &&& names(r.inbound@) == inbound_kinds(schema.edges@, schema.nodes@[a].name@)
                    &&& names(r.outbound@) == outbound_kinds(
                        schema.edges@,
                        schema.nodes@[a].name@,
                    )
                },
        decreases schema.nodes@.len() - k,
    {
        let n = &schema.nodes[k].name;
        let inbound = ref_kinds(&schema.edges, n, true);
        let outbound = ref_kinds(&schema.edges, n, false);
        refs.push(NodeRefKinds { node: n.clone(), inbound, outbound });
        k = k + 1;
    }
    Ok(CompiledSchema { schema, families, refs })
}

} // verus!
