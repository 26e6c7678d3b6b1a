use std::collections::HashMap;

use graph::engine::{Fetched, Graph, GraphOperations, StoreOp, Stored};
use graph::ident::family_of;
use graph::error::{GraphError, SchemaError};
use graph::record::{EdgeRef, Field, FieldValue, IceEdge, IceNode, Node, NodeRecord};
use graph::schema::{
    compile_schema, CompiledSchema, Schema, SchemaConnection, SchemaEdge, SchemaField, SchemaNode,
};

/// A store kept in memory, which runs the write sets of the engine.
struct MemStore {
    families: HashMap<String, HashMap<String, Stored>>,
}

impl MemStore {
    fn new() -> Self {
        MemStore { families: HashMap::new() }
    }

    fn create(&mut self, family: &str) {
        self.families.entry(family.to_string()).or_default();
    }

    fn run(&mut self, ops: Vec<StoreOp>) {
        for op in ops {
            match op {
                StoreOp::Put { family, key, value } => {
                    self.families.get_mut(&family).expect("family").insert(key, value);
                }
                StoreOp::Delete { family, key } => {
                    self.families.get_mut(&family).expect("family").remove(&key);
                }
            }
        }
    }

    /// Runs `ops` as a transaction that fails before its write `fail_at`: the writes
    /// are staged and dropped, as a store aborts them.
    fn run_failing(&mut self, ops: Vec<StoreOp>, fail_at: usize) -> bool {
        let mut staged = self.families.clone();
        for (i, op) in ops.into_iter().enumerate() {
            if i == fail_at {
                return false;
            }
            match op {
                StoreOp::Put { family, key, value } => {
                    staged.get_mut(&family).expect("family").insert(key, value);
                }
                StoreOp::Delete { family, key } => {
                    staged.get_mut(&family).expect("family").remove(&key);
                }
            }
        }
        self.families = staged;
        true
    }

    fn fetch(&self, family: &str, key: &str) -> Fetched {
        match self.families.get(family).and_then(|m| m.get(key)) {
            Some(v) => Fetched::Found(v.clone()),
            None => Fetched::Absent,
        }
    }

    fn tallies(&self) -> Vec<usize> {
        self.families.values().map(|m| m.len()).collect()
    }
}

fn field(name: &str, ty: &str) -> SchemaField {
    SchemaField { name: name.to_string(), ty: ty.to_string() }
}

fn employment_schema() -> Schema {
    Schema {
        nodes: vec![
            SchemaNode { name: "Person".to_string(), fields: vec![field("name", "string")] },
            SchemaNode { name: "Company".to_string(), fields: vec![field("name", "string")] },
        ],
        edges: vec![SchemaEdge {
            name: "EmploysAt".to_string(),
            connections: vec![SchemaConnection {
                from: "Person".to_string(),
                to: "Company".to_string(),
                name: "Employment".to_string(),
            }],
            fields: vec![field("since", "int")],
        }],
    }
}

fn compiled() -> CompiledSchema {
    compile_schema(employment_schema()).expect("valid schema")
}

fn open(store: &mut MemStore, c: &CompiledSchema) -> Graph {
    let existing: Vec<String> = store.families.keys().cloned().collect();
    let mut g = Graph::new("/tmp/graph", existing);
    for f in g.ensure_families(&c.families) {
        store.create(&f);
    }
    g
}

fn text(name: &str, v: &str) -> Field {
    Field { name: name.to_string(), value: FieldValue::Text(v.to_string()) }
}

fn person(c: &CompiledSchema, token: &str, name: &str) -> NodeRecord {
    c.new_node(&"Person".to_string(), Some(token.to_string()), vec![text("name", name)]).unwrap()
}

fn get_node(g: &Graph, store: &MemStore, id: &str) -> Result<NodeRecord, GraphError> {
    let family = g.locate(id)?;
    g.get_node(id, store.fetch(&family, id))
}

#[test]
fn employment_scenario() {
    let c = compiled();
    let mut store = MemStore::new();
    let g = open(&mut store, &c);

    let p = c.new_node(&"Person".to_string(), None, vec![text("name", "Ada")]).unwrap();
    let co = c.new_node(&"Company".to_string(), None, vec![text("name", "Acme")]).unwrap();
    let e = c
        .new_edge(
            &"EmploysAt".to_string(),
            None,
            &"Employment".to_string(),
            &p.id,
            &co.id,
            vec![Field { name: "since".to_string(), value: FieldValue::Int(1843) }],
        )
        .unwrap();

    store.run(g.add_node(p.clone()).unwrap());
    store.run(g.add_node(co.clone()).unwrap());
    store.run(g.add_edge(e.clone(), p.clone(), co.clone()).unwrap());

    let p2 = get_node(&g, &store, &p.id).unwrap();
    assert!(p2.out_edge_ids.contains(&EdgeRef::new("EmploysAt", &e.id)));
    let c2 = get_node(&g, &store, &co.id).unwrap();
    assert!(c2.in_edge_ids.contains(&EdgeRef::new("EmploysAt", &e.id)));

    let ef = g.locate(&e.id).unwrap();
    let e2 = g.get_edge(&e.id, store.fetch(&ef, &e.id)).unwrap();
    assert_eq!(e2.from_node_id(), p.id);
    assert_eq!(e2.to_node_id(), co.id);

    assert_eq!(g.count_nodes(&store.tallies()), Some(3));
}

#[test]
fn identifier_with_token() {
    let c = compiled();
    let p = person(&c, "ada", "Ada");
    assert_eq!(p.id, "Person:ada");
    assert_eq!(graph::ident::new_id("Company", Some("x1".to_string())), "Company:x1");
    assert_eq!(graph::ident::compose_id("A", "b:c"), "A:b:c");
}

#[test]
fn generated_identifiers_are_distinct() {
    let mut seen = std::collections::HashSet::new();
    for _ in 0..1000 {
        let id = graph::ident::new_id("Person", None);
        let token = id.strip_prefix("Person:").expect("kind prefix");
        assert_eq!(token.len(), 20);
        assert!(token.chars().all(|ch| ch.is_ascii_digit() || ('a'..='v').contains(&ch)));
        assert!(seen.insert(id));
    }
}

#[test]
fn family_of_splits_at_first_colon() {
    assert_eq!(family_of("Person:abc").unwrap(), "Person");
    assert_eq!(family_of("A:b:c").unwrap(), "A");
    assert_eq!(family_of(":x").unwrap(), "");
    assert_eq!(family_of("nocolon"), Err(GraphError::IdentifierParseFailed));
    assert_eq!(family_of(""), Err(GraphError::IdentifierParseFailed));
}

#[test]
fn add_then_get_node_round_trips() {
    let c = compiled();
    let mut store = MemStore::new();
    let g = open(&mut store, &c);
    let p = person(&c, "1", "Ada");
    store.run(g.add_node(p.clone()).unwrap());
    assert_eq!(get_node(&g, &store, "Person:1").unwrap(), p);
}

#[test]
fn remove_then_get_node_is_key_not_found() {
    let c = compiled();
    let mut store = MemStore::new();
    let g = open(&mut store, &c);
    store.run(g.add_node(person(&c, "1", "Ada")).unwrap());
    store.run(g.remove_node("Person:1").unwrap());
    assert_eq!(get_node(&g, &store, "Person:1"), Err(GraphError::KeyNotFound));
}

#[test]
fn operation_errors() {
    let c = compiled();
    let mut store = MemStore::new();
    let g = open(&mut store, &c);
    assert_eq!(g.locate("Robot:1"), Err(GraphError::PartitionNotFound));
    assert_eq!(g.locate("Robot"), Err(GraphError::IdentifierParseFailed));
    assert_eq!(g.get_node("Person:1", Fetched::Undecodable), Err(GraphError::DecodeFailed));
    let stray = NodeRecord {
        id: "Robot:1".to_string(),
        in_edge_ids: vec![],
        out_edge_ids: vec![],
        fields: vec![],
    };
    assert_eq!(g.add_node(stray.clone()).unwrap_err(), GraphError::PartitionNotFound);
    assert_eq!(g.update_node(&stray).unwrap_err(), GraphError::PartitionNotFound);
    assert_eq!(g.remove_edge("EmploysAt:1", Fetched::Absent).unwrap_err(), GraphError::KeyNotFound);
    let e = Fetched::Found(Stored::Node(person(&c, "2", "Bo")));
    assert_eq!(g.get_edge("EmploysAt:2", e).unwrap_err(), GraphError::DecodeFailed);
}

#[test]
fn add_edge_writes_three_records_in_one_transaction() {
    let c = compiled();
    let mut store = MemStore::new();
    let g = open(&mut store, &c);
    let p = person(&c, "1", "Ada");
    let co = c.new_node(&"Company".to_string(), Some("2".to_string()), vec![text("name", "Acme")]);
    let co = co.unwrap();
    let e = c
        .new_edge(
            &"EmploysAt".to_string(),
            Some("3".to_string()),
            &"Employment".to_string(),
            &p.id,
            &co.id,
            vec![Field { name: "since".to_string(), value: FieldValue::Int(1843) }],
        )
        .unwrap();
    let ops = g.add_edge(e, p, co).unwrap();
    assert_eq!(ops.len(), 3);
    let keys: Vec<(String, String)> = ops
        .iter()
        .map(|op| match op {
            StoreOp::Put { family, key, .. } => (family.clone(), key.clone()),
            StoreOp::Delete { .. } => panic!("no delete expected"),
        })
        .collect();
    assert_eq!(
        keys,
        vec![
            ("EmploysAt".to_string(), "EmploysAt:3".to_string()),
            ("Person".to_string(), "Person:1".to_string()),
            ("Company".to_string(), "Company:2".to_string()),
        ]
    );
}

#[test]
fn failed_add_edge_commits_nothing() {
    let c = compiled();
    let mut store = MemStore::new();
    let g = open(&mut store, &c);
    let p = person(&c, "1", "Ada");
    let co = c.new_node(&"Company".to_string(), Some("2".to_string()), vec![text("name", "Acme")]);
    let co = co.unwrap();
    store.run(g.add_node(p.clone()).unwrap());
    store.run(g.add_node(co.clone()).unwrap());
    let e = c
        .new_edge(
            &"EmploysAt".to_string(),
            Some("3".to_string()),
            &"Employment".to_string(),
            &p.id,
            &co.id,
            vec![Field { name: "since".to_string(), value: FieldValue::Int(1843) }],
        )
        .unwrap();
    let ops = g.add_edge(e, p.clone(), co.clone()).unwrap();
    assert!(!store.run_failing(ops, 2));
    assert_eq!(get_node(&g, &store, "Person:1").unwrap(), p);
    assert_eq!(get_node(&g, &store, "Company:2").unwrap(), co);
    let ef = g.locate("EmploysAt:3").unwrap();
    assert!(matches!(store.fetch(&ef, "EmploysAt:3"), Fetched::Absent));
}

#[test]
fn ensure_families_creates_only_missing_ones() {
    let mut g = Graph::new("/data", vec!["default".to_string(), "Person".to_string()]);
    let kinds = vec!["Person".to_string(), "Company".to_string(), "Company".to_string(), "By".to_string()];
    let created = g.ensure_families(&kinds);
    assert_eq!(created, vec!["Company", "By"]);
    assert_eq!(g.families, vec!["default", "Person", "Company", "By"]);
    assert!(g.ensure_families(&kinds).is_empty());
}

#[test]
fn add_edge_on_missing_edge_family_fails_first() {
    let c = compiled();
    let mut g = Graph::new("/tmp/graph", Vec::new());
    g.create_family_if_not_exists("Person");
    g.create_family_if_not_exists("Company");
    let p = person(&c, "1", "Ada");
    let co = c.new_node(&"Company".to_string(), Some("2".to_string()), vec![text("name", "A")]);
    let co = co.unwrap();
    let e = c
        .new_edge(
            &"EmploysAt".to_string(),
            None,
            &"Employment".to_string(),
            &p.id,
            &co.id,
            vec![Field { name: "since".to_string(), value: FieldValue::Int(1) }],
        )
        .unwrap();
    assert_eq!(g.add_edge(e, p, co).unwrap_err(), GraphError::PartitionNotFound);
}

#[test]
fn self_loop_keeps_both_refs() {
    let schema = Schema {
        nodes: vec![SchemaNode { name: "P".to_string(), fields: vec![] }],
        edges: vec![SchemaEdge {
            name: "Knows".to_string(),
            connections: vec![SchemaConnection {
                from: "P".to_string(),
                to: "P".to_string(),
                name: "Acquaintance".to_string(),
            }],
            fields: vec![],
        }],
    };
    let c = compile_schema(schema).unwrap();
    let mut store = MemStore::new();
    let g = open(&mut store, &c);
    let a = c.new_node(&"P".to_string(), Some("a".to_string()), vec![]).unwrap();
    let e = c
        .new_edge(&"Knows".to_string(), Some("k".to_string()), &"Acquaintance".to_string(), &a.id, &a.id, vec![])
        .unwrap();
    store.run(g.add_node(a.clone()).unwrap());
    let ops = g.add_edge(e, a.clone(), a).unwrap();
    assert_eq!(ops.len(), 2);
    store.run(ops);
    let a2 = get_node(&g, &store, "P:a").unwrap();
    assert_eq!(a2.in_edge_ids, vec![EdgeRef::new("Knows", "Knows:k")]);
    assert_eq!(a2.out_edge_ids, vec![EdgeRef::new("Knows", "Knows:k")]);
}

#[test]
fn destroy_everything_then_count_is_zero() {
    let c = compiled();
    let mut store = MemStore::new();
    store.create("default");
    let mut g = open(&mut store, &c);
    store.run(g.add_node(person(&c, "1", "Ada")).unwrap());
    let mut listed: Vec<String> = store.families.keys().cloned().collect();
    listed.sort();
    let dropped = g.destroy_everything(&listed);
    assert_eq!(dropped, vec!["Company".to_string(), "EmploysAt".to_string(), "Person".to_string()]);
    for f in &dropped {
        store.families.remove(f);
    }
    assert_eq!(g.count_nodes(&store.tallies()), Some(0));
    assert!(g.families.is_empty());
}

#[test]
fn count_nodes_sums_and_detects_overflow() {
    let g = Graph::new("/tmp/graph", Vec::new());
    assert_eq!(g.count_nodes(&vec![]), Some(0));
    assert_eq!(g.count_nodes(&vec![2, 0, 5]), Some(7));
    assert_eq!(g.count_nodes(&vec![usize::MAX, 1]), None);
}

#[test]
fn create_family_is_idempotent() {
    let mut g = Graph::new("/data", vec!["default".to_string()]);
    assert!(g.create_family_if_not_exists("Person"));
    assert!(!g.create_family_if_not_exists("Person"));
    assert!(!g.create_node_family("default"));
    assert!(g.create_node_family("Company"));
    assert_eq!(g.families, vec!["default", "Person", "Company"]);
    assert_eq!(g.path, "/data");
}

#[test]
fn compile_derives_ref_kinds() {
    let schema = Schema {
        nodes: vec![
            SchemaNode { name: "Song".to_string(), fields: vec![field("title", "String")] },
            SchemaNode { name: "Album".to_string(), fields: vec![] },
            SchemaNode { name: "Artist".to_string(), fields: vec![] },
        ],
        edges: vec![
            SchemaEdge {
                name: "By".to_string(),
                connections: vec![
                    SchemaConnection { from: "Song".into(), to: "Artist".into(), name: "SongIsBy".into() },
                    SchemaConnection { from: "Album".into(), to: "Artist".into(), name: "AlbumIsBy".into() },
                ],
                fields: vec![],
            },
            SchemaEdge {
                name: "On".to_string(),
                connections: vec![SchemaConnection {
                    from: "Song".into(),
                    to: "Album".into(),
                    name: "SongOnAlbum".into(),
                }],
                fields: vec![],
            },
        ],
    };
    let c = compile_schema(schema).unwrap();
    assert_eq!(c.families, vec!["Song", "Album", "Artist", "By", "On"]);
    let artist = &c.refs[2];
    assert_eq!(artist.node, "Artist");
    assert_eq!(artist.inbound, vec!["By"]);
    assert!(artist.outbound.is_empty());
    let song = &c.refs[0];
    assert!(song.inbound.is_empty());
    assert_eq!(song.outbound, vec!["By", "On"]);
    assert_eq!(c.refs[1].inbound, vec!["On"]);
    assert_eq!(c.refs[1].outbound, vec!["By"]);
}

#[test]
fn compile_errors() {
    let mut s = employment_schema();
    s.edges[0].connections[0].to = "Firm".to_string();
    assert_eq!(compile_schema(s).unwrap_err(), SchemaError::UnknownNodeKind);

    let mut s = employment_schema();
    s.edges[0].name = "Person".to_string();
    assert_eq!(compile_schema(s).unwrap_err(), SchemaError::DuplicateKind);

    let mut s = employment_schema();
    s.nodes[1].name = "Comp:any".to_string();
    assert_eq!(compile_schema(s).unwrap_err(), SchemaError::InvalidKindName);

    let mut s = employment_schema();
    s.nodes[0].name = String::new();
    assert_eq!(compile_schema(s).unwrap_err(), SchemaError::InvalidKindName);

    let mut s = employment_schema();
    s.edges[0].fields[0].ty = "f64".to_string();
    assert_eq!(compile_schema(s).unwrap_err(), SchemaError::UnknownFieldType);

    let empty = Schema { nodes: vec![], edges: vec![] };
    let c = compile_schema(empty).unwrap();
    assert!(c.families.is_empty() && c.refs.is_empty());
}

#[test]
fn connections_follow_the_rules() {
    let c = compiled();
    let s = |x: &str| x.to_string();
    let ok = c.connect(&s("EmploysAt"), &s("Employment"), &s("Person:1"), &s("Company:2")).unwrap();
    assert_eq!((ok.from.as_str(), ok.to.as_str(), ok.rule.as_str()), ("Person:1", "Company:2", "Employment"));
    assert_eq!(
        c.connect(&s("EmploysAt"), &s("Employment"), &s("Company:2"), &s("Person:1")),
        Err(SchemaError::EndpointKindMismatch)
    );
    assert_eq!(
        c.connect(&s("EmploysAt"), &s("Employment"), &s("Person"), &s("Company:2")),
        Err(SchemaError::EndpointKindMismatch)
    );
    assert_eq!(
        c.connect(&s("EmploysAt"), &s("Friendship"), &s("Person:1"), &s("Company:2")),
        Err(SchemaError::UnknownConnection)
    );
    assert_eq!(
        c.connect(&s("Likes"), &s("Employment"), &s("Person:1"), &s("Company:2")),
        Err(SchemaError::UnknownEdgeKind)
    );
}

#[test]
fn records_are_built_against_the_schema() {
    let c = compiled();
    let s = |x: &str| x.to_string();
    assert_eq!(c.new_node(&s("Robot"), None, vec![]).unwrap_err(), SchemaError::UnknownNodeKind);
    assert_eq!(c.new_node(&s("Person"), None, vec![]).unwrap_err(), SchemaError::FieldMismatch);
    assert_eq!(
        c.new_node(&s("Person"), None, vec![text("nick", "x")]).unwrap_err(),
        SchemaError::FieldMismatch
    );
    let wrong_type = Field { name: s("name"), value: FieldValue::Int(7) };
    assert_eq!(c.new_node(&s("Person"), None, vec![wrong_type]).unwrap_err(), SchemaError::FieldMismatch);
    let e = c.new_edge(&s("EmploysAt"), None, &s("Employment"), &s("Person:1"), &s("Company:2"), vec![]);
    assert_eq!(e.unwrap_err(), SchemaError::FieldMismatch);
    let since = Field { name: s("since"), value: FieldValue::Bool(true) };
    let e = c.new_edge(&s("EmploysAt"), None, &s("Employment"), &s("Person:1"), &s("Company:2"), vec![since]);
    assert_eq!(e.unwrap_err(), SchemaError::FieldMismatch);
    let e = c.new_edge(&s("EmploysAt"), None, &s("Employment"), &s("Company:2"), &s("Person:1"), vec![]);
    assert_eq!(e.unwrap_err(), SchemaError::EndpointKindMismatch);
}

#[test]
fn ref_sets_add_and_remove_all_equal() {
    let c = compiled();
    let mut p = person(&c, "1", "Ada");
    let r1 = EdgeRef::new("EmploysAt", "EmploysAt:a");
    let r2 = EdgeRef::new("EmploysAt", "EmploysAt:b");
    p.add_out_edge_id(r1.clone());
    p.add_out_edge_id(r2.clone());
    p.add_out_edge_id(r1.clone());
    p.add_in_edge_id(r1.clone());
    assert_eq!(p.out_edge_ids(), vec![r1.clone(), r2.clone(), r1.clone()]);
    p.remove_out_edge_id(&r1);
    assert_eq!(p.out_edge_ids(), vec![r2.clone()]);
    assert_eq!(p.in_edge_ids(), vec![r1.clone()]);
    p.remove_in_edge_id(&r2);
    assert_eq!(p.in_edge_ids(), vec![r1.clone()]);
    p.remove_in_edge_id(&r1);
    assert!(p.in_edge_ids().is_empty());
    assert_eq!(IceNode::id(&p), "Person:1");
    assert_eq!(p.family_name(), Some("Person".to_string()));
    let bad = NodeRecord { id: "x".to_string(), in_edge_ids: vec![], out_edge_ids: vec![], fields: vec![] };
    assert_eq!(bad.family_name(), None);
}
