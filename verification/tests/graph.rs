use tugraph::cursor::{EdgeCursor, EdgeCursorMut, VertexCursor, VertexCursorMut};
use tugraph::db::{
    Galaxy, Graph, OpenOptions, QueryEdgeFTIndex, QueryVertexFTIndex, MINIMUM_GRAPH_MAX_SIZE,
};
use tugraph::engine::{Arg, Handle, Kind, Op};
use tugraph::field::{FieldData, FieldSpec, FieldType};
use tugraph::raw::{RawEdgeUid, RawFieldSpec};
use tugraph::script::{Answer, Script};
use tugraph::txn::{RwTxn, TxnRead, TxnWrite};
use tugraph::types::{DateTime, EdgeUid};
use tugraph::{Error, ErrorKind};

const DIR: &str = "/tmp/rust_tugraph/graph";

fn pull_all<T>(
    engine: &mut Script,
    mut next: impl FnMut(&mut Script) -> Result<Option<T>, Error>,
) -> Vec<T> {
    let mut items = Vec::new();
    while let Some(item) = next(engine).expect("valid iterator should get value") {
        items.push(item);
    }
    items
}

fn open_default(engine: &mut Script) -> Galaxy {
    OpenOptions::new()
        .create(true)
        .open(engine, DIR, "admin", "73@TuGraph")
        .unwrap()
}

#[test]
fn test_create_graph() {
    let mut engine = Script::new(vec![Answer::Handle(1), Answer::Flag(true)]);
    let galaxy = open_default(&mut engine);
    let _ = galaxy
        .create_graph(
            &mut engine,
            "test_create_graph",
            "graph created in test_create_graph",
            MINIMUM_GRAPH_MAX_SIZE,
        )
        .unwrap();
    assert_eq!(
        engine.requests()[1].args,
        vec![
            Arg::Text("test_create_graph".into()),
            Arg::Text("graph created in test_create_graph".into()),
            Arg::Size(MINIMUM_GRAPH_MAX_SIZE),
        ]
    );
}

fn person_label() -> (&'static str, [FieldSpec; 3], &'static str) {
    (
        "Person",
        [
            FieldSpec {
                name: "name".into(),
                ty: FieldType::String,
                optional: false,
            },
            FieldSpec {
                name: "age".into(),
                ty: FieldType::Int8,
                optional: false,
            },
            FieldSpec {
                name: "is_male".into(),
                ty: FieldType::Bool,
                optional: false,
            },
        ],
        "name",
    )
}

fn add_person(
    engine: &mut Script,
    rw_txn: &mut RwTxn,
    name: String,
    age: i8,
    is_male: bool,
) -> Result<i64, tugraph::Error> {
    rw_txn.add_vertex(
        engine,
        "Person",
        &["name", "age", "is_male"],
        &[
            FieldData::String(name),
            FieldData::Int8(age),
            FieldData::Bool(is_male),
        ],
    )
}

fn comment_label() -> (&'static str, [FieldSpec; 1], &'static str) {
    (
        "Comment",
        [FieldSpec {
            name: "content".into(),
            ty: FieldType::String,
            optional: false,
        }],
        "content",
    )
}

fn add_comment(
    engine: &mut Script,
    rw_txn: &mut RwTxn,
    content: String,
) -> Result<i64, tugraph::Error> {
    rw_txn.add_vertex(
        engine,
        "Comment",
        &["content"],
        &[FieldData::String(content)],
    )
}

fn post_label() -> (
    &'static str,
    [FieldSpec; 1],
    &'static str,
    [(&'static str, &'static str); 1],
) {
    (
        "Post",
        [FieldSpec {
            name: "datetime".into(),
            ty: FieldType::DateTime,
            optional: false,
        }],
        "",
        [("Person", "Comment")],
    )
}

fn add_post(
    engine: &mut Script,
    rw_txn: &mut RwTxn,
    person: i64,
    datetime: chrono::NaiveDateTime,
    comment: i64,
) -> Result<EdgeUid, tugraph::Error> {
    rw_txn.add_edge(
        engine,
        person,
        comment,
        "Post",
        &["datetime"],
        &[FieldData::DateTime(DateTime::from_native(datetime))],
    )
}

fn add_person_post_comment_schema(engine: &mut Script, graph: &Graph) {
    let person = person_label();
    let ret = graph
        .add_vertex_label(engine, person.0, &person.1, person.2)
        .unwrap();
    assert!(ret);
    let comment = comment_label();
    let ret = graph
        .add_vertex_label(engine, comment.0, &comment.1, comment.2)
        .unwrap();
    assert!(ret);
    let post = post_label();
    let ret = graph
        .add_edge_label(engine, post.0, &post.1, post.2, &post.3)
        .unwrap();
    assert!(ret);
}

fn now() -> chrono::NaiveDateTime {
    chrono::DateTime::from_timestamp(1_700_000_000, 0)
        .unwrap()
        .naive_utc()
}

const POST: RawEdgeUid = RawEdgeUid {
    src: 0,
    dst: 1,
    lid: 0,
    tid: 0,
    eid: 0,
};

#[test]
fn test_graph_add() {
    let mut engine = Script::new(vec![
        Answer::Handle(1),
        Answer::Handle(2),
        Answer::Flag(true),
        Answer::Flag(true),
        Answer::Flag(true),
        Answer::Handle(3),
        Answer::Int(0),
        Answer::Int(1),
        Answer::Uid(POST),
        Answer::Unit,
        Answer::Handle(4),
        Answer::Handle(10),
        Answer::Probe(true),
        Answer::Int(0),
        Answer::Flag(true),
        Answer::Probe(true),
        Answer::Int(1),
        Answer::Flag(false),
        Answer::Probe(false),
        Answer::Handle(11),
        Answer::Flag(true),
        Answer::Handle(12),
        Answer::Probe(true),
        Answer::Uid(POST),
        Answer::Flag(false),
        Answer::Probe(false),
    ]);
    let galaxy = open_default(&mut engine);
    let default_graph = galaxy.open_graph(&mut engine, "default", false).unwrap();
    add_person_post_comment_schema(&mut engine, &default_graph);

    let mut rw_txn = default_graph.create_rw_txn(&mut engine, false).unwrap();
    let alice = add_person(&mut engine, &mut rw_txn, "Alice".to_string(), 17, false).unwrap();
    let comment = add_comment(
        &mut engine,
        &mut rw_txn,
        "Alice is 17 years old".to_string(),
    ).unwrap();
    let post = add_post(&mut engine, &mut rw_txn, alice, now(), comment).unwrap();
    rw_txn.commit(&mut engine).unwrap();

    let ro_txn = default_graph.create_ro_txn(&mut engine).unwrap();

    let mut pulls = ro_txn.vertex_cur(&mut engine).unwrap().into_vertex_ids();
    let vids: Vec<_> = pull_all(&mut engine, |e| pulls.next(e));
    assert_eq!(vids, vec![alice, comment]);

    let mut vcur = ro_txn.vertex_cur(&mut engine).unwrap();
    vcur.seek(&mut engine, alice, true)
        .expect("seek to alice should be ok");
    let mut pulls = vcur
        .out_edge_cursor(&mut engine)
        .map(|oecur| oecur.into_edge_uids())
        .unwrap();
    let edges: Vec<_> = pull_all(&mut engine, |e| pulls.next(e));
    assert_eq!(edges.len(), 1);
    assert_eq!(edges[0], post);
    assert_eq!(
        engine.requests()[4].args,
        vec![
            Arg::Text("Post".into()),
            Arg::Specs(vec![RawFieldSpec {
                name: "datetime".into(),
                ty: 9,
                optional: false
            }]),
            Arg::Text("".into()),
            Arg::Texts(vec!["Person".into()]),
            Arg::Texts(vec!["Comment".into()]),
        ]
    );
}

#[test]
fn test_graph_mod() {
    let changed_datatime = now().and_utc().timestamp();
    let changed = FieldData::DateTime(DateTime::from_timestamp_opt(changed_datatime).unwrap());
    let mut engine = Script::new(vec![
        Answer::Handle(1),
        Answer::Handle(2),
        Answer::Flag(true),
        Answer::Flag(true),
        Answer::Flag(true),
        Answer::Handle(3),
        Answer::Int(0),
        Answer::Int(1),
        Answer::Uid(POST),
        Answer::Handle(10),
        Answer::Probe(true),
        Answer::Unit,
        Answer::Flag(true),
        Answer::Probe(true),
        Answer::Unit,
        Answer::Flag(true),
        Answer::Handle(11),
        Answer::Probe(true),
        Answer::Unit,
        Answer::Unit,
        Answer::Handle(4),
        Answer::Handle(12),
        Answer::Probe(true),
        Answer::Int(0),
        Answer::Field(FieldData::Int8(20).as_raw_field_data()),
        Answer::Flag(true),
        Answer::Probe(true),
        Answer::Field(FieldData::String("Alice is 20 years old".to_string()).as_raw_field_data()),
        Answer::Flag(true),
        Answer::Handle(13),
        Answer::Field(changed.as_raw_field_data()),
    ]);
    let galaxy = open_default(&mut engine);
    let default_graph = galaxy.open_graph(&mut engine, "default", false).unwrap();
    add_person_post_comment_schema(&mut engine, &default_graph);

    let mut rw_txn = default_graph.create_rw_txn(&mut engine, false).unwrap();
    let alice = add_person(&mut engine, &mut rw_txn, "Alice".to_string(), 17, false).unwrap();
    let comment = add_comment(
        &mut engine,
        &mut rw_txn,
        "Alice is 18 years old".to_string(),
    ).unwrap();
    let _ = add_post(&mut engine, &mut rw_txn, alice, now(), comment).unwrap();
    {
        let mut vcur_mut = rw_txn.vertex_cur_mut(&mut engine).unwrap();
        assert!(vcur_mut.is_valid(&mut engine));
        vcur_mut
            .set_field(&mut engine, "age", &FieldData::Int8(20))
            .unwrap();
        assert!(vcur_mut.seek_to_next(&mut engine).unwrap());
        assert!(vcur_mut.is_valid(&mut engine));
        vcur_mut
            .set_field(
                &mut engine,
                "content",
                &FieldData::String("Alice is 20 years old".to_string()),
            )
            .unwrap();

        vcur_mut
            .seek(&mut engine, alice, true)
            .expect("seek to alice should be ok");
        let oecur_mut = vcur_mut.out_edge_cursor_mut(&mut engine).unwrap();
        assert!(oecur_mut.is_valid(&mut engine));
        oecur_mut
            .set_field(&mut engine, "datetime", &changed)
            .unwrap();
    }
    rw_txn.commit(&mut engine).unwrap();

    let ro_txn = default_graph.create_ro_txn(&mut engine).unwrap();
    let mut vcur = ro_txn.vertex_cur(&mut engine).unwrap();
    assert!(vcur.is_valid(&mut engine));
    assert_eq!(vcur.id(&mut engine).unwrap(), alice);
    assert_eq!(vcur.field(&mut engine, "age").unwrap(), FieldData::Int8(20));
    assert!(vcur.seek_to_next(&mut engine).unwrap());
    assert!(vcur.is_valid(&mut engine));
    assert_eq!(
        vcur.field(&mut engine, "content").unwrap(),
        FieldData::String("Alice is 20 years old".to_string())
    );
    vcur.seek(&mut engine, alice, true)
        .expect("seek to alice should be ok");
    let oecur = vcur.out_edge_cursor(&mut engine).unwrap();
    assert_eq!(
        oecur.field(&mut engine, "datetime").unwrap(),
        FieldData::DateTime(DateTime::from_timestamp_opt(changed_datatime).unwrap())
    );
    assert_eq!(engine.left(), 0);
}

#[test]
fn deleting_a_label_hands_on_the_flag_and_the_count() {
    let mut engine = Script::new(vec![
        Answer::Handle(1),
        Answer::Handle(2),
        Answer::FlagSize((true, 3)),
        Answer::FlagSize((false, 0)),
        Answer::FlagSize((true, 0)),
        Answer::Failure("Invalid GraphDB.".to_string()),
    ]);
    let galaxy = open_default(&mut engine);
    let graph = galaxy.open_graph(&mut engine, "default", false).unwrap();
    assert_eq!(graph.delete_vertex_label(&mut engine, "Person"), Ok((true, 3)));
    assert_eq!(graph.delete_vertex_label(&mut engine, "Person"), Ok((false, 0)));
    assert_eq!(graph.delete_edge_label(&mut engine, "Post"), Ok((true, 0)));
    assert_eq!(
        graph
            .alter_vertex_label_del_fields(&mut engine, "Person", &["age", "is_male"])
            .unwrap_err()
            .kind(),
        ErrorKind::InvalidGraphDB
    );
    assert_eq!(engine.requests()[2].op, Op::DeleteVertexLabel);
    assert_eq!(engine.requests()[2].args, vec![Arg::Text("Person".into())]);
    assert_eq!(
        engine.requests()[5].args,
        vec![
            Arg::Text("Person".into()),
            Arg::Texts(vec!["age".into(), "is_male".into()])
        ]
    );
}

#[test]
fn schema_changes_send_specs_and_defaults() {
    let mut engine = Script::new(vec![
        Answer::FlagSize((true, 2)),
        Answer::FlagSize((true, 2)),
        Answer::Flag(true),
        Answer::Unit,
        Answer::Unit,
        Answer::Size(42),
        Answer::Text("about".to_string()),
        Answer::Size(1 << 30),
        Answer::Flag(true),
        Answer::Flag(false),
    ]);
    let graph = Graph::from_id(3);
    let age = FieldSpec {
        name: "age".into(),
        ty: FieldType::Int8,
        optional: true,
    };
    graph
        .alter_vertex_label_add_fields(
            &mut engine,
            "Person",
            &[age.clone()],
            &[FieldData::Int8(0)],
        )
        .unwrap();
    graph
        .alter_edge_label_mod_fields(&mut engine, "Post", &[age.clone()])
        .unwrap();
    graph
        .alter_label_mod_edge_constraints(&mut engine, "Post", &[("A", "B"), ("C", "D")])
        .unwrap();
    graph
        .rebuild_full_text_index(&mut engine, &["Person"], &[])
        .unwrap();
    graph.flush(&mut engine).unwrap();
    assert_eq!(graph.estimate_num_vertices(&mut engine), Ok(42));
    assert_eq!(graph.get_description(&mut engine), Ok("about".to_string()));
    assert_eq!(graph.get_max_size(&mut engine), Ok(1 << 30));
    assert_eq!(graph.add_vertex_index(&mut engine, "Person", "age", true), Ok(true));
    assert_eq!(graph.is_edge_indexed(&mut engine, "Post", "datetime"), Ok(false));
    let g = Handle {
        kind: Kind::GraphDb,
        id: 3,
    };
    assert!(engine.requests().iter().all(|r| r.target == g));
    assert_eq!(
        engine.requests()[0].args,
        vec![
            Arg::Text("Person".into()),
            Arg::Specs(vec![age.as_raw_field_spec()]),
            Arg::Fields(vec![FieldData::Int8(0).as_raw_field_data()]),
        ]
    );
    assert_eq!(
        engine.requests()[2].args,
        vec![
            Arg::Text("Post".into()),
            Arg::Texts(vec!["A".into(), "C".into()]),
            Arg::Texts(vec!["B".into(), "D".into()]),
        ]
    );
    assert_eq!(
        engine.requests()[3].args,
        vec![Arg::Texts(vec!["Person".into()]), Arg::Texts(vec![])]
    );
    assert_eq!(
        engine.requests()[8].args,
        vec![
            Arg::Text("Person".into()),
            Arg::Text("age".into()),
            Arg::Flag(true)
        ]
    );
}

#[test]
fn full_text_indexes_are_listed_row_by_row() {
    let mut engine = Script::new(vec![
        Answer::TextIndexes((
            vec![true, false, true],
            vec!["Person".into(), "Post".into()],
            vec!["name".into(), "content".into(), "beyond".into()],
        )),
        Answer::TextIndexes((vec![], vec![], vec![])),
    ]);
    let graph = Graph::from_id(1);
    let indexes = graph.list_full_text_indexes(&mut engine).unwrap();
    let rows: Vec<_> = indexes
        .iter()
        .map(|i| (i.is_vertex, i.label_name.as_str(), i.field_name.as_str()))
        .collect();
    assert_eq!(rows, vec![(true, "Person", "name"), (false, "Post", "content")]);
    assert!(graph.list_full_text_indexes(&mut engine).unwrap().is_empty());
}

#[test]
fn closing_a_graph_closes_then_destroys_it() {
    let mut engine = Script::new(vec![Answer::Unit]);
    Graph::from_id(4).close(&mut engine).unwrap();
    let ops: Vec<_> = engine.requests().iter().map(|r| r.op).collect();
    assert_eq!(ops, vec![Op::Close, Op::Destroy]);
}

#[test]
fn a_full_text_query_pairs_each_vertex_with_its_score() {
    let scores = [0.75f32, 0.5, 0.125];
    let mut engine = Script::new(vec![
        Answer::Hits((vec![7, 3, 9], scores.iter().map(|s| s.to_bits()).collect())),
        Answer::Hits((vec![1, 2], vec![1.0f32.to_bits()])),
        Answer::Hits((vec![], vec![])),
        Answer::Failure("Invalid parameter.".into()),
        Answer::Flag(true),
    ]);
    let graph = Graph::from_id(5);
    let found = graph
        .query_vertex_by_full_text_index(&mut engine, "Comment", "content:nice", 3)
        .unwrap();
    assert_eq!(
        found,
        vec![
            QueryVertexFTIndex { vid: 7, score: 0.75f32.to_bits() },
            QueryVertexFTIndex { vid: 3, score: 0.5f32.to_bits() },
            QueryVertexFTIndex { vid: 9, score: 0.125f32.to_bits() },
        ]
    );
    assert_eq!(f32::from_bits(found[0].score), 0.75);
    assert_eq!(
        graph.query_vertex_by_full_text_index(&mut engine, "Comment", "content:nice", 3),
        Ok(vec![QueryVertexFTIndex { vid: 1, score: 1.0f32.to_bits() }])
    );
    assert_eq!(graph.query_vertex_by_full_text_index(&mut engine, "Comment", "x", 0), Ok(vec![]));
    assert_eq!(
        graph
            .query_vertex_by_full_text_index(&mut engine, "Comment", "x", -1)
            .unwrap_err()
            .kind(),
        ErrorKind::InvalidParameter
    );
    assert_eq!(
        graph
            .query_vertex_by_full_text_index(&mut engine, "Comment", "x", 1)
            .unwrap_err()
            .msg(),
        "The script has no answer of this kind."
    );
    let first = &engine.requests()[0];
    assert_eq!(first.op, Op::QueryVertexByFullTextIndex);
    assert_eq!(first.target, Handle { kind: Kind::GraphDb, id: 5 });
    assert_eq!(
        first.args,
        vec![Arg::Text("Comment".into()), Arg::Text("content:nice".into()), Arg::Int(3)]
    );
    assert_eq!(engine.requests()[3].args[2], Arg::Int(-1));
}

#[test]
fn a_full_text_query_pairs_each_edge_with_its_score() {
    let uid = |src, dst| RawEdgeUid { src, dst, lid: 2, tid: 0, eid: 0 };
    let mut engine = Script::new(vec![
        Answer::EdgeHits((
            vec![uid(1, 2), uid(3, 4), uid(5, 6)],
            vec![0.5f32.to_bits(), 0.25f32.to_bits()],
        )),
        Answer::Failure("Access denied.".into()),
    ]);
    let graph = Graph::from_id(5);
    assert_eq!(
        graph.query_edge_by_full_text_index(&mut engine, "Post", "date:[2002 TO 2003]", 3),
        Ok(vec![
            QueryEdgeFTIndex {
                euid: EdgeUid { src: 1, lid: 2, tid: 0, dst: 2, eid: 0 },
                score: 0.5f32.to_bits(),
            },
            QueryEdgeFTIndex {
                euid: EdgeUid { src: 3, lid: 2, tid: 0, dst: 4, eid: 0 },
                score: 0.25f32.to_bits(),
            },
        ])
    );
    assert_eq!(
        graph
            .query_edge_by_full_text_index(&mut engine, "Post", "x", 3)
            .unwrap_err()
            .kind(),
        ErrorKind::WriteNotAllowed
    );
    assert_eq!(engine.requests()[0].op, Op::QueryEdgeByFullTextIndex);
    assert_eq!(
        engine.requests()[0].args,
        vec![Arg::Text("Post".into()), Arg::Text("date:[2002 TO 2003]".into()), Arg::Int(3)]
    );
}
