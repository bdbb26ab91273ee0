use std::collections::HashSet;

use tugraph::cursor::VertexCursor;
use tugraph::db::Galaxy;
use tugraph::engine::{Arg, Op};
use tugraph::field::{FieldData, FieldSpec, FieldType};
use tugraph::raw::{RawEdgeUid, RawIndexSpec};
use tugraph::script::{Answer, Script};
use tugraph::txn::{TxnRead, TxnWrite};
use tugraph::types::DateTime;
use tugraph::Error;

fn pull_all<T>(
    engine: &mut Script,
    mut next: impl FnMut(&mut Script) -> Result<Option<T>, Error>,
) -> Vec<T> {
    let mut items = Vec::new();
    while let Some(item) = next(engine).expect("valid iterator should get value") {
        items.push(item);
    }
    items
}

fn index(label: &str, field: &str, unique: bool) -> RawIndexSpec {
    RawIndexSpec {
        label: label.to_string(),
        field: field.to_string(),
        unique,
    }
}

#[test]
fn test_search_with_index() {
    const NUM_ALICE_POSTS: usize = 5;
    let time = |i: i64| FieldData::DateTime(DateTime::from_timestamp_opt(1000 + i).unwrap());
    let mut answers = vec![
        Answer::Handle(1),
        Answer::Handle(2),
        Answer::Flag(true),
        Answer::Flag(true),
        Answer::Flag(true),
        Answer::Flag(true),
        Answer::Flag(true),
        Answer::Handle(3),
        Answer::Int(0),
        Answer::Int(1),
        Answer::Int(2),
    ];
    for i in 0..NUM_ALICE_POSTS as i64 {
        answers.push(Answer::Int(3 + i));
        answers.push(Answer::Uid(RawEdgeUid {
            src: 2,
            dst: 3 + i,
            lid: 0,
            tid: 0,
            eid: 0,
        }));
    }
    answers.extend([
        Answer::Unit,
        Answer::Handle(4),
        Answer::Flag(true),
        Answer::Flag(false),
        Answer::Flag(true),
        Answer::Indexes(vec![
            index("Person", "id", true),
            index("Person", "age", false),
            index("Comment", "id", true),
        ]),
        Answer::Indexes(vec![index("Post", "datetime", false)]),
        Answer::Handle(10),
        Answer::Probe(true),
        Answer::Field(FieldData::Int8(18).as_raw_field_data()),
        Answer::Flag(false),
        Answer::Probe(false),
        Answer::Handle(11),
    ]);
    for i in 1..NUM_ALICE_POSTS as i64 {
        answers.extend([
            Answer::Probe(true),
            Answer::Field(time(i).as_raw_field_data()),
            Answer::Flag(true),
        ]);
    }
    answers.extend([
        Answer::Probe(false),
        Answer::Handle(12),
        Answer::Probe(true),
        Answer::Field(FieldData::String("Jack".into()).as_raw_field_data()),
        Answer::Size(0),
        Answer::Size(0),
        Answer::Handle(13),
        Answer::Probe(true),
        Answer::Field(FieldData::String("Jack".into()).as_raw_field_data()),
    ]);
    let mut engine = Script::new(answers);

    let galaxy = Galaxy::open(
        &mut engine,
        "/tmp/rust_tugraph/index",
        "admin",
        "73@TuGraph",
    ).unwrap();
    let graph = galaxy.open_graph(&mut engine, "default", false).unwrap();
    assert!(graph
        .add_vertex_label(
            &mut engine,
            "Person",
            &[
                FieldSpec {
                    name: "id".into(),
                    ty: FieldType::Int64,
                    optional: false,
                },
                FieldSpec {
                    name: "name".into(),
                    ty: FieldType::String,
                    optional: false,
                },
                FieldSpec {
                    name: "age".into(),
                    ty: FieldType::Int8,
                    optional: false,
                },
            ],
            "id",
        )
        .unwrap());
    assert!(graph
        .add_vertex_label(
            &mut engine,
            "Comment",
            &[
                FieldSpec {
                    name: "id".into(),
                    ty: FieldType::Int64,
                    optional: false,
                },
                FieldSpec {
                    name: "content".into(),
                    ty: FieldType::String,
                    optional: false,
                },
            ],
            "id",
        )
        .unwrap());
    assert!(graph
        .add_edge_label(
            &mut engine,
            "Post",
            &[FieldSpec {
                name: "datetime".into(),
                ty: FieldType::DateTime,
                optional: false,
            },],
            "",
            &[("Person", "Comment")]
        )
        .unwrap());
    assert!(graph
        .add_vertex_index(&mut engine, "Person", "age", false)
        .unwrap());
    assert!(graph
        .add_edge_index(&mut engine, "Post", "datetime", false)
        .unwrap());
    {
        let mut rw_txn = graph.create_rw_txn(&mut engine, false).unwrap();
        let _bob = rw_txn
            .add_vertex(
                &mut engine,
                "Person",
                &["id", "name", "age"],
                &[
                    FieldData::Int64(0),
                    FieldData::String("Bob".into()),
                    FieldData::Int8(18),
                ],
            )
            .unwrap();
        let _jack = rw_txn
            .add_vertex(
                &mut engine,
                "Person",
                &["id", "name", "age"],
                &[
                    FieldData::Int64(1),
                    FieldData::String("Jack".into()),
                    FieldData::Int8(21),
                ],
            )
            .unwrap();
        let alice = rw_txn
            .add_vertex(
                &mut engine,
                "Person",
                &["id", "name", "age"],
                &[
                    FieldData::Int64(2),
                    FieldData::String("Alice".into()),
                    FieldData::Int8(17),
                ],
            )
            .unwrap();
        (0..NUM_ALICE_POSTS).for_each(|i| {
            let comment = rw_txn
                .add_vertex(
                    &mut engine,
                    "Comment",
                    &["id", "content"],
                    &[
                        FieldData::Int64(i as i64),
                        FieldData::String(format!("Alice's Comment {i}")),
                    ],
                )
                .unwrap();
            rw_txn
                .add_edge(
                    &mut engine,
                    alice,
                    comment,
                    "Post",
                    &["datetime"],
                    &[FieldData::DateTime(
                        DateTime::from_timestamp_opt(1000 + i as i64).unwrap(),
                    )],
                )
                .unwrap();
        });
        rw_txn.commit(&mut engine).unwrap();
    }
    {
        let ro_txn = graph.create_ro_txn(&mut engine).unwrap();
        assert!(ro_txn.is_vertex_indexed(&mut engine, "Person", "age").unwrap());
        assert!(!ro_txn
            .is_vertex_indexed(&mut engine, "Comment", "content")
            .unwrap());
        assert!(ro_txn.is_edge_indexed(&mut engine, "Post", "datetime").unwrap());
        let v_indexes = ro_txn.all_vertex_indexes(&mut engine).unwrap();
        assert_eq!(v_indexes.len(), 3);
        assert_eq!(
            v_indexes
                .iter()
                .map(|i| format!("{}.{}", i.label, i.field))
                .collect::<HashSet<_>>(),
            HashSet::from_iter(["Person.id".into(), "Person.age".into(), "Comment.id".into()])
        );
        let e_indexes = ro_txn.all_edge_indexes(&mut engine).unwrap();
        assert_eq!(e_indexes.len(), 1);
        assert_eq!(
            e_indexes
                .iter()
                .map(|i| format!("{}.{}", i.label, i.field))
                .collect::<HashSet<_>>(),
            HashSet::from_iter(["Post.datetime".into()])
        );
        let mut pulls = ro_txn
            .vertex_index_iter_values_from(
                &mut engine,
                "Person",
                "age",
                &FieldData::Int8(18),
                &FieldData::Int8(20),
            )
            .unwrap();
        let ages: Vec<_> = pull_all(&mut engine, |e| pulls.next(e));
        assert_eq!(ages, vec![FieldData::Int8(18)]);
        let mut pulls = ro_txn
            .edge_index_iter_values_from(
                &mut engine,
                "Post",
                "datetime",
                &FieldData::DateTime(DateTime::from_timestamp_opt(1001).unwrap()),
                &FieldData::DateTime(DateTime::from_timestamp_opt(2000).unwrap()),
            )
            .unwrap();
        let post_times: Vec<_> = pull_all(&mut engine, |e| pulls.next(e));
        assert_eq!(
            post_times,
            (0..NUM_ALICE_POSTS)
                .map(|i| 1000 + i)
                .filter(|i| (1001..2000).contains(i))
                .map(|datetime| {
                    FieldData::DateTime(DateTime::from_timestamp_opt(datetime as i64).unwrap())
                })
                .collect::<Vec<_>>()
        );
        let primary_vertex_index = ro_txn
            .unique_index_vertex_cur(&mut engine, "Person", "id", &FieldData::Int64(1))
            .unwrap();
        assert!(primary_vertex_index.is_valid(&mut engine));
        assert_eq!(
            primary_vertex_index.field(&mut engine, "name").unwrap(),
            FieldData::String("Jack".into())
        );
        let person_lid = ro_txn.vertex_label_id(&mut engine, "Person").unwrap();
        let person_id_fid = ro_txn
            .vertex_field_id(&mut engine, person_lid, "id")
            .unwrap();
        let primary_vertex_index = ro_txn
            .unique_index_vertex_cur_by_id(
                &mut engine,
                person_lid,
                person_id_fid,
                &FieldData::Int64(1),
            )
            .unwrap();
        assert!(primary_vertex_index.is_valid(&mut engine));
        assert_eq!(
            primary_vertex_index.field(&mut engine, "name").unwrap(),
            FieldData::String("Jack".into())
        );
    }
    assert_eq!(engine.left(), 0);
    let range = engine
        .requests()
        .iter()
        .find(|r| r.op == Op::GetVertexIndexIteratorByData)
        .unwrap();
    assert_eq!(
        range.args,
        vec![
            Arg::Text("Person".into()),
            Arg::Text("age".into()),
            Arg::Field(FieldData::Int8(18).as_raw_field_data()),
            Arg::Field(FieldData::Int8(20).as_raw_field_data()),
        ]
    );
}

#[test]
fn an_index_pull_hands_out_the_id_with_the_value() {
    let mut engine = Script::new(vec![
        Answer::Handle(5),
        Answer::Probe(true),
        Answer::Int(0),
        Answer::Field(FieldData::Int8(18).as_raw_field_data()),
        Answer::Flag(false),
        Answer::Probe(false),
        Answer::Unit,
    ]);
    let txn = tugraph::txn::RoTxn::from_raw(1);
    let mut pulls = txn
        .vertex_index_iter_from_by_id(&mut engine, 0, 2, &FieldData::Int8(18), &FieldData::Int8(20))
        .unwrap();
    assert_eq!(pulls.next(&mut engine), Ok(Some((0, FieldData::Int8(18)))));
    assert_eq!(pulls.next(&mut engine), Ok(None));
    pulls.close(&mut engine).unwrap();
    let ops: Vec<_> = engine.requests().iter().map(|r| r.op).collect();
    assert_eq!(
        ops,
        vec![
            Op::GetVertexIndexIteratorById,
            Op::IsValid,
            Op::GetId,
            Op::GetIndexValue,
            Op::Next,
            Op::IsValid,
            Op::Close,
            Op::Destroy,
        ]
    );
    assert_eq!(
        engine.requests()[0].args,
        vec![
            Arg::Size(0),
            Arg::Size(2),
            Arg::Field(FieldData::Int8(18).as_raw_field_data()),
            Arg::Field(FieldData::Int8(20).as_raw_field_data()),
        ]
    );
}
