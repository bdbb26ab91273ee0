use std::collections::HashSet;
use std::iter::repeat;

use tugraph::cursor::{EdgeCursor, VertexCur, VertexCursor, VertexCursorMut};
use tugraph::db::Galaxy;
use tugraph::engine::{Arg, Handle, Kind, Op, Request};
use tugraph::field::{FieldData, FieldSpec, FieldType};
use tugraph::raw::{RawEdgeUid, RawFieldData};
use tugraph::script::{Answer, Script};
use tugraph::txn::{RoTxn, RwTxn, TxnRead, TxnWrite};
use tugraph::types::EdgeUid;
use tugraph::{Error, ErrorKind};

fn pull_all<T>(
    engine: &mut Script,
    mut next: impl FnMut(&mut Script) -> Result<Option<T>, Error>,
) -> Vec<T> {
    let mut items = Vec::new();
    while let Some(item) = next(engine).expect("valid iterator should get value") {
        items.push(item);
    }
    items
}

fn int64(v: i64) -> RawFieldData {
    FieldData::Int64(v).as_raw_field_data()
}

fn one_field(name: &str, v: i64) -> Answer {
    Answer::NamedFields((vec![name.to_string()], vec![int64(v)]))
}

fn id_spec() -> [FieldSpec; 1] {
    [FieldSpec {
        name: "id".into(),
        ty: FieldType::Int64,
        optional: false,
    }]
}

#[test]
fn test_vertex_cursor() {
    const NUM_VERTEX: usize = 10;
    let labels = ["Node_0", "Node_1", "Node_2"];
    let vertices: Vec<(i64, usize, i64)> = (0..NUM_VERTEX * 3)
        .map(|v| (v as i64, v % 3, (v / 3) as i64))
        .collect();

    let mut answers = vec![
        Answer::Handle(1),
        Answer::Handle(2),
        Answer::Flag(true),
        Answer::Flag(true),
        Answer::Flag(true),
        Answer::Handle(3),
    ];
    answers.extend(vertices.iter().map(|v| Answer::Int(v.0)));
    answers.push(Answer::Unit);
    answers.push(Answer::Handle(4));
    answers.push(Answer::Handle(10));
    for v in &vertices {
        answers.extend([
            Answer::Probe(true),
            Answer::Int(v.0),
            Answer::Text(labels[v.1].to_string()),
            one_field("id", v.2),
            Answer::Flag(true),
        ]);
    }
    answers.push(Answer::Probe(false));
    answers.push(Answer::Handle(11));
    for v in &vertices {
        answers.extend([
            Answer::Probe(true),
            Answer::Text(labels[v.1].to_string()),
            Answer::Flag(true),
        ]);
    }
    answers.push(Answer::Probe(false));
    answers.push(Answer::Handle(12));
    for v in &vertices {
        answers.extend([Answer::Probe(true), Answer::Int(v.0), Answer::Flag(true)]);
    }
    answers.push(Answer::Probe(false));
    answers.push(Answer::Handle(13));
    for v in &vertices {
        answers.extend([Answer::Probe(true), one_field("id", v.2), Answer::Flag(true)]);
    }
    answers.push(Answer::Probe(false));
    answers.extend([Answer::Size(0), Answer::Size(1), Answer::Size(2)]);
    answers.push(Answer::Handle(14));
    for v in &vertices {
        answers.extend([
            Answer::Probe(true),
            Answer::Short(v.1 as u16),
            Answer::Flag(true),
        ]);
    }
    answers.push(Answer::Probe(false));
    let mut engine = Script::new(answers);

    let galaxy = Galaxy::open(
        &mut engine,
        "/tmp/rust_tugraph/cursor",
        "admin",
        "73@TuGraph",
    ).unwrap();
    let graph = galaxy.open_graph(&mut engine, "default", false).unwrap();
    for label in labels {
        graph
            .add_vertex_label(&mut engine, label, &id_spec(), "id")
            .unwrap();
    }

    {
        let mut rw_txn = graph.create_rw_txn(&mut engine, false).unwrap();
        (0..NUM_VERTEX).for_each(|i| {
            fn add_node(engine: &mut Script, rw_txn: &mut RwTxn<'_>, label: &str, id: i64) {
                rw_txn
                    .add_vertex(engine, label, &["id"], &[FieldData::Int64(id)])
                    .unwrap();
            }
            add_node(&mut engine, &mut rw_txn, "Node_0", i as i64);
            add_node(&mut engine, &mut rw_txn, "Node_1", i as i64);
            add_node(&mut engine, &mut rw_txn, "Node_2", i as i64);
        });
        rw_txn.commit(&mut engine).unwrap();
    }

    {
        let ro_txn = graph.create_ro_txn(&mut engine).unwrap();
        let mut pulls = ro_txn.vertex_cur(&mut engine).unwrap().into_vertices();
        assert_eq!(
            pull_all(&mut engine, |e| pulls.next(e)).len(),
            NUM_VERTEX * 3
        );
        let mut pulls = ro_txn.vertex_cur(&mut engine).unwrap().into_vertex_labels();
        assert_eq!(
            pull_all(&mut engine, |e| pulls.next(e))
                .into_iter()
                .collect::<HashSet<_>>(),
            HashSet::from_iter(["Node_0".into(), "Node_1".into(), "Node_2".into()])
        );
        let mut pulls = ro_txn.vertex_cur(&mut engine).unwrap().into_vertex_ids();
        assert_eq!(
            pull_all(&mut engine, |e| pulls.next(e))
                .into_iter()
                .max()
                .unwrap(),
            (NUM_VERTEX * 3 - 1) as i64
        );
        let mut pulls = ro_txn.vertex_cur(&mut engine).unwrap().into_vertex_fields();
        assert_eq!(
            pull_all(&mut engine, |e| pulls.next(e))
                .into_iter()
                .map(|fd| {
                    assert_eq!(fd.len(), 1);
                    match fd.first().unwrap() {
                        FieldData::Int64(v) => *v,
                        _ => panic!("fail to convert int64"),
                    }
                })
                .filter(|id| *id == (NUM_VERTEX - 1) as i64)
                .count(),
            3
        );
        let lids: HashSet<_> = ["Node_0", "Node_1", "Node_2"]
            .map(|label| ro_txn.vertex_label_id(&mut engine, label).unwrap() as u16)
            .into();
        let mut pulls = ro_txn.vertex_cur(&mut engine).unwrap().into_vertex_lids();
        assert_eq!(
            pull_all(&mut engine, |e| pulls.next(e))
                .into_iter()
                .collect::<HashSet<_>>(),
            lids
        );
    }
    assert_eq!(engine.left(), 0);
}

fn edge_uid(src: i64, dst: i64, lid: u16, tid: i64, eid: i64) -> RawEdgeUid {
    RawEdgeUid {
        src,
        dst,
        lid,
        tid,
        eid,
    }
}

#[test]
fn test_edge_cursor() {
    const NUM_INDEXED_EDGE: usize = 5;
    const NUM_TEMPORAL_EDGE: usize = 10;
    let (src, dst) = (0i64, 1i64);
    // the out edges of src in key order: (label id, temporal id, edge id)
    let edges: Vec<(u16, i64, i64)> = (0..NUM_INDEXED_EDGE as i64)
        .map(|i| (0u16, 0i64, i))
        .chain((0..NUM_TEMPORAL_EDGE as i64).map(|i| (1u16, i, 0i64)))
        .collect();
    let label_of = |lid: u16| if lid == 0 { "IndexedEdge" } else { "TemporalEdge" };

    let mut answers = vec![
        Answer::Handle(1),
        Answer::Handle(2),
        Answer::Flag(true),
        Answer::Flag(true),
        Answer::Flag(true),
        Answer::Flag(true),
        Answer::Flag(true),
        Answer::Handle(3),
        Answer::Int(src),
        Answer::Int(dst),
    ];
    answers.extend(edges.iter().map(|e| Answer::Uid(edge_uid(src, dst, e.0, e.1, e.2))));
    answers.push(Answer::Unit);
    answers.push(Answer::Handle(4));
    // out edges of src, counted
    answers.extend([Answer::Handle(20), Answer::Flag(true), Answer::Handle(21)]);
    for e in &edges {
        answers.extend([
            Answer::Probe(true),
            Answer::Uid(edge_uid(src, dst, e.0, e.1, e.2)),
            Answer::Text(label_of(e.0).to_string()),
            one_field("f", e.1),
            Answer::Flag(true),
        ]);
    }
    answers.push(Answer::Probe(false));
    answers.push(Answer::FlagSize((false, edges.len())));
    // in edges of dst, counted
    answers.extend([Answer::Handle(22), Answer::Flag(true), Answer::Handle(23)]);
    for e in &edges {
        answers.extend([
            Answer::Probe(true),
            Answer::Uid(edge_uid(src, dst, e.0, e.1, e.2)),
            Answer::Text(label_of(e.0).to_string()),
            one_field("f", e.1),
            Answer::Flag(true),
        ]);
    }
    answers.push(Answer::Probe(false));
    answers.push(Answer::FlagSize((false, edges.len())));
    // projections of the out edges of src
    answers.extend([Answer::Handle(24), Answer::Flag(true)]);
    answers.push(Answer::Handle(25));
    for _ in &edges {
        answers.extend([Answer::Probe(true), Answer::Int(src), Answer::Flag(true)]);
    }
    answers.push(Answer::Probe(false));
    answers.push(Answer::Handle(26));
    for _ in &edges {
        answers.extend([Answer::Probe(true), Answer::Int(dst), Answer::Flag(true)]);
    }
    answers.push(Answer::Probe(false));
    answers.push(Answer::Handle(27));
    for e in &edges {
        answers.extend([
            Answer::Probe(true),
            Answer::Text(label_of(e.0).to_string()),
            Answer::Flag(true),
        ]);
    }
    answers.push(Answer::Probe(false));
    answers.push(Answer::Handle(28));
    for e in &edges {
        answers.extend([Answer::Probe(true), Answer::Int(e.1), Answer::Flag(true)]);
    }
    answers.push(Answer::Probe(false));
    answers.push(Answer::Handle(29));
    for e in &edges {
        answers.extend([Answer::Probe(true), Answer::Int(e.2), Answer::Flag(true)]);
    }
    answers.push(Answer::Probe(false));
    answers.push(Answer::Handle(30));
    for i in 1..NUM_INDEXED_EDGE as i64 {
        answers.extend([Answer::Probe(true), Answer::Field(int64(i)), Answer::Flag(true)]);
    }
    answers.push(Answer::Probe(false));
    let mut engine = Script::new(answers);

    let galaxy = Galaxy::open(
        &mut engine,
        "/tmp/rust_tugraph/cursor",
        "admin",
        "73@TuGraph",
    ).unwrap();
    let graph = galaxy.open_graph(&mut engine, "default", false).unwrap();
    graph
        .add_vertex_label(&mut engine, "Src", &id_spec(), "id")
        .unwrap();
    graph
        .add_vertex_label(&mut engine, "Dst", &id_spec(), "id")
        .unwrap();
    graph
        .add_edge_label(
            &mut engine,
            "IndexedEdge",
            &[FieldSpec {
                name: "index_field".into(),
                ty: FieldType::Int64,
                optional: false,
            }],
            "",
            &[("Src", "Dst")],
        )
        .unwrap();
    graph
        .add_edge_label(
            &mut engine,
            "TemporalEdge",
            &[FieldSpec {
                name: "tid".into(),
                ty: FieldType::Int64,
                optional: false,
            }],
            "tid",
            &[("Src", "Dst")],
        )
        .unwrap();

    graph
        .add_edge_index(&mut engine, "IndexedEdge", "index_field", false)
        .unwrap();

    let (src, dst) = {
        let mut rw_txn = graph.create_rw_txn(&mut engine, false).unwrap();
        let src = rw_txn
            .add_vertex(&mut engine, "Src", &["id"], &[FieldData::Int64(0)])
            .unwrap();
        let dst = rw_txn
            .add_vertex(&mut engine, "Dst", &["id"], &[FieldData::Int64(0)])
            .unwrap();

        (0..NUM_INDEXED_EDGE).for_each(|i| {
            rw_txn
                .add_edge(
                    &mut engine,
                    src,
                    dst,
                    "IndexedEdge",
                    &["index_field"],
                    &[FieldData::Int64(i as i64)],
                )
                .unwrap();
        });
        (0..NUM_TEMPORAL_EDGE).for_each(|i| {
            rw_txn
                .add_edge(
                    &mut engine,
                    src,
                    dst,
                    "TemporalEdge",
                    &["tid"],
                    &[FieldData::Int64(i as i64)],
                )
                .unwrap();
        });
        rw_txn.commit(&mut engine).unwrap();
        (src, dst)
    };
    {
        let ro_txn = graph.create_ro_txn(&mut engine).unwrap();
        let mut vcur = ro_txn.vertex_cur(&mut engine).unwrap();
        vcur.seek(&mut engine, src, true).unwrap();
        let mut pulls = vcur.out_edge_cursor(&mut engine).unwrap().into_edges();
        let count = pull_all(&mut engine, |e| pulls.next(e)).len();
        assert_eq!(count, vcur.num_out_edges(&mut engine, usize::MAX).unwrap().1);

        let mut vcur = ro_txn.vertex_cur(&mut engine).unwrap();
        vcur.seek(&mut engine, dst, true).unwrap();
        let mut pulls = vcur.in_edge_cursor(&mut engine).unwrap().into_edges();
        let count = pull_all(&mut engine, |e| pulls.next(e)).len();
        assert_eq!(count, vcur.num_in_edges(&mut engine, usize::MAX).unwrap().1);

        let mut vcur = ro_txn.vertex_cur(&mut engine).unwrap();
        vcur.seek(&mut engine, src, true).unwrap();
        let src_cur = &mut vcur;
        let mut pulls = src_cur.out_edge_cursor(&mut engine).unwrap().into_edge_srcs();
        assert_eq!(
            pull_all(&mut engine, |e| pulls.next(e))
                .into_iter()
                .collect::<HashSet<_>>(),
            HashSet::from_iter([src])
        );
        let mut pulls = src_cur.out_edge_cursor(&mut engine).unwrap().into_edge_dsts();
        assert_eq!(
            pull_all(&mut engine, |e| pulls.next(e))
                .into_iter()
                .collect::<HashSet<_>>(),
            HashSet::from_iter([dst])
        );
        let mut pulls = src_cur
            .out_edge_cursor(&mut engine)
            .unwrap()
            .into_edge_labels();
        assert_eq!(
            pull_all(&mut engine, |e| pulls.next(e))
                .into_iter()
                .collect::<HashSet<_>>(),
            HashSet::from_iter(["TemporalEdge".into(), "IndexedEdge".into()])
        );
        let mut pulls = src_cur.out_edge_cursor(&mut engine).unwrap().into_edge_tids();
        assert_eq!(
            pull_all(&mut engine, |e| pulls.next(e))
                .into_iter()
                .collect::<HashSet<_>>(),
            HashSet::from_iter([0].into_iter().chain(0..NUM_TEMPORAL_EDGE as i64))
        );
        let mut pulls = src_cur.out_edge_cursor(&mut engine).unwrap().into_edge_eids();
        assert_eq!(
            pull_all(&mut engine, |e| pulls.next(e)),
            (0..NUM_INDEXED_EDGE as i64)
                .chain(repeat(0).take(NUM_TEMPORAL_EDGE))
                .collect::<Vec<_>>()
        );
        let mut index_ecur = ro_txn
            .edge_index_iter_values_from(
                &mut engine,
                "IndexedEdge",
                "index_field",
                &FieldData::Int64(1),
                &FieldData::Int64(i64::MAX),
            )
            .unwrap();
        assert_eq!(
            pull_all(&mut engine, |e| index_ecur.next(e)),
            (1..NUM_INDEXED_EDGE as i64)
                .map(FieldData::Int64)
                .collect::<Vec<_>>()
        );
    }
    assert_eq!(engine.left(), 0);
    let index_request = engine
        .requests()
        .iter()
        .find(|r| r.op == Op::GetEdgeIndexIteratorByData)
        .unwrap();
    assert_eq!(
        index_request.args,
        vec![
            Arg::Text("IndexedEdge".into()),
            Arg::Text("index_field".into()),
            Arg::Field(int64(1)),
            Arg::Field(int64(i64::MAX)),
        ]
    );
}

fn vertex_cursor(id: u64) -> Handle {
    Handle {
        kind: Kind::VertexIterator,
        id,
    }
}

fn asked(engine: &Script) -> Vec<(Handle, Op)> {
    engine.requests().iter().map(|r| (r.target, r.op)).collect()
}

#[test]
fn a_pull_reads_then_steps_and_ends_where_the_cursor_is_at_none() {
    let mut engine = Script::new(vec![
        Answer::Probe(true),
        Answer::Int(7),
        Answer::Flag(true),
        Answer::Probe(true),
        Answer::Int(9),
        Answer::Flag(false),
        Answer::Probe(false),
        Answer::Probe(false),
    ]);
    let mut pulls = VertexCur::new(5).into_vertex_ids();
    assert_eq!(pulls.next(&mut engine), Ok(Some(7)));
    assert_eq!(pulls.next(&mut engine), Ok(Some(9)));
    assert_eq!(pulls.next(&mut engine), Ok(None));
    assert_eq!(pulls.next(&mut engine), Ok(None));
    let c = vertex_cursor(5);
    assert_eq!(
        asked(&engine),
        vec![
            (c, Op::IsValid),
            (c, Op::GetId),
            (c, Op::Next),
            (c, Op::IsValid),
            (c, Op::GetId),
            (c, Op::Next),
            (c, Op::IsValid),
            (c, Op::IsValid),
        ]
    );
    assert!(engine.requests().iter().all(|r| r.args.is_empty()));
}

#[test]
fn a_pull_that_cannot_read_ends_with_the_error_and_does_not_step() {
    let mut engine = Script::new(vec![
        Answer::Probe(true),
        Answer::Int(7),
        Answer::Failure("IO Error.".to_string()),
        Answer::Probe(true),
        Answer::Int(7),
        Answer::Text("Person".to_string()),
        Answer::NamedFields((vec!["a".into()], vec![RawFieldData {
            ty: 99,
            num: 0,
            bits: 0,
            text: String::new(),
            blob: Vec::new(),
        }])),
    ]);
    let mut pulls = VertexCur::new(1).into_vertices();
    let e = pulls.next(&mut engine).unwrap_err();
    assert_eq!(e.kind(), ErrorKind::IOError);
    assert_eq!(engine.requests().len(), 3);
    assert_eq!(engine.requests()[2].op, Op::GetLabel);
    let e = pulls.next(&mut engine).unwrap_err();
    assert_eq!(e.kind(), ErrorKind::InvalidParameter);
    assert_eq!(engine.requests().len(), 7);
    assert_eq!(engine.requests()[6].op, Op::GetAllFields);
}

#[test]
fn a_pull_of_a_vertex_hands_out_id_label_and_values() {
    let mut engine = Script::new(vec![
        Answer::Probe(true),
        Answer::Int(3),
        Answer::Text("Person".to_string()),
        Answer::NamedFields((
            vec!["name".into(), "age".into(), "beyond the values".into()],
            vec![
                FieldData::String("Alice".into()).as_raw_field_data(),
                FieldData::Int8(17).as_raw_field_data(),
            ],
        )),
        Answer::Failure("whatever the step gives".to_string()),
    ]);
    let mut pulls = VertexCur::new(1).into_vertices();
    assert_eq!(
        pulls.next(&mut engine),
        Ok(Some((
            3,
            "Person".to_string(),
            vec![FieldData::String("Alice".into()), FieldData::Int8(17)]
        )))
    );
    let cursor = pulls.into_cursor();
    assert_eq!(cursor.as_raw(), vertex_cursor(1));
}

#[test]
fn seek_and_step_hand_on_what_the_engine_says() {
    let mut engine = Script::new(vec![
        Answer::Flag(true),
        Answer::Flag(false),
        Answer::Flag(true),
        Answer::Flag(false),
        Answer::Failure("Invalid iterator.".to_string()),
        Answer::Failure("Invalid iterator.".to_string()),
    ]);
    let mut cursor = VertexCur::new(2);
    assert_eq!(cursor.seek(&mut engine, 18, false), Ok(true));
    assert_eq!(cursor.seek(&mut engine, 19, true), Ok(false));
    assert_eq!(cursor.seek_to_next(&mut engine), Ok(true));
    assert_eq!(cursor.seek_to_next(&mut engine), Ok(false));
    assert_eq!(
        cursor.seek_to_next(&mut engine).unwrap_err().kind(),
        ErrorKind::InvalidIterator
    );
    assert_eq!(
        cursor.id(&mut engine).unwrap_err().kind(),
        ErrorKind::InvalidIterator
    );
    assert_eq!(
        engine.requests()[1],
        Request {
            target: vertex_cursor(2),
            op: Op::Goto,
            args: vec![Arg::Int(19), Arg::Flag(true)],
        }
    );
}

#[test]
fn into_vertices_from_seeks_first() {
    let mut engine = Script::new(vec![
        Answer::Flag(true),
        Answer::Probe(true),
        Answer::Int(4),
        Answer::Flag(false),
        Answer::Failure("Invalid parameter.".to_string()),
    ]);
    let pulls = VertexCur::new(3).into_vertices_from(&mut engine, 4, true);
    let mut ids = match pulls {
        Ok(pulls) => pulls.into_cursor().into_vertex_ids(),
        Err(_) => panic!("seek should be ok"),
    };
    assert_eq!(ids.next(&mut engine), Ok(Some(4)));
    assert!(VertexCur::new(4)
        .into_vertices_from(&mut engine, 4, false)
        .is_err());
    assert_eq!(engine.requests()[0].args, vec![Arg::Int(4), Arg::Flag(true)]);
    assert_eq!(engine.requests()[4].args, vec![Arg::Int(4), Arg::Flag(false)]);
}

#[test]
fn edge_cursor_seeks_by_the_raw_key() {
    let mut engine = Script::new(vec![
        Answer::Handle(8),
        Answer::Flag(true),
        Answer::Uid(edge_uid(1, 4, 2, 3, 5)),
        Answer::Int(3),
        Answer::Unit,
    ]);
    let mut vertex = VertexCur::new(1);
    let mut edge = vertex.in_edge_cursor(&mut engine).unwrap();
    let key = EdgeUid {
        src: 1,
        lid: 2,
        tid: 3,
        dst: 4,
        eid: 5,
    };
    assert_eq!(edge.seek(&mut engine, &key, false), Ok(true));
    assert_eq!(edge.uid(&mut engine), Ok(key));
    assert_eq!(edge.tid(&mut engine), Ok(3));
    assert_eq!(edge.close(&mut engine), Ok(()));
    let e = Handle {
        kind: Kind::InEdgeIterator,
        id: 8,
    };
    assert_eq!(
        asked(&engine),
        vec![
            (vertex_cursor(1), Op::GetInEdgeIterator),
            (e, Op::Goto),
            (e, Op::GetUid),
            (e, Op::GetTemporalId),
            (e, Op::Close),
            (e, Op::Destroy),
        ]
    );
    assert_eq!(
        engine.requests()[1].args,
        vec![Arg::Uid(edge_uid(1, 4, 2, 3, 5)), Arg::Flag(false)]
    );
}

#[test]
fn fields_are_read_and_written_through_a_cursor() {
    let mut engine = Script::new(vec![
        Answer::Handle(6),
        Answer::Field(FieldData::Int8(20).as_raw_field_data()),
        Answer::Fields(vec![
            FieldData::Null.as_raw_field_data(),
            FieldData::Bool(true).as_raw_field_data(),
        ]),
        Answer::NamedFields((vec!["age".into()], vec![FieldData::Int8(20).as_raw_field_data()])),
        Answer::Unit,
        Answer::Unit,
        Answer::Failure("Access denied.".to_string()),
        Answer::SizePair((2, 3)),
        Answer::FlagInts((true, vec![4, 5])),
    ]);
    let txn = RwTxn::from_raw(9);
    let cursor = txn.vertex_cur_mut(&mut engine).unwrap();
    assert_eq!(cursor.field(&mut engine, "age"), Ok(FieldData::Int8(20)));
    assert_eq!(
        cursor.fields_by_ids(&mut engine, &[0, 2]),
        Ok(vec![FieldData::Null, FieldData::Bool(true)])
    );
    assert_eq!(
        cursor.all_fields(&mut engine),
        Ok(vec![("age".to_string(), FieldData::Int8(20))])
    );
    cursor
        .set_field(&mut engine, "age", &FieldData::Int8(21))
        .unwrap();
    cursor
        .set_fields(
            &mut engine,
            &["name", "age"],
            &[FieldData::String("Bob".into()), FieldData::Int8(1)],
        )
        .unwrap();
    assert_eq!(
        cursor
            .set_fields_by_ids(&mut engine, &[1], &[FieldData::Bool(false)])
            .unwrap_err()
            .kind(),
        ErrorKind::WriteNotAllowed
    );
    assert_eq!(cursor.delete(&mut engine), Ok((2, 3)));
    assert_eq!(
        cursor.associated_edges_src_vids(&mut engine, 2),
        Ok((true, vec![4, 5]))
    );
    assert_eq!(
        engine.requests()[5].args,
        vec![
            Arg::Texts(vec!["name".into(), "age".into()]),
            Arg::Fields(vec![
                FieldData::String("Bob".into()).as_raw_field_data(),
                FieldData::Int8(1).as_raw_field_data()
            ]),
        ]
    );
    assert_eq!(engine.requests()[2].args, vec![Arg::Sizes(vec![0, 2])]);
    assert_eq!(engine.requests()[8].args, vec![Arg::Size(2)]);
    let _ = RoTxn::from_raw(1);
}
