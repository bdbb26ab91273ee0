use tugraph::cursor::{VertexCur, VertexCursor, VertexCursorMut};
use tugraph::db::Graph;
use tugraph::engine::{Arg, Engine, Handle, Kind, Op, Request};
use tugraph::field::{FieldData, FieldSpec, FieldType};
use tugraph::memory::Memory;
use tugraph::model::{find, find_above, next_above};
use tugraph::txn::{RwTxn, TxnRead, TxnWrite};
use tugraph::ErrorKind;

fn id_field() -> FieldSpec {
    FieldSpec {
        name: "id".to_string(),
        ty: FieldType::Int64,
        optional: false,
    }
}

fn with_vertices(n: usize) -> (Memory, RwTxn<'static>) {
    let mut memory = Memory::new();
    let graph = Graph::from_id(1);
    assert_eq!(
        graph.add_vertex_label(&mut memory, "v", &[id_field()], "id"),
        Ok(true)
    );
    let mut txn = RwTxn::from_raw(1);
    for i in 0..n {
        let id = txn
            .add_vertex(&mut memory, "v", &["id"], &[FieldData::Int64(i as i64)])
            .unwrap();
        assert_eq!(id, i as i64);
    }
    (memory, txn)
}

fn steps_to_the_end(memory: &mut Memory, cursor: &mut VertexCur) -> usize {
    let mut steps = 1;
    while cursor.seek_to_next(memory).unwrap() {
        steps += 1;
    }
    steps
}

#[test]
fn a_fresh_cursor_takes_as_many_steps_as_there_are_vertices() {
    for n in [1usize, 2, 3, 10] {
        let (mut memory, txn) = with_vertices(n);
        let mut cursor = txn.vertex_cur(&mut memory).unwrap();
        assert!(cursor.is_valid(&mut memory));
        assert_eq!(cursor.id(&mut memory), Ok(0));
        assert_eq!(steps_to_the_end(&mut memory, &mut cursor), n);
        assert!(!cursor.is_valid(&mut memory));
        let before = memory.vertices().clone();
        assert_eq!(cursor.seek_to_next(&mut memory), Ok(false));
        assert!(!cursor.is_valid(&mut memory));
        assert_eq!(memory.vertices(), &before);
        assert_eq!(memory.position(1), None);
        assert_eq!(
            cursor.id(&mut memory).unwrap_err().kind(),
            ErrorKind::InvalidIterator
        );
    }
}

#[test]
fn a_cursor_over_no_vertex_is_at_none() {
    let mut memory = Memory::new();
    let txn = RwTxn::from_raw(1);
    let mut cursor = txn.vertex_cur(&mut memory).unwrap();
    assert!(!cursor.is_valid(&mut memory));
    assert_eq!(cursor.seek_to_next(&mut memory), Ok(false));
    let mut ids = cursor.into_vertex_ids();
    assert_eq!(ids.next(&mut memory), Ok(None));
}

#[test]
fn pulls_hand_out_every_vertex_once_in_order() {
    let (mut memory, txn) = with_vertices(5);
    let mut ids = txn.vertex_cur(&mut memory).unwrap().into_vertex_ids();
    let mut pulled = Vec::new();
    while let Some(id) = ids.next(&mut memory).unwrap() {
        pulled.push(id);
    }
    assert_eq!(pulled, vec![0, 1, 2, 3, 4]);
    assert_eq!(ids.next(&mut memory), Ok(None));
}

fn ages() -> (Memory, RwTxn<'static>) {
    // vertices 0..=21, of which only 17, 18 and 21 are left
    let (mut memory, txn) = with_vertices(22);
    let mut cursor = txn.vertex_cur_mut(&mut memory).unwrap();
    for id in 0..22 {
        if id == 17 || id == 18 || id == 21 {
            assert_eq!(cursor.seek_to_next(&mut memory), Ok(id != 21));
        } else {
            assert_eq!(cursor.id(&mut memory), Ok(id));
            assert_eq!(cursor.delete(&mut memory), Ok((0, 0)));
        }
    }
    assert_eq!(memory.vertices(), &vec![17, 18, 21]);
    (memory, txn)
}

#[test]
fn a_seek_lands_on_the_key_or_on_the_least_key_above_it() {
    let (mut memory, txn) = ages();
    let mut cursor = txn.vertex_cur(&mut memory).unwrap();
    assert_eq!(cursor.id(&mut memory), Ok(17));
    for nearest in [false, true] {
        assert_eq!(cursor.seek(&mut memory, 18, nearest), Ok(true));
        assert_eq!(cursor.id(&mut memory), Ok(18));
    }
    assert_eq!(cursor.seek(&mut memory, 19, false), Ok(false));
    assert!(!cursor.is_valid(&mut memory));
    assert_eq!(cursor.seek(&mut memory, 19, true), Ok(true));
    assert_eq!(cursor.id(&mut memory), Ok(21));
    assert_eq!(cursor.seek(&mut memory, 22, true), Ok(false));
    assert!(!cursor.is_valid(&mut memory));
    assert_eq!(cursor.seek(&mut memory, i64::MIN, true), Ok(true));
    assert_eq!(cursor.id(&mut memory), Ok(17));
    assert_eq!(cursor.seek(&mut memory, i64::MAX, true), Ok(false));
    assert_eq!(cursor.seek(&mut memory, 21, false), Ok(true));
    assert_eq!(cursor.seek_to_next(&mut memory), Ok(false));
}

#[test]
fn a_walk_between_two_keys_hands_out_what_lies_between_in_order() {
    let (mut memory, txn) = ages();
    let between = |memory: &mut Memory, low: i64, high: i64| {
        let mut cursor = txn.vertex_cur(memory).unwrap();
        let mut found = Vec::new();
        let mut at = cursor.seek(memory, low, true).unwrap();
        while at {
            let id = cursor.id(memory).unwrap();
            if id > high {
                break;
            }
            found.push(id);
            at = cursor.seek_to_next(memory).unwrap();
        }
        found
    };
    assert_eq!(between(&mut memory, 18, 20), vec![18]);
    assert_eq!(between(&mut memory, 17, 21), vec![17, 18, 21]);
    assert_eq!(between(&mut memory, 19, 20), Vec::<i64>::new());
    assert_eq!(between(&mut memory, 22, 30), Vec::<i64>::new());
}

#[test]
fn a_delete_takes_the_vertex_out_and_steps_on() {
    let (mut memory, txn) = with_vertices(3);
    let mut deleter = txn.vertex_cur_mut(&mut memory).unwrap();
    let mut watcher = txn.vertex_cur(&mut memory).unwrap();
    assert_eq!(watcher.seek(&mut memory, 1, false), Ok(true));
    assert_eq!(deleter.seek(&mut memory, 1, false), Ok(true));
    assert_eq!(deleter.delete(&mut memory), Ok((0, 0)));
    assert_eq!(memory.vertices(), &vec![0, 2]);
    assert_eq!(deleter.id(&mut memory), Ok(2));
    assert!(!watcher.is_valid(&mut memory));
    assert_eq!(watcher.seek_to_next(&mut memory), Ok(false));
    assert_eq!(deleter.delete(&mut memory), Ok((0, 0)));
    assert!(!deleter.is_valid(&mut memory));
    assert_eq!(
        deleter.delete(&mut memory).unwrap_err().msg(),
        "Invalid iterator."
    );
    assert_eq!(memory.vertices(), &vec![0]);
    assert_eq!(memory.cursors(), 2);
}

#[test]
fn what_the_memory_does_not_hold_it_refuses() {
    let (mut memory, txn) = with_vertices(1);
    assert_eq!(
        txn.num_vertices(&mut memory).unwrap_err().kind(),
        ErrorKind::InvalidParameter
    );
    assert!(!txn.is_valid(&mut memory));
    let stranger = VertexCur::new(9);
    assert!(!stranger.is_valid(&mut memory));
    assert_eq!(
        stranger.id(&mut memory).unwrap_err().msg(),
        "Invalid parameter."
    );
    let cursor = txn.vertex_cur(&mut memory).unwrap();
    assert_eq!(
        cursor.label(&mut memory).unwrap_err().msg(),
        "Invalid parameter."
    );
    let next = Request {
        target: Handle {
            kind: Kind::VertexIterator,
            id: 1,
        },
        op: Op::Next,
        args: vec![Arg::Flag(true)],
    };
    assert_eq!(
        memory.call_flag(next),
        Err("Invalid parameter.".to_string())
    );
    assert_eq!(cursor.id(&mut memory), Ok(0));
    assert_eq!(memory.requests().len(), 10);
    assert_eq!(memory.requests()[0].op, Op::AddVertexLabel);
    assert_eq!(memory.requests()[1].op, Op::AddVertexWithFieldData);
}

#[test]
fn a_vertex_needs_a_label_that_is_there() {
    let mut memory = Memory::new();
    let graph = Graph::from_id(1);
    let mut txn = RwTxn::from_raw(1);
    assert_eq!(
        txn.add_vertex(&mut memory, "v", &["id"], &[FieldData::Int64(1)])
            .unwrap_err()
            .kind(),
        ErrorKind::InvalidParameter
    );
    assert_eq!(
        graph.add_vertex_label(&mut memory, "v", &[id_field()], "id"),
        Ok(true)
    );
    assert_eq!(
        graph.add_vertex_label(&mut memory, "v", &[id_field()], "id"),
        Ok(false)
    );
    assert_eq!(memory.labels(), &vec!["v".to_string()]);
    assert_eq!(
        txn.add_vertex(&mut memory, "v", &["id"], &[FieldData::Int64(1)]),
        Ok(0)
    );
    assert_eq!(memory.owners(), &vec!["v".to_string()]);
}

#[test]
fn deleting_a_label_counts_the_vertices_that_go_with_it() {
    let mut memory = Memory::new();
    let graph = Graph::from_id(1);
    let mut txn = RwTxn::from_raw(1);
    for label in ["Person", "Comment"] {
        assert_eq!(
            graph.add_vertex_label(&mut memory, label, &[id_field()], "id"),
            Ok(true)
        );
    }
    // vertices 0..7: the even ones are persons, the odd ones comments
    for i in 0..7 {
        let label = if i % 2 == 0 { "Person" } else { "Comment" };
        assert_eq!(
            txn.add_vertex(&mut memory, label, &["id"], &[FieldData::Int64(i)]),
            Ok(i)
        );
    }
    let mut at_person = txn.vertex_cur(&mut memory).unwrap();
    let mut at_comment = txn.vertex_cur(&mut memory).unwrap();
    assert_eq!(at_person.seek(&mut memory, 2, false), Ok(true));
    assert_eq!(at_comment.seek(&mut memory, 3, false), Ok(true));

    assert_eq!(graph.delete_vertex_label(&mut memory, "Person"), Ok((true, 4)));
    assert_eq!(memory.vertices(), &vec![1, 3, 5]);
    assert_eq!(memory.labels(), &vec!["Comment".to_string()]);
    assert!(memory.owners().iter().all(|owner| owner == "Comment"));
    assert!(!at_person.is_valid(&mut memory));
    assert!(at_comment.is_valid(&mut memory));
    assert_eq!(at_comment.id(&mut memory), Ok(3));

    // the label is gone: a second delete finds nothing, and no vertex can
    // take the label
    assert_eq!(graph.delete_vertex_label(&mut memory, "Person"), Ok((false, 0)));
    assert_eq!(
        txn.add_vertex(&mut memory, "Person", &["id"], &[FieldData::Int64(9)])
            .unwrap_err()
            .msg(),
        "Invalid parameter."
    );
    assert_eq!(graph.delete_vertex_label(&mut memory, "Comment"), Ok((true, 3)));
    assert!(memory.vertices().is_empty());
    assert_eq!(graph.delete_vertex_label(&mut memory, "Nobody"), Ok((false, 0)));
}

#[test]
fn deleting_a_label_without_vertices_counts_none() {
    let mut memory = Memory::new();
    let graph = Graph::from_id(1);
    assert_eq!(
        graph.add_vertex_label(&mut memory, "Person", &[id_field()], "id"),
        Ok(true)
    );
    assert_eq!(graph.delete_vertex_label(&mut memory, "Person"), Ok((true, 0)));
    assert!(memory.labels().is_empty());
}

#[test]
fn keys_are_found_at_and_above() {
    let keys = vec![17, 18, 21];
    assert_eq!(find(&keys, 18), Some(1));
    assert_eq!(find(&keys, 19), None);
    assert_eq!(find_above(&keys, 16), 0);
    assert_eq!(find_above(&keys, 17), 1);
    assert_eq!(find_above(&keys, 20), 2);
    assert_eq!(find_above(&keys, 21), 3);
    assert_eq!(next_above(&keys, 18), Some(21));
    assert_eq!(next_above(&keys, 21), None);
    assert_eq!(next_above(&Vec::new(), 0), None);
}
