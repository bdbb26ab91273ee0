use tugraph::carrier::{Carrier, Traced};
use tugraph::cursor::{VertexCur, VertexCursor};
use tugraph::db::{Galaxy, Graph};
use tugraph::engine::{Op, Request};
use tugraph::raw::{RawEdgeUid, RawFieldData, RawFieldSpec, RawIndexSpec, RawRoleInfo, RawUserInfo};
use tugraph::{Error, ErrorKind};

/// Counts what it is handed and answers with the count.
struct Counter {
    seen: Vec<Op>,
}

impl Counter {
    fn count(&mut self, request: Request) -> usize {
        self.seen.push(request.op);
        self.seen.len()
    }

    fn refuse<T>(&mut self, request: Request) -> Result<T, String> {
        self.count(request);
        Err("Invalid parameter.".to_string())
    }
}

impl Carrier for Counter {
    fn signal(&mut self, request: Request) {
        self.count(request);
    }

    fn probe(&mut self, request: Request) -> bool {
        self.count(request) % 2 == 1
    }

    fn call_unit(&mut self, request: Request) -> Result<(), String> {
        self.count(request);
        Ok(())
    }

    fn call_flag(&mut self, request: Request) -> Result<bool, String> {
        Ok(self.count(request) % 2 == 0)
    }

    fn call_size(&mut self, request: Request) -> Result<usize, String> {
        Ok(self.count(request))
    }

    fn call_int(&mut self, request: Request) -> Result<i64, String> {
        Ok(self.count(request) as i64)
    }

    fn call_short(&mut self, request: Request) -> Result<u16, String> {
        Ok(self.count(request) as u16)
    }

    fn call_code(&mut self, request: Request) -> Result<u32, String> {
        Ok(self.count(request) as u32)
    }

    fn call_text(&mut self, request: Request) -> Result<String, String> {
        Ok(self.count(request).to_string())
    }

    fn call_texts(&mut self, request: Request) -> Result<Vec<String>, String> {
        self.refuse(request)
    }

    fn call_sizes(&mut self, request: Request) -> Result<Vec<usize>, String> {
        self.refuse(request)
    }

    fn call_handle(&mut self, request: Request) -> Result<u64, String> {
        Ok(self.count(request) as u64)
    }

    fn call_flag_size(&mut self, request: Request) -> Result<(bool, usize), String> {
        self.refuse(request)
    }

    fn call_size_pair(&mut self, request: Request) -> Result<(usize, usize), String> {
        self.refuse(request)
    }

    fn call_flag_ints(&mut self, request: Request) -> Result<(bool, Vec<i64>), String> {
        self.refuse(request)
    }

    fn call_uid(&mut self, request: Request) -> Result<RawEdgeUid, String> {
        self.refuse(request)
    }

    fn call_field(&mut self, request: Request) -> Result<RawFieldData, String> {
        self.refuse(request)
    }

    fn call_fields(&mut self, request: Request) -> Result<Vec<RawFieldData>, String> {
        self.refuse(request)
    }

    fn call_named_fields(
        &mut self,
        request: Request,
    ) -> Result<(Vec<String>, Vec<RawFieldData>), String> {
        self.refuse(request)
    }

    fn call_specs(&mut self, request: Request) -> Result<Vec<RawFieldSpec>, String> {
        self.refuse(request)
    }

    fn call_indexes(&mut self, request: Request) -> Result<Vec<RawIndexSpec>, String> {
        self.refuse(request)
    }

    fn call_user(&mut self, request: Request) -> Result<RawUserInfo, String> {
        self.refuse(request)
    }

    fn call_role(&mut self, request: Request) -> Result<RawRoleInfo, String> {
        self.refuse(request)
    }

    fn call_graphs(
        &mut self,
        request: Request,
    ) -> Result<(Vec<String>, Vec<String>, Vec<usize>), String> {
        self.refuse(request)
    }

    fn call_users(&mut self, request: Request) -> Result<(Vec<String>, Vec<RawUserInfo>), String> {
        self.refuse(request)
    }

    fn call_roles(&mut self, request: Request) -> Result<(Vec<String>, Vec<RawRoleInfo>), String> {
        self.refuse(request)
    }

    fn call_text_indexes(
        &mut self,
        request: Request,
    ) -> Result<(Vec<bool>, Vec<String>, Vec<String>), String> {
        self.refuse(request)
    }

    fn call_hits(&mut self, request: Request) -> Result<(Vec<i64>, Vec<u32>), String> {
        self.seen.push(request.op);
        Ok((vec![3, 1, 2], vec![0.5f32.to_bits(), 0.25f32.to_bits()]))
    }

    fn call_edge_hits(&mut self, request: Request) -> Result<(Vec<RawEdgeUid>, Vec<u32>), String> {
        self.refuse(request)
    }
}

#[test]
fn a_traced_carrier_hands_every_request_on_and_every_answer_back() {
    let mut engine = Traced::new(Counter { seen: Vec::new() });
    let galaxy = Galaxy::open(&mut engine, "/tmp/x", "admin", "pw").unwrap();
    assert_eq!(galaxy.as_raw().id, 1);
    assert_eq!(galaxy.create_user(&mut engine, "u", "p", "d"), Ok(true));
    assert_eq!(
        galaxy.list_graphs(&mut engine).unwrap_err().kind(),
        ErrorKind::InvalidParameter
    );
    let mut cursor = VertexCur::new(7);
    assert_eq!(cursor.id(&mut engine), Ok(4));
    assert!(cursor.is_valid(&mut engine));
    assert_eq!(cursor.seek_to_next(&mut engine), Ok(true));
    assert_eq!(cursor.label(&mut engine), Ok("7".to_string()));
    assert_eq!(cursor.close(&mut engine), Ok(()));
    let found = Graph::from_id(2)
        .query_vertex_by_full_text_index(&mut engine, "v", "q", 2)
        .unwrap();
    let pairs: Vec<_> = found.iter().map(|f| (f.vid, f32::from_bits(f.score))).collect();
    assert_eq!(pairs, vec![(3, 0.5), (1, 0.25)]);
    let counter = engine.into_inner();
    assert_eq!(
        counter.seen,
        vec![
            Op::CreateWithUser,
            Op::CreateUser,
            Op::ListGraphs,
            Op::GetId,
            Op::IsValid,
            Op::Next,
            Op::GetLabel,
            Op::Close,
            Op::Destroy,
            Op::QueryVertexByFullTextIndex,
        ]
    );
}

#[test]
fn a_text_that_is_not_in_the_table_is_of_no_other_kind() {
    for text in ["Out of range.", "OutOfRange", "Invalid Parameter.", "IO error."] {
        assert_eq!(Error::new(text.to_string()).kind(), ErrorKind::Other);
    }
}
