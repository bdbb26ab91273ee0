//! Engines that keep no trace themselves.
//!
//! A [`Carrier`] carries requests out and says nothing of what it did.
//! [`Traced`] makes an [`Engine`] of it: it hands each request on to the
//! carrier and keeps the trace.

use vstd::prelude::*;

use crate::engine::{
    code_reply, edge_hits_reply, field_reply, fields_reply, flag_ints_reply, flag_reply,
    flag_size_reply, graphs_reply, handle_reply, hits_reply, indexes_reply, int_reply,
    named_fields_reply, role_reply, roles_reply, short_reply, size_pair_reply, size_reply,
    sizes_reply, specs_reply, text_indexes_reply, text_reply, texts_reply, uid_reply, unit_reply,
    user_reply, users_reply, AnswerView, Engine, Exchange, Request, Shape,
};
use crate::raw::{RawEdgeUid, RawFieldData, RawFieldSpec, RawIndexSpec, RawRoleInfo, RawUserInfo};

verus! {

/// What carries requests out: the methods of an [`Engine`] without its
/// trace.
pub trait Carrier {
    /// Carries out an operation that gives nothing back and cannot fail.
    fn signal(&mut self, request: Request);

    /// Carries out an operation that gives a boolean and cannot fail.
    fn probe(&mut self, request: Request) -> bool;

    /// Carries out an operation that gives nothing.
    fn call_unit(&mut self, request: Request) -> core::result::Result<(), String>;

    /// Carries out an operation that gives a boolean.
    fn call_flag(&mut self, request: Request) -> core::result::Result<bool, String>;

    /// Carries out an operation that gives a size.
    fn call_size(&mut self, request: Request) -> core::result::Result<usize, String>;

    /// Carries out an operation that gives a 64-bit integer.
    fn call_int(&mut self, request: Request) -> core::result::Result<i64, String>;

    /// Carries out an operation that gives a 16-bit id.
    fn call_short(&mut self, request: Request) -> core::result::Result<u16, String>;

    /// Carries out an operation that gives a code.
    fn call_code(&mut self, request: Request) -> core::result::Result<u32, String>;

    /// Carries out an operation that gives a text.
    fn call_text(&mut self, request: Request) -> core::result::Result<String, String>;

    /// Carries out an operation that gives a list of texts.
    fn call_texts(&mut self, request: Request) -> core::result::Result<Vec<String>, String>;

    /// Carries out an operation that gives a list of sizes.
    fn call_sizes(&mut self, request: Request) -> core::result::Result<Vec<usize>, String>;

    /// Carries out an operation that gives the id of a new engine object.
    fn call_handle(&mut self, request: Request) -> core::result::Result<u64, String>;

    /// Carries out an operation that gives a boolean and a size.
    fn call_flag_size(&mut self, request: Request) -> core::result::Result<(bool, usize), String>;

    /// Carries out an operation that gives two sizes.
    fn call_size_pair(&mut self, request: Request) -> core::result::Result<(usize, usize), String>;

    /// Carries out an operation that gives a boolean and a list of integers.
    fn call_flag_ints(
        &mut self,
        request: Request,
    ) -> core::result::Result<(bool, Vec<i64>), String>;

    /// Carries out an operation that gives an edge identifier.
    fn call_uid(&mut self, request: Request) -> core::result::Result<RawEdgeUid, String>;

    /// Carries out an operation that gives a field value.
    fn call_field(&mut self, request: Request) -> core::result::Result<RawFieldData, String>;

    /// Carries out an operation that gives a list of field values.
    fn call_fields(&mut self, request: Request) -> core::result::Result<Vec<RawFieldData>, String>;

    /// Carries out an operation that gives a column of names and a column of
    /// field values.
    fn call_named_fields(&mut self, request: Request) -> core::result::Result<(
        Vec<String>,
        Vec<RawFieldData>,
    ), String>;

    /// Carries out an operation that gives a list of field descriptions.
    fn call_specs(&mut self, request: Request) -> core::result::Result<Vec<RawFieldSpec>, String>;

    /// Carries out an operation that gives a list of index descriptions.
    fn call_indexes(&mut self, request: Request) -> core::result::Result<Vec<RawIndexSpec>, String>;

    /// Carries out an operation that gives the record of an account.
    fn call_user(&mut self, request: Request) -> core::result::Result<RawUserInfo, String>;

    /// Carries out an operation that gives the record of a role.
    fn call_role(&mut self, request: Request) -> core::result::Result<RawRoleInfo, String>;

    /// Carries out an operation that gives a column of graph names, one of
    /// descriptions and one of sizes.
    fn call_graphs(&mut self, request: Request) -> core::result::Result<(
        Vec<String>,
        Vec<String>,
        Vec<usize>,
    ), String>;

    /// Carries out an operation that gives a column of account names and one of
    /// records.
    fn call_users(&mut self, request: Request) -> core::result::Result<(
        Vec<String>,
        Vec<RawUserInfo>,
    ), String>;

    /// Carries out an operation that gives a column of role names and one of
    /// records.
    fn call_roles(&mut self, request: Request) -> core::result::Result<(
        Vec<String>,
        Vec<RawRoleInfo>,
    ), String>;

    /// Carries out an operation that gives a column of booleans and two columns
    /// of texts.
    fn call_text_indexes(
        &mut self,
        request: Request,
    ) -> core::result::Result<(Vec<bool>, Vec<String>, Vec<String>), String>;

    /// Carries out an operation that gives a column of vertex ids and one of
    /// scores, each score as the bits of a single-precision number.
    fn call_hits(&mut self, request: Request) -> core::result::Result<(Vec<i64>, Vec<u32>), String>;

    /// Carries out an operation that gives a column of edge identifiers and
    /// one of scores, each score as the bits of a single-precision number.
    fn call_edge_hits(
        &mut self,
        request: Request,
    ) -> core::result::Result<(Vec<RawEdgeUid>, Vec<u32>), String>;

}

/// A carrier with the trace of what went through it.
pub struct Traced<C> {
    inner: C,
    trace: Ghost<Seq<Exchange>>,
}

impl<C: Carrier> Traced<C> {
    /// The engine that hands its requests on to `inner`; nothing went through
    /// it yet.
    pub fn new(inner: C) -> (engine: Traced<C>)
        ensures
            engine.trace() == Seq::<Exchange>::empty(),
            engine.carrier() == inner,
    {
        Traced { inner, trace: Ghost(Seq::empty()) }
    }

    /// The carrier that the requests are handed on to.
    pub closed spec fn carrier(&self) -> C {
        self.inner
    }

    /// The carrier, as the requests have left it.
    pub fn into_inner(self) -> (inner: C)
        ensures
            inner == self.carrier(),
    {
        self.inner
    }
}

impl<C: Carrier> Engine for Traced<C> {
    closed spec fn trace(&self) -> Seq<Exchange> {
        self.trace@
    }

    fn signal(&mut self, request: Request) {
        let ghost view = request@;
        self.inner.signal(request);
        proof {
            self.trace = Ghost(
                self.trace@.push(
                    Exchange { request: view, shape: Shape::Done, answer: AnswerView::Done },
                ),
            );
        }
    }

    fn probe(&mut self, request: Request) -> (out: bool) {
        let ghost view = request@;
        let out = self.inner.probe(request);
        proof {
            self.trace = Ghost(
                self.trace@.push(
                    Exchange { request: view, shape: Shape::Probe, answer: AnswerView::Probe(out) },
                ),
            );
        }
        out
    }

    fn call_unit(&mut self, request: Request) -> (out: core::result::Result<(), String>) {
        let ghost view = request@;
        let out = self.inner.call_unit(request);
        proof {
            self.trace = Ghost(
                self.trace@.push(
                    Exchange { request: view, shape: Shape::Unit, answer: unit_reply(out) },
                ),
            );
        }
        out
    }

    fn call_flag(&mut self, request: Request) -> (out: core::result::Result<bool, String>) {
        let ghost view = request@;
        let out = self.inner.call_flag(request);
        proof {
            self.trace = Ghost(
                self.trace@.push(
                    Exchange { request: view, shape: Shape::Flag, answer: flag_reply(out) },
                ),
            );
        }
        out
    }

    fn call_size(&mut self, request: Request) -> (out: core::result::Result<usize, String>) {
        let ghost view = request@;
        let out = self.inner.call_size(request);
        proof {
            self.trace = Ghost(
                self.trace@.push(
                    Exchange { request: view, shape: Shape::Size, answer: size_reply(out) },
                ),
            );
        }
        out
    }

    fn call_int(&mut self, request: Request) -> (out: core::result::Result<i64, String>) {
        let ghost view = request@;
        let out = self.inner.call_int(request);
        proof {
            self.trace = Ghost(
                self.trace@.push(
                    Exchange { request: view, shape: Shape::Int, answer: int_reply(out) },
                ),
            );
        }
        out
    }

    fn call_short(&mut self, request: Request) -> (out: core::result::Result<u16, String>) {
        let ghost view = request@;
        let out = self.inner.call_short(request);
        proof {
            self.trace = Ghost(
                self.trace@.push(
                    Exchange { request: view, shape: Shape::Short, answer: short_reply(out) },
                ),
            );
        }
        out
    }

    fn call_code(&mut self, request: Request) -> (out: core::result::Result<u32, String>) {
        let ghost view = request@;
        let out = self.inner.call_code(request);
        proof {
            self.trace = Ghost(
                self.trace@.push(
                    Exchange { request: view, shape: Shape::Code, answer: code_reply(out) },
                ),
            );
        }
        out
    }

    fn call_text(&mut self, request: Request) -> (out: core::result::Result<String, String>) {
        let ghost view = request@;
        let out = self.inner.call_text(request);
        proof {
            self.trace = Ghost(
                self.trace@.push(
                    Exchange { request: view, shape: Shape::Text, answer: text_reply(out) },
                ),
            );
        }
        out
    }

    fn call_texts(&mut self, request: Request) -> (out: core::result::Result<Vec<String>, String>) {
        let ghost view = request@;
        let out = self.inner.call_texts(request);
        proof {
            self.trace = Ghost(
                self.trace@.push(
                    Exchange { request: view, shape: Shape::Texts, answer: texts_reply(out) },
                ),
            );
        }
        out
    }

    fn call_sizes(&mut self, request: Request) -> (out: core::result::Result<Vec<usize>, String>) {
        let ghost view = request@;
        let out = self.inner.call_sizes(request);
        proof {
            self.trace = Ghost(
                self.trace@.push(
                    Exchange { request: view, shape: Shape::Sizes, answer: sizes_reply(out) },
                ),
            );
        }
        out
    }

    fn call_handle(&mut self, request: Request) -> (out: core::result::Result<u64, String>) {
        let ghost view = request@;
        let out = self.inner.call_handle(request);
        proof {
            self.trace = Ghost(
                self.trace@.push(
                    Exchange { request: view, shape: Shape::Handle, answer: handle_reply(out) },
                ),
            );
        }
        out
    }

    fn call_flag_size(&mut self, request: Request) -> (
        out: core::result::Result<(bool, usize), String>
    ) {
        let ghost view = request@;
        let out = self.inner.call_flag_size(request);
        proof {
            self.trace = Ghost(
                self.trace@.push(
                    Exchange {
                        request: view,
                        shape: Shape::FlagSize,
                        answer: flag_size_reply(out),
                    },
                ),
            );
        }
        out
    }

    fn call_size_pair(&mut self, request: Request) -> (
        out: core::result::Result<(usize, usize), String>
    ) {
        let ghost view = request@;
        let out = self.inner.call_size_pair(request);
        proof {
            self.trace = Ghost(
                self.trace@.push(
                    Exchange {
                        request: view,
                        shape: Shape::SizePair,
                        answer: size_pair_reply(out),
                    },
                ),
            );
        }
        out
    }

    fn call_flag_ints(&mut self, request: Request) -> (
        out: core::result::Result<(bool, Vec<i64>), String>
    ) {
        let ghost view = request@;
        let out = self.inner.call_flag_ints(request);
        proof {
            self.trace = Ghost(
                self.trace@.push(
                    Exchange {
                        request: view,
                        shape: Shape::FlagInts,
                        answer: flag_ints_reply(out),
                    },
                ),
            );
        }
        out
    }

    fn call_uid(&mut self, request: Request) -> (out: core::result::Result<RawEdgeUid, String>) {
        let ghost view = request@;
        let out = self.inner.call_uid(request);
        proof {
            self.trace = Ghost(
                self.trace@.push(
                    Exchange { request: view, shape: Shape::Uid, answer: uid_reply(out) },
                ),
            );
        }
        out
    }

    fn call_field(&mut self, request: Request) -> (
        out: core::result::Result<RawFieldData, String>
    ) {
        let ghost view = request@;
        let out = self.inner.call_field(request);
        proof {
            self.trace = Ghost(
                self.trace@.push(
                    Exchange { request: view, shape: Shape::Field, answer: field_reply(out) },
                ),
            );
        }
        out
    }

    fn call_fields(&mut self, request: Request) -> (
        out: core::result::Result<Vec<RawFieldData>, String>
    ) {
        let ghost view = request@;
        let out = self.inner.call_fields(request);
        proof {
            self.trace = Ghost(
                self.trace@.push(
                    Exchange { request: view, shape: Shape::Fields, answer: fields_reply(out) },
                ),
            );
        }
        out
    }

    fn call_named_fields(&mut self, request: Request) -> (
        out: core::result::Result<(Vec<String>, Vec<RawFieldData>), String>
    ) {
        let ghost view = request@;
        let out = self.inner.call_named_fields(request);
        proof {
            self.trace = Ghost(
                self.trace@.push(
                    Exchange {
                        request: view,
                        shape: Shape::NamedFields,
                        answer: named_fields_reply(out),
                    },
                ),
            );
        }
        out
    }

    fn call_specs(&mut self, request: Request) -> (
        out: core::result::Result<Vec<RawFieldSpec>, String>
    ) {
        let ghost view = request@;
        let out = self.inner.call_specs(request);
        proof {
            self.trace = Ghost(
                self.trace@.push(
                    Exchange { request: view, shape: Shape::Specs, answer: specs_reply(out) },
                ),
            );
        }
        out
    }

    fn call_indexes(&mut self, request: Request) -> (
        out: core::result::Result<Vec<RawIndexSpec>, String>
    ) {
        let ghost view = request@;
        let out = self.inner.call_indexes(request);
        proof {
            self.trace = Ghost(
                self.trace@.push(
                    Exchange { request: view, shape: Shape::Indexes, answer: indexes_reply(out) },
                ),
            );
        }
        out
    }

    fn call_user(&mut self, request: Request) -> (out: core::result::Result<RawUserInfo, String>) {
        let ghost view = request@;
        let out = self.inner.call_user(request);
        proof {
            self.trace = Ghost(
                self.trace@.push(
                    Exchange { request: view, shape: Shape::User, answer: user_reply(out) },
                ),
            );
        }
        out
    }

    fn call_role(&mut self, request: Request) -> (out: core::result::Result<RawRoleInfo, String>) {
        let ghost view = request@;
        let out = self.inner.call_role(request);
        proof {
            self.trace = Ghost(
                self.trace@.push(
                    Exchange { request: view, shape: Shape::Role, answer: role_reply(out) },
                ),
            );
        }
        out
    }

    fn call_graphs(&mut self, request: Request) -> (
        out: core::result::Result<(Vec<String>, Vec<String>, Vec<usize>), String>
    ) {
        let ghost view = request@;
        let out = self.inner.call_graphs(request);
        proof {
            self.trace = Ghost(
                self.trace@.push(
                    Exchange { request: view, shape: Shape::Graphs, answer: graphs_reply(out) },
                ),
            );
        }
        out
    }

    fn call_users(&mut self, request: Request) -> (
        out: core::result::Result<(Vec<String>, Vec<RawUserInfo>), String>
    ) {
        let ghost view = request@;
        let out = self.inner.call_users(request);
        proof {
            self.trace = Ghost(
                self.trace@.push(
                    Exchange { request: view, shape: Shape::Users, answer: users_reply(out) },
                ),
            );
        }
        out
    }

    fn call_roles(&mut self, request: Request) -> (
        out: core::result::Result<(Vec<String>, Vec<RawRoleInfo>), String>
    ) {
        let ghost view = request@;
        let out = self.inner.call_roles(request);
        proof {
            self.trace = Ghost(
                self.trace@.push(
                    Exchange { request: view, shape: Shape::Roles, answer: roles_reply(out) },
                ),
            );
        }
        out
    }

    fn call_text_indexes(&mut self, request: Request) -> (
        out: core::result::Result<(Vec<bool>, Vec<String>, Vec<String>), String>
    ) {
        let ghost view = request@;
        let out = self.inner.call_text_indexes(request);
        proof {
            self.trace = Ghost(
                self.trace@.push(
                    Exchange {
                        request: view,
                        shape: Shape::TextIndexes,
                        answer: text_indexes_reply(out),
                    },
                ),
            );
        }
        out
    }

    fn call_hits(&mut self, request: Request) -> (
        out: core::result::Result<(Vec<i64>, Vec<u32>), String>
    ) {
        let ghost view = request@;
        let out = self.inner.call_hits(request);
        proof {
            self.trace = Ghost(
                self.trace@.push(
                    Exchange { request: view, shape: Shape::Hits, answer: hits_reply(out) },
                ),
            );
        }
        out
    }

    fn call_edge_hits(&mut self, request: Request) -> (
        out: core::result::Result<(Vec<RawEdgeUid>, Vec<u32>), String>
    ) {
        let ghost view = request@;
        let out = self.inner.call_edge_hits(request);
        proof {
            self.trace = Ghost(
                self.trace@.push(
                    Exchange {
                        request: view,
                        shape: Shape::EdgeHits,
                        answer: edge_hits_reply(out),
                    },
                ),
            );
        }
        out
    }

}

} // verus!
