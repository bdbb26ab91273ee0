//! An engine that answers from a script.
//!
//! A [`Script`] is made with the answers that it is to give, in order. It
//! gives each request the next answer and keeps the requests, so that what
//! an operation asked can be looked at afterwards. It stands in for the
//! engine where the engine is not at hand.

use vstd::prelude::*;

use crate::engine::{
    code_reply, edge_hits_reply, field_reply, fields_reply, flag_ints_reply, flag_reply,
    flag_size_reply, graphs_reply, handle_reply, hits_reply, indexes_reply, int_reply,
    named_fields_reply, role_reply, roles_reply, roles_view, short_reply, size_pair_reply,
    size_reply, sizes_reply, specs_reply, text_indexes_reply, text_reply, texts_reply, uid_reply,
    unit_reply, user_reply, users_reply, users_view, AnswerView, Engine, Exchange, Request, Shape,
};
use crate::raw::{
    fields_view, indexes_view, specs_view, RawEdgeUid, RawFieldData, RawFieldSpec, RawIndexSpec,
    RawRoleInfo, RawUserInfo,
};

verus! {

/// One answer of a script.
#[derive(Debug, PartialEq)]
pub enum Answer {
    /// The engine fails with this message.
    Failure(String),
    /// What an operation that has no answer gives.
    Done,
    /// The answer to an operation that cannot fail.
    Probe(bool),
    Unit,
    Flag(bool),
    Size(usize),
    Int(i64),
    Short(u16),
    Code(u32),
    Text(String),
    Texts(Vec<String>),
    Sizes(Vec<usize>),
    Handle(u64),
    FlagSize((bool, usize)),
    SizePair((usize, usize)),
    FlagInts((bool, Vec<i64>)),
    Uid(RawEdgeUid),
    Field(RawFieldData),
    Fields(Vec<RawFieldData>),
    NamedFields((Vec<String>, Vec<RawFieldData>)),
    Specs(Vec<RawFieldSpec>),
    Indexes(Vec<RawIndexSpec>),
    User(RawUserInfo),
    Role(RawRoleInfo),
    Graphs((Vec<String>, Vec<String>, Vec<usize>)),
    Users((Vec<String>, Vec<RawUserInfo>)),
    Roles((Vec<String>, Vec<RawRoleInfo>)),
    TextIndexes((Vec<bool>, Vec<String>, Vec<String>)),
    Hits((Vec<i64>, Vec<u32>)),
    EdgeHits((Vec<RawEdgeUid>, Vec<u32>)),
}

impl View for Answer {
    type V = AnswerView;

    open spec fn view(&self) -> AnswerView {
        match self {
            Answer::Failure(message) => AnswerView::Failure(message@),
            Answer::Done => AnswerView::Done,
            Answer::Probe(b) => AnswerView::Probe(*b),
            Answer::Unit => AnswerView::Unit,
            Answer::Flag(v) => AnswerView::Flag(*v),
            Answer::Size(v) => AnswerView::Size(*v),
            Answer::Int(v) => AnswerView::Int(*v),
            Answer::Short(v) => AnswerView::Short(*v),
            Answer::Code(v) => AnswerView::Code(*v),
            Answer::Text(v) => AnswerView::Text(v@),
            Answer::Texts(v) => AnswerView::Texts(v.deep_view()),
            Answer::Sizes(v) => AnswerView::Sizes(v@),
            Answer::Handle(v) => AnswerView::Handle(*v),
            Answer::FlagSize(v) => AnswerView::FlagSize(*v),
            Answer::SizePair(v) => AnswerView::SizePair(*v),
            Answer::FlagInts(v) => AnswerView::FlagInts((v.0, v.1@)),
            Answer::Uid(v) => AnswerView::Uid(*v),
            Answer::Field(v) => AnswerView::Field(v@),
            Answer::Fields(v) => AnswerView::Fields(fields_view(v@)),
            Answer::NamedFields(v) => AnswerView::NamedFields((v.0.deep_view(), fields_view(v.1@))),
            Answer::Specs(v) => AnswerView::Specs(specs_view(v@)),
            Answer::Indexes(v) => AnswerView::Indexes(indexes_view(v@)),
            Answer::User(v) => AnswerView::User(v@),
            Answer::Role(v) => AnswerView::Role(v@),
            Answer::Graphs(v) => AnswerView::Graphs((v.0.deep_view(), v.1.deep_view(), v.2@)),
            Answer::Users(v) => AnswerView::Users((v.0.deep_view(), users_view(v.1@))),
            Answer::Roles(v) => AnswerView::Roles((v.0.deep_view(), roles_view(v.1@))),
            Answer::TextIndexes(v) => AnswerView::TextIndexes(
                (v.0@, v.1.deep_view(), v.2.deep_view())
            ),
            Answer::Hits(v) => AnswerView::Hits((v.0@, v.1@)),
            Answer::EdgeHits(v) => AnswerView::EdgeHits((v.0@, v.1@)),
        }
    }
}

/// What a list of answers holds.
pub open spec fn answers_view(answers: Seq<Answer>) -> Seq<AnswerView> {
    Seq::new(answers.len(), |i: int| answers[i]@)
}

/// The message of the failure that a script gives where it has no answer
/// left, or where its next answer is not of the kind that the operation
/// gives.
pub open spec fn unfit() -> Seq<char> {
    "The script has no answer of this kind."@
}

/// What a script whose answers left are `pending` gives to an operation: its
/// next answer where that is a failure or `fits`, else the failure
/// [`unfit`].
pub open spec fn served(pending: Seq<AnswerView>, fits: bool) -> AnswerView {
    if pending.len() > 0 && (fits || pending[0] is Failure) {
        pending[0]
    } else {
        AnswerView::Failure(unfit())
    }
}

/// The answers that are left after one was taken.
pub open spec fn rest(pending: Seq<AnswerView>) -> Seq<AnswerView> {
    if pending.len() > 0 {
        pending.subrange(1, pending.len() as int)
    } else {
        pending
    }
}

/// An engine that answers from a script.
pub struct Script {
    answers: Vec<Answer>,
    requests: Vec<Request>,
    answered: Ghost<Map<int, (Shape, AnswerView)>>,
}

impl Script {
    /// The answers that are left, the next one first.
    pub closed spec fn pending(&self) -> Seq<AnswerView> {
        answers_view(self.answers@)
    }

    /// The script that gives `answers`, the first one first.
    pub fn new(answers: Vec<Answer>) -> (script: Script)
        ensures
            script.trace() == Seq::<Exchange>::empty(),
            script.pending() == answers_view(answers@),
    {
        let script = Script { answers, requests: Vec::new(), answered: Ghost(Map::empty()) };
        assert(script.trace() =~= Seq::<Exchange>::empty());
        script
    }

    /// The requests that the script was handed, in order.
    pub fn requests(&self) -> (requests: &Vec<Request>)
        ensures
            requests@.len() == self.trace().len(),
            forall|i: int| 0 <= i < requests@.len() ==> (
                #[trigger] requests@[i]
            )@ == self.trace()[i].request,
    {
        &self.requests
    }

    /// The number of answers that are left.
    pub fn left(&self) -> (n: usize)
        ensures
            n == self.pending().len(),
    {
        self.answers.len()
    }

    /// Takes the next answer, if one is left.
    fn take(&mut self) -> (answer: Option<Answer>)
        ensures
            final(self).trace() == old(self).trace(),
            final(self).requests == old(self).requests,
            final(self).answered == old(self).answered,
            final(self).pending() == rest(old(self).pending()),
            match answer {
                Some(a) => old(self).pending().len() > 0 && a@ == old(self).pending()[0],
                None => old(self).pending().len() == 0,
            },
    {
        if self.answers.len() > 0 {
            let a = self.answers.remove(0);
            assert(self.pending() =~= rest(old(self).pending()));
            Some(a)
        } else {
            None
        }
    }

    /// Keeps `request` and what was answered to it.
    fn keep(
        &mut self,
        request: Request,
        Ghost(shape): Ghost<Shape>,
        Ghost(answer): Ghost<AnswerView>,
    )
        ensures
            final(self).trace() == old(self).trace().push(
                Exchange { request: request@, shape, answer },
            ),
            final(self).pending() == old(self).pending(),
    {
        let ghost at = self.requests@.len() as int;
        let ghost view = request@;
        self.requests.push(request);
        proof {
            self.answered = Ghost(self.answered@.insert(at, (shape, answer)));
        }
        assert(self.trace() =~= old(self).trace().push(Exchange { request: view, shape, answer }));
    }

    /// The failure that the script gives where it has no fitting answer.
    fn no_answer() -> (message: String)
        ensures
            message@ == unfit(),
    {
        "The script has no answer of this kind.".to_owned()
    }
}

impl Engine for Script {
    closed spec fn trace(&self) -> Seq<Exchange> {
        Seq::new(
            self.requests@.len(),
            |i: int|
                Exchange {
                    request: self.requests@[i]@,
                    shape: self.answered@[i].0,
                    answer: self.answered@[i].1,
                },
        )
    }

    /// Keeps the request; no answer of the script is used.
    fn signal(&mut self, request: Request)
        ensures
            final(self).pending() == old(self).pending(),
    {
        self.keep(request, Ghost(Shape::Done), Ghost(AnswerView::Done));
    }

    /// Gives the next answer where it is the answer of an operation that
    /// cannot fail, else no.
    fn probe(&mut self, request: Request) -> (out: bool)
        ensures
            final(self).pending() == rest(old(self).pending()),
            out == (old(self).pending().len() > 0 && old(self).pending()[0] == AnswerView::Probe(
                true,
            )),
    {
        let out = match self.take() {
            Some(Answer::Probe(b)) => b,
            _ => false,
        };
        self.keep(request, Ghost(Shape::Probe), Ghost(AnswerView::Probe(out)));
        out
    }

    /// Gives the next answer where it is of this kind or a failure, else the
    /// failure that says that the script has no such answer.
    fn call_unit(&mut self, request: Request) -> (out: core::result::Result<(), String>)
        ensures
            final(self).pending() == rest(old(self).pending()),
            unit_reply(out) == served(
                old(self).pending(),
                old(self).pending().len() > 0 && old(self).pending()[0] is Unit,
            ),
    {
        let out = match self.take() {
            Some(Answer::Unit) => Ok(()),
            Some(Answer::Failure(message)) => Err(message),
            _ => Err(Script::no_answer()),
        };
        self.keep(request, Ghost(Shape::Unit), Ghost(unit_reply(out)));
        out
    }

    /// Gives the next answer where it is of this kind or a failure, else the
    /// failure that says that the script has no such answer.
    fn call_flag(&mut self, request: Request) -> (out: core::result::Result<bool, String>)
        ensures
            final(self).pending() == rest(old(self).pending()),
            flag_reply(out) == served(
                old(self).pending(),
                old(self).pending().len() > 0 && old(self).pending()[0] is Flag,
            ),
    {
        let out = match self.take() {
            Some(Answer::Flag(v)) => Ok(v),
            Some(Answer::Failure(message)) => Err(message),
            _ => Err(Script::no_answer()),
        };
        self.keep(request, Ghost(Shape::Flag), Ghost(flag_reply(out)));
        out
    }

    /// Gives the next answer where it is of this kind or a failure, else the
    /// failure that says that the script has no such answer.
    fn call_size(&mut self, request: Request) -> (out: core::result::Result<usize, String>)
        ensures
            final(self).pending() == rest(old(self).pending()),
            size_reply(out) == served(
                old(self).pending(),
                old(self).pending().len() > 0 && old(self).pending()[0] is Size,
            ),
    {
        let out = match self.take() {
            Some(Answer::Size(v)) => Ok(v),
            Some(Answer::Failure(message)) => Err(message),
            _ => Err(Script::no_answer()),
        };
        self.keep(request, Ghost(Shape::Size), Ghost(size_reply(out)));
        out
    }

    /// Gives the next answer where it is of this kind or a failure, else the
    /// failure that says that the script has no such answer.
    fn call_int(&mut self, request: Request) -> (out: core::result::Result<i64, String>)
        ensures
            final(self).pending() == rest(old(self).pending()),
            int_reply(out) == served(
                old(self).pending(),
                old(self).pending().len() > 0 && old(self).pending()[0] is Int,
            ),
    {
        let out = match self.take() {
            Some(Answer::Int(v)) => Ok(v),
            Some(Answer::Failure(message)) => Err(message),
            _ => Err(Script::no_answer()),
        };
        self.keep(request, Ghost(Shape::Int), Ghost(int_reply(out)));
        out
    }

    /// Gives the next answer where it is of this kind or a failure, else the
    /// failure that says that the script has no such answer.
    fn call_short(&mut self, request: Request) -> (out: core::result::Result<u16, String>)
        ensures
            final(self).pending() == rest(old(self).pending()),
            short_reply(out) == served(
                old(self).pending(),
                old(self).pending().len() > 0 && old(self).pending()[0] is Short,
            ),
    {
        let out = match self.take() {
            Some(Answer::Short(v)) => Ok(v),
            Some(Answer::Failure(message)) => Err(message),
            _ => Err(Script::no_answer()),
        };
        self.keep(request, Ghost(Shape::Short), Ghost(short_reply(out)));
        out
    }

    /// Gives the next answer where it is of this kind or a failure, else the
    /// failure that says that the script has no such answer.
    fn call_code(&mut self, request: Request) -> (out: core::result::Result<u32, String>)
        ensures
            final(self).pending() == rest(old(self).pending()),
            code_reply(out) == served(
                old(self).pending(),
                old(self).pending().len() > 0 && old(self).pending()[0] is Code,
            ),
    {
        let out = match self.take() {
            Some(Answer::Code(v)) => Ok(v),
            Some(Answer::Failure(message)) => Err(message),
            _ => Err(Script::no_answer()),
        };
        self.keep(request, Ghost(Shape::Code), Ghost(code_reply(out)));
        out
    }

    /// Gives the next answer where it is of this kind or a failure, else the
    /// failure that says that the script has no such answer.
    fn call_text(&mut self, request: Request) -> (out: core::result::Result<String, String>)
        ensures
            final(self).pending() == rest(old(self).pending()),
            text_reply(out) == served(
                old(self).pending(),
                old(self).pending().len() > 0 && old(self).pending()[0] is Text,
            ),
    {
        let out = match self.take() {
            Some(Answer::Text(v)) => Ok(v),
            Some(Answer::Failure(message)) => Err(message),
            _ => Err(Script::no_answer()),
        };
        self.keep(request, Ghost(Shape::Text), Ghost(text_reply(out)));
        out
    }

    /// Gives the next answer where it is of this kind or a failure, else the
    /// failure that says that the script has no such answer.
    fn call_texts(&mut self, request: Request) -> (out: core::result::Result<Vec<String>, String>)
        ensures
            final(self).pending() == rest(old(self).pending()),
            texts_reply(out) == served(
                old(self).pending(),
                old(self).pending().len() > 0 && old(self).pending()[0] is Texts,
            ),
    {
        let out = match self.take() {
            Some(Answer::Texts(v)) => Ok(v),
            Some(Answer::Failure(message)) => Err(message),
            _ => Err(Script::no_answer()),
        };
        self.keep(request, Ghost(Shape::Texts), Ghost(texts_reply(out)));
        out
    }

    /// Gives the next answer where it is of this kind or a failure, else the
    /// failure that says that the script has no such answer.
    fn call_sizes(&mut self, request: Request) -> (out: core::result::Result<Vec<usize>, String>)
        ensures
            final(self).pending() == rest(old(self).pending()),
            sizes_reply(out) == served(
                old(self).pending(),
                old(self).pending().len() > 0 && old(self).pending()[0] is Sizes,
            ),
    {
        let out = match self.take() {
            Some(Answer::Sizes(v)) => Ok(v),
            Some(Answer::Failure(message)) => Err(message),
            _ => Err(Script::no_answer()),
        };
        self.keep(request, Ghost(Shape::Sizes), Ghost(sizes_reply(out)));
        out
    }

    /// Gives the next answer where it is of this kind or a failure, else the
    /// failure that says that the script has no such answer.
    fn call_handle(&mut self, request: Request) -> (out: core::result::Result<u64, String>)
        ensures
            final(self).pending() == rest(old(self).pending()),
            handle_reply(out) == served(
                old(self).pending(),
                old(self).pending().len() > 0 && old(self).pending()[0] is Handle,
            ),
    {
        let out = match self.take() {
            Some(Answer::Handle(v)) => Ok(v),
            Some(Answer::Failure(message)) => Err(message),
            _ => Err(Script::no_answer()),
        };
        self.keep(request, Ghost(Shape::Handle), Ghost(handle_reply(out)));
        out
    }

    /// Gives the next answer where it is of this kind or a failure, else the
    /// failure that says that the script has no such answer.
    fn call_flag_size(&mut self, request: Request) -> (
        out: core::result::Result<(bool, usize), String>
    )
        ensures
            final(self).pending() == rest(old(self).pending()),
            flag_size_reply(out) == served(
                old(self).pending(),
                old(self).pending().len() > 0 && old(self).pending()[0] is FlagSize,
            ),
    {
        let out = match self.take() {
            Some(Answer::FlagSize(v)) => Ok(v),
            Some(Answer::Failure(message)) => Err(message),
            _ => Err(Script::no_answer()),
        };
        self.keep(request, Ghost(Shape::FlagSize), Ghost(flag_size_reply(out)));
        out
    }

    /// Gives the next answer where it is of this kind or a failure, else the
    /// failure that says that the script has no such answer.
    fn call_size_pair(&mut self, request: Request) -> (
        out: core::result::Result<(usize, usize), String>
    )
        ensures
            final(self).pending() == rest(old(self).pending()),
            size_pair_reply(out) == served(
                old(self).pending(),
                old(self).pending().len() > 0 && old(self).pending()[0] is SizePair,
            ),
    {
        let out = match self.take() {
            Some(Answer::SizePair(v)) => Ok(v),
            Some(Answer::Failure(message)) => Err(message),
            _ => Err(Script::no_answer()),
        };
        self.keep(request, Ghost(Shape::SizePair), Ghost(size_pair_reply(out)));
        out
    }

    /// Gives the next answer where it is of this kind or a failure, else the
    /// failure that says that the script has no such answer.
    fn call_flag_ints(&mut self, request: Request) -> (
        out: core::result::Result<(bool, Vec<i64>), String>
    )
        ensures
            final(self).pending() == rest(old(self).pending()),
            flag_ints_reply(out) == served(
                old(self).pending(),
                old(self).pending().len() > 0 && old(self).pending()[0] is FlagInts,
            ),
    {
        let out = match self.take() {
            Some(Answer::FlagInts(v)) => Ok(v),
            Some(Answer::Failure(message)) => Err(message),
            _ => Err(Script::no_answer()),
        };
        self.keep(request, Ghost(Shape::FlagInts), Ghost(flag_ints_reply(out)));
        out
    }

    /// Gives the next answer where it is of this kind or a failure, else the
    /// failure that says that the script has no such answer.
    fn call_uid(&mut self, request: Request) -> (out: core::result::Result<RawEdgeUid, String>)
        ensures
            final(self).pending() == rest(old(self).pending()),
            uid_reply(out) == served(
                old(self).pending(),
                old(self).pending().len() > 0 && old(self).pending()[0] is Uid,
            ),
    {
        let out = match self.take() {
            Some(Answer::Uid(v)) => Ok(v),
            Some(Answer::Failure(message)) => Err(message),
            _ => Err(Script::no_answer()),
        };
        self.keep(request, Ghost(Shape::Uid), Ghost(uid_reply(out)));
        out
    }

    /// Gives the next answer where it is of this kind or a failure, else the
    /// failure that says that the script has no such answer.
    fn call_field(&mut self, request: Request) -> (out: core::result::Result<RawFieldData, String>)
        ensures
            final(self).pending() == rest(old(self).pending()),
            field_reply(out) == served(
                old(self).pending(),
                old(self).pending().len() > 0 && old(self).pending()[0] is Field,
            ),
    {
        let out = match self.take() {
            Some(Answer::Field(v)) => Ok(v),
            Some(Answer::Failure(message)) => Err(message),
            _ => Err(Script::no_answer()),
        };
        self.keep(request, Ghost(Shape::Field), Ghost(field_reply(out)));
        out
    }

    /// Gives the next answer where it is of this kind or a failure, else the
    /// failure that says that the script has no such answer.
    fn call_fields(&mut self, request: Request) -> (
        out: core::result::Result<Vec<RawFieldData>, String>
    )
        ensures
            final(self).pending() == rest(old(self).pending()),
            fields_reply(out) == served(
                old(self).pending(),
                old(self).pending().len() > 0 && old(self).pending()[0] is Fields,
            ),
    {
        let out = match self.take() {
            Some(Answer::Fields(v)) => Ok(v),
            Some(Answer::Failure(message)) => Err(message),
            _ => Err(Script::no_answer()),
        };
        self.keep(request, Ghost(Shape::Fields), Ghost(fields_reply(out)));
        out
    }

    /// Gives the next answer where it is of this kind or a failure, else the
    /// failure that says that the script has no such answer.
    fn call_named_fields(&mut self, request: Request) -> (
        out: core::result::Result<(Vec<String>, Vec<RawFieldData>), String>
    )
        ensures
            final(self).pending() == rest(old(self).pending()),
            named_fields_reply(out) == served(
                old(self).pending(),
                old(self).pending().len() > 0 && old(self).pending()[0] is NamedFields,
            ),
    {
        let out = match self.take() {
            Some(Answer::NamedFields(v)) => Ok(v),
            Some(Answer::Failure(message)) => Err(message),
            _ => Err(Script::no_answer()),
        };
        self.keep(request, Ghost(Shape::NamedFields), Ghost(named_fields_reply(out)));
        out
    }

    /// Gives the next answer where it is of this kind or a failure, else the
    /// failure that says that the script has no such answer.
    fn call_specs(&mut self, request: Request) -> (
        out: core::result::Result<Vec<RawFieldSpec>, String>
    )
        ensures
            final(self).pending() == rest(old(self).pending()),
            specs_reply(out) == served(
                old(self).pending(),
                old(self).pending().len() > 0 && old(self).pending()[0] is Specs,
            ),
    {
        let out = match self.take() {
            Some(Answer::Specs(v)) => Ok(v),
            Some(Answer::Failure(message)) => Err(message),
            _ => Err(Script::no_answer()),
        };
        self.keep(request, Ghost(Shape::Specs), Ghost(specs_reply(out)));
        out
    }

    /// Gives the next answer where it is of this kind or a failure, else the
    /// failure that says that the script has no such answer.
    fn call_indexes(&mut self, request: Request) -> (
        out: core::result::Result<Vec<RawIndexSpec>, String>
    )
        ensures
            final(self).pending() == rest(old(self).pending()),
            indexes_reply(out) == served(
                old(self).pending(),
                old(self).pending().len() > 0 && old(self).pending()[0] is Indexes,
            ),
    {
        let out = match self.take() {
            Some(Answer::Indexes(v)) => Ok(v),
            Some(Answer::Failure(message)) => Err(message),
            _ => Err(Script::no_answer()),
        };
        self.keep(request, Ghost(Shape::Indexes), Ghost(indexes_reply(out)));
        out
    }

    /// Gives the next answer where it is of this kind or a failure, else the
    /// failure that says that the script has no such answer.
    fn call_user(&mut self, request: Request) -> (out: core::result::Result<RawUserInfo, String>)
        ensures
            final(self).pending() == rest(old(self).pending()),
            user_reply(out) == served(
                old(self).pending(),
                old(self).pending().len() > 0 && old(self).pending()[0] is User,
            ),
    {
        let out = match self.take() {
            Some(Answer::User(v)) => Ok(v),
            Some(Answer::Failure(message)) => Err(message),
            _ => Err(Script::no_answer()),
        };
        self.keep(request, Ghost(Shape::User), Ghost(user_reply(out)));
        out
    }

    /// Gives the next answer where it is of this kind or a failure, else the
    /// failure that says that the script has no such answer.
    fn call_role(&mut self, request: Request) -> (out: core::result::Result<RawRoleInfo, String>)
        ensures
            final(self).pending() == rest(old(self).pending()),
            role_reply(out) == served(
                old(self).pending(),
                old(self).pending().len() > 0 && old(self).pending()[0] is Role,
            ),
    {
        let out = match self.take() {
            Some(Answer::Role(v)) => Ok(v),
            Some(Answer::Failure(message)) => Err(message),
            _ => Err(Script::no_answer()),
        };
        self.keep(request, Ghost(Shape::Role), Ghost(role_reply(out)));
        out
    }

    /// Gives the next answer where it is of this kind or a failure, else the
    /// failure that says that the script has no such answer.
    fn call_graphs(&mut self, request: Request) -> (
        out: core::result::Result<(Vec<String>, Vec<String>, Vec<usize>), String>
    )
        ensures
            final(self).pending() == rest(old(self).pending()),
            graphs_reply(out) == served(
                old(self).pending(),
                old(self).pending().len() > 0 && old(self).pending()[0] is Graphs,
            ),
    {
        let out = match self.take() {
            Some(Answer::Graphs(v)) => Ok(v),
            Some(Answer::Failure(message)) => Err(message),
            _ => Err(Script::no_answer()),
        };
        self.keep(request, Ghost(Shape::Graphs), Ghost(graphs_reply(out)));
        out
    }

    /// Gives the next answer where it is of this kind or a failure, else the
    /// failure that says that the script has no such answer.
    fn call_users(&mut self, request: Request) -> (
        out: core::result::Result<(Vec<String>, Vec<RawUserInfo>), String>
    )
        ensures
            final(self).pending() == rest(old(self).pending()),
            users_reply(out) == served(
                old(self).pending(),
                old(self).pending().len() > 0 && old(self).pending()[0] is Users,
            ),
    {
        let out = match self.take() {
            Some(Answer::Users(v)) => Ok(v),
            Some(Answer::Failure(message)) => Err(message),
            _ => Err(Script::no_answer()),
        };
        self.keep(request, Ghost(Shape::Users), Ghost(users_reply(out)));
        out
    }

    /// Gives the next answer where it is of this kind or a failure, else the
    /// failure that says that the script has no such answer.
    fn call_roles(&mut self, request: Request) -> (
        out: core::result::Result<(Vec<String>, Vec<RawRoleInfo>), String>
    )
        ensures
            final(self).pending() == rest(old(self).pending()),
            roles_reply(out) == served(
                old(self).pending(),
                old(self).pending().len() > 0 && old(self).pending()[0] is Roles,
            ),
    {
        let out = match self.take() {
            Some(Answer::Roles(v)) => Ok(v),
            Some(Answer::Failure(message)) => Err(message),
            _ => Err(Script::no_answer()),
        };
        self.keep(request, Ghost(Shape::Roles), Ghost(roles_reply(out)));
        out
    }

    /// Gives the next answer where it is of this kind or a failure, else the
    /// failure that says that the script has no such answer.
    fn call_text_indexes(&mut self, request: Request) -> (
        out: core::result::Result<(Vec<bool>, Vec<String>, Vec<String>), String>
    )
        ensures
            final(self).pending() == rest(old(self).pending()),
            text_indexes_reply(out) == served(
                old(self).pending(),
                old(self).pending().len() > 0 && old(self).pending()[0] is TextIndexes,
            ),
    {
        let out = match self.take() {
            Some(Answer::TextIndexes(v)) => Ok(v),
            Some(Answer::Failure(message)) => Err(message),
            _ => Err(Script::no_answer()),
        };
        self.keep(request, Ghost(Shape::TextIndexes), Ghost(text_indexes_reply(out)));
        out
    }

    fn call_hits(&mut self, request: Request) -> (
        out: core::result::Result<(Vec<i64>, Vec<u32>), String>
    )
        ensures
            final(self).pending() == rest(old(self).pending()),
            hits_reply(out) == served(
                old(self).pending(),
                old(self).pending().len() > 0 && old(self).pending()[0] is Hits,
            ),
    {
        let out = match self.take() {
            Some(Answer::Hits(v)) => Ok(v),
            Some(Answer::Failure(message)) => Err(message),
            _ => Err(Script::no_answer()),
        };
        self.keep(request, Ghost(Shape::Hits), Ghost(hits_reply(out)));
        out
    }

    fn call_edge_hits(&mut self, request: Request) -> (
        out: core::result::Result<(Vec<RawEdgeUid>, Vec<u32>), String>
    )
        ensures
            final(self).pending() == rest(old(self).pending()),
            edge_hits_reply(out) == served(
                old(self).pending(),
                old(self).pending().len() > 0 && old(self).pending()[0] is EdgeHits,
            ),
    {
        let out = match self.take() {
            Some(Answer::EdgeHits(v)) => Ok(v),
            Some(Answer::Failure(message)) => Err(message),
            _ => Err(Script::no_answer()),
        };
        self.keep(request, Ghost(Shape::EdgeHits), Ghost(edge_hits_reply(out)));
        out
    }

}

} // verus!
