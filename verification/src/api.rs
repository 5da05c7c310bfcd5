//! The moderator API layer: payload validation and the decision, for each
//! request, of the HTTP status and body of the reply.

use vstd::prelude::*;

use crate::errors::{RepoError, ValidationFault};
use crate::problem::{views_of, NewProblem, Problem};
use crate::store::{sorted_by_number, spec_next_number, ProblemStore};

verus! {

/// The JSON payload a moderator submits to create a problem.
pub struct ProblemData {
    pub title: String,
    pub description: String,
}

impl ProblemData {
    /// Both required fields are non-empty.
    pub open spec fn valid(&self) -> bool {
        self.title@.len() > 0 && self.description@.len() > 0
    }

    /// Which required fields are empty; meaningful when `!self.valid()`.
    pub open spec fn fault(&self) -> ValidationFault {
        ValidationFault {
            empty_title: self.title@.len() == 0,
            empty_description: self.description@.len() == 0,
        }
    }
}

/// The body of a reply, as plain values; serialization happens outside the
/// library.
pub enum ReplyBody {
    Greeting(String),
    Created(Problem),
    Problems(Vec<Problem>),
    ValidationFailure(ValidationFault),
    PersistenceFailure,
    NotFound,
}

/// One HTTP reply: a status code and a body.
pub struct HttpReply {
    pub status: u16,
    pub body: ReplyBody,
}

/// Decide the reply to a creation request from the repository outcome: the
/// created record with status 201, the offending fields with status 400 on
/// invalid data, or an opaque body with status 500 on a persistence
/// failure — never success when the operation failed.
pub fn add_problem_reply(outcome: Result<Problem, RepoError>) -> (r: HttpReply)
    ensures
        outcome matches Ok(p) ==> r.status == 201 && (r.body matches ReplyBody::Created(q) && q
            == p),
        outcome matches Err(RepoError::Validation(f)) ==> r.status == 400 && r.body
            == ReplyBody::ValidationFailure(f),
        outcome matches Err(RepoError::Persistence) ==> r.status == 500 && r.body
            == ReplyBody::PersistenceFailure,
{
    match outcome {
        Ok(p) => HttpReply { status: 201, body: ReplyBody::Created(p) },
        Err(RepoError::Validation(f)) => HttpReply {
            status: 400,
            body: ReplyBody::ValidationFailure(f),
        },
        Err(RepoError::Persistence) => HttpReply {
            status: 500,
            body: ReplyBody::PersistenceFailure,
        },
    }
}

/// Decide the reply to a list request from the repository outcome: the
/// fetched rows with status 200, or an opaque body with status 500 on a
/// persistence failure — never success when the fetch failed.
pub fn get_problems_reply(outcome: Result<Vec<Problem>, RepoError>) -> (r: HttpReply)
    ensures
        outcome matches Ok(v) ==> r.status == 200 && (r.body matches ReplyBody::Problems(w) && w
            == v),
        outcome is Err ==> r.status == 500 && r.body == ReplyBody::PersistenceFailure,
{
    match outcome {
        Ok(v) => HttpReply { status: 200, body: ReplyBody::Problems(v) },
        Err(_) => HttpReply { status: 500, body: ReplyBody::PersistenceFailure },
    }
}

/// Serve a creation request against the table: validate the payload, give
/// the record the next problem number, the submitted texts (the title as
/// the title, the description as the problem statement) and empty remaining
/// fields, and store it.
///
/// An invalid payload is reported with status 400 and the offending fields,
/// and the table is unchanged. A valid payload is either stored — status
/// 201, the reply carrying the new record, the table growing by exactly
/// that row — or refused with status 500 and the table unchanged: with 500
/// certain when the problem numbers are exhausted, and 201 certain on an
/// empty table, where no generated identifier can collide.
pub fn add_problem(store: &mut ProblemStore, data: &ProblemData, moderator_id: u128) -> (r:
    HttpReply)
    requires
        old(store).wf(),
    ensures
        final(store).wf(),
        !data.valid() ==> r.status == 400 && r.body == ReplyBody::ValidationFailure(data.fault())
            && final(store)@ == old(store)@,
        data.valid() ==> (r.status == 201 && (r.body matches ReplyBody::Created(p)
            && p@.title == data.title@ && p@.problem_statement == data.description@
            && p@.problem_number == spec_next_number(old(store)@)
            && p@.moderator_id == moderator_id && !old(store).spec_has_id(p@.id)
            && p@.difficulty == Seq::<char>::empty() && p@.problem_type == Seq::<char>::empty()
            && p@.competition_mode == Seq::<char>::empty()
            && p@.topics == Seq::<Seq<char>>::empty() && p@.constraints == Seq::<char>::empty()
            && p@.time_limit == Seq::<char>::empty() && p@.memory_limit == Seq::<char>::empty()
            && p@.input_format == Seq::<char>::empty()
            && p@.output_format == Seq::<char>::empty()
            && final(store)@.to_multiset() == old(store)@.to_multiset().insert(p@)
            && final(store)@.len() == old(store)@.len() + 1)) || (r.status == 500 && r.body
            == ReplyBody::PersistenceFailure && final(store)@ == old(store)@),
        data.valid() && old(store)@.len() == 0 ==> r.status == 201,
        data.valid() && spec_next_number(old(store)@) > i32::MAX ==> r.status == 500
            && final(store)@ == old(store)@,
{
    let empty_title = data.title.as_str().is_empty();
    let empty_description = data.description.as_str().is_empty();
    if empty_title || empty_description {
        return HttpReply {
            status: 400,
            body: ReplyBody::ValidationFailure(ValidationFault { empty_title, empty_description }),
        };
    }
    let number = match store.next_number() {
        Some(n) => n,
        None => {
            return HttpReply { status: 500, body: ReplyBody::PersistenceFailure };
        },
    };
    let fields = NewProblem {
        problem_number: number,
        title: data.title.clone(),
        difficulty: String::new(),
        problem_type: String::new(),
        competition_mode: String::new(),
        topics: Vec::new(),
        problem_statement: data.description.clone(),
        constraints: String::new(),
        time_limit: String::new(),
        memory_limit: String::new(),
        input_format: String::new(),
        output_format: String::new(),
        moderator_id,
    };
    proof {
        assert(fields.topics.deep_view() =~= Seq::<Seq<char>>::empty());
    }
    let outcome = store.create_problem(&fields);
    add_problem_reply(outcome)
}

/// Serve a list request against the table: every stored record, ascending
/// by problem number, with status 200.
pub fn get_problems(store: &ProblemStore) -> (r: HttpReply)
    requires
        store.wf(),
    ensures
        r.status == 200,
        r.body matches ReplyBody::Problems(v) && views_of(v@) == store@ && sorted_by_number(
            views_of(v@),
        ),
{
    HttpReply { status: 200, body: ReplyBody::Problems(store.list_problems()) }
}

/// The greeting served at the root path.
pub fn hello() -> (r: HttpReply)
    ensures
        r.status == 200,
        r.body matches ReplyBody::Greeting(s) && s@ == "hello sreyas"@,
{
    HttpReply { status: 200, body: ReplyBody::Greeting("hello sreyas".to_owned()) }
}

/// The reply to a request no route matches.
pub fn not_found_reply() -> (r: HttpReply)
    ensures
        r.status == 404 && r.body == ReplyBody::NotFound,
{
    HttpReply { status: 404, body: ReplyBody::NotFound }
}

} // verus!
