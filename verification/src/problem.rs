//! The problem record, its creation payload, and their mathematical views.

use vstd::prelude::*;

use crate::errors::ValidationFault;

verus! {

/// A sample input/output pair attached to a problem. Not yet persisted by
/// any repository operation; carried for future use.
pub struct TestCase {
    pub input: String,
    pub output: String,
    pub explanation: Option<String>,
}

/// One stored problem record. `id` and `created_at` are generated when the
/// record is created and never change afterwards.
pub struct Problem {
    pub id: u128,
    pub problem_number: i32,
    pub title: String,
    pub difficulty: String,
    pub problem_type: String,
    pub competition_mode: String,
    pub topics: Vec<String>,
    pub problem_statement: String,
    pub constraints: String,
    pub time_limit: String,
    pub memory_limit: String,
    pub input_format: String,
    pub output_format: String,
    pub moderator_id: u128,
    pub created_at: i64,
}

/// The mathematical value of a problem record: every text field as a
/// sequence of characters, identifiers and times as plain integers.
#[verifier::ext_equal]
pub ghost struct ProblemView {
    pub id: u128,
    pub problem_number: i32,
    pub title: Seq<char>,
    pub difficulty: Seq<char>,
    pub problem_type: Seq<char>,
    pub competition_mode: Seq<char>,
    pub topics: Seq<Seq<char>>,
    pub problem_statement: Seq<char>,
    pub constraints: Seq<char>,
    pub time_limit: Seq<char>,
    pub memory_limit: Seq<char>,
    pub input_format: Seq<char>,
    pub output_format: Seq<char>,
    pub moderator_id: u128,
    pub created_at: i64,
}

impl View for Problem {
    type V = ProblemView;

    open spec fn view(&self) -> ProblemView {
        ProblemView {
            id: self.id,
            problem_number: self.problem_number,
            title: self.title@,
            difficulty: self.difficulty@,
            problem_type: self.problem_type@,
            competition_mode: self.competition_mode@,
            topics: self.topics.deep_view(),
            problem_statement: self.problem_statement@,
            constraints: self.constraints@,
            time_limit: self.time_limit@,
            memory_limit: self.memory_limit@,
            input_format: self.input_format@,
            output_format: self.output_format@,
            moderator_id: self.moderator_id,
            created_at: self.created_at,
        }
    }
}

/// The views of a sequence of records, in the same order.
pub open spec fn views_of(s: Seq<Problem>) -> Seq<ProblemView> {
    s.map_values(|p: Problem| p@)
}

/// The fields a caller supplies to create a record: everything except the
/// generated identifier and creation time.
pub struct NewProblem {
    pub problem_number: i32,
    pub title: String,
    pub difficulty: String,
    pub problem_type: String,
    pub competition_mode: String,
    pub topics: Vec<String>,
    pub problem_statement: String,
    pub constraints: String,
    pub time_limit: String,
    pub memory_limit: String,
    pub input_format: String,
    pub output_format: String,
    pub moderator_id: u128,
}

impl NewProblem {
    /// The required text fields, title and problem statement, are non-empty.
    pub open spec fn valid(&self) -> bool {
        self.title@.len() > 0 && self.problem_statement@.len() > 0
    }

    /// Which required fields are empty; meaningful when `!self.valid()`.
    pub open spec fn fault(&self) -> ValidationFault {
        ValidationFault {
            empty_title: self.title@.len() == 0,
            empty_description: self.problem_statement@.len() == 0,
        }
    }

    /// The record value that storing these fields under `id` at time
    /// `created_at` must produce.
    pub open spec fn stored_as(&self, id: u128, created_at: i64) -> ProblemView {
        ProblemView {
            id,
            problem_number: self.problem_number,
            title: self.title@,
            difficulty: self.difficulty@,
            problem_type: self.problem_type@,
            competition_mode: self.competition_mode@,
            topics: self.topics.deep_view(),
            problem_statement: self.problem_statement@,
            constraints: self.constraints@,
            time_limit: self.time_limit@,
            memory_limit: self.memory_limit@,
            input_format: self.input_format@,
            output_format: self.output_format@,
            moderator_id: self.moderator_id,
            created_at,
        }
    }

    /// Report the offending fields, or nothing when the payload is valid.
    pub fn validate(&self) -> (r: Result<(), ValidationFault>)
        ensures
            r is Ok <==> self.valid(),
            r matches Err(f) ==> f == self.fault() && f.wf(),
    {
        let empty_title = self.title.as_str().is_empty();
        let empty_description = self.problem_statement.as_str().is_empty();
        if empty_title || empty_description {
            Err(ValidationFault { empty_title, empty_description })
        } else {
            Ok(())
        }
    }

    /// Build the record stored under `id` at time `created_at`.
    pub fn into_problem(&self, id: u128, created_at: i64) -> (r: Problem)
        ensures
            r@ == self.stored_as(id, created_at),
    {
        let r = Problem {
            id,
            problem_number: self.problem_number,
            title: self.title.clone(),
            difficulty: self.difficulty.clone(),
            problem_type: self.problem_type.clone(),
            competition_mode: self.competition_mode.clone(),
            topics: clone_strings(&self.topics),
            problem_statement: self.problem_statement.clone(),
            constraints: self.constraints.clone(),
            time_limit: self.time_limit.clone(),
            memory_limit: self.memory_limit.clone(),
            input_format: self.input_format.clone(),
            output_format: self.output_format.clone(),
            moderator_id: self.moderator_id,
            created_at,
        };
        assert(r@ =~= self.stored_as(id, created_at));
        r
    }
}

impl Problem {
    /// An equal copy of the record.
    pub fn duplicate(&self) -> (r: Problem)
        ensures
            r@ == self@,
    {
        let r = Problem {
            id: self.id,
            problem_number: self.problem_number,
            title: self.title.clone(),
            difficulty: self.difficulty.clone(),
            problem_type: self.problem_type.clone(),
            competition_mode: self.competition_mode.clone(),
            topics: clone_strings(&self.topics),
            problem_statement: self.problem_statement.clone(),
            constraints: self.constraints.clone(),
            time_limit: self.time_limit.clone(),
            memory_limit: self.memory_limit.clone(),
            input_format: self.input_format.clone(),
            output_format: self.output_format.clone(),
            moderator_id: self.moderator_id,
            created_at: self.created_at,
        };
        assert(r@ =~= self@);
        r
    }
}

/// An element-wise equal copy of a list of strings.
pub fn clone_strings(v: &Vec<String>) -> (r: Vec<String>)
    ensures
        r@ == v@,
{
    let mut r: Vec<String> = Vec::new();
    let mut i: usize = 0;
    while i < v.len()
        invariant
            i <= v.len(),
            r@ =~= v@.take(i as int),
        decreases v.len() - i,
    {
        r.push(v[i].clone());
        i = i + 1;
    }
    assert(r@ =~= v@);
    r
}

} // verus!
