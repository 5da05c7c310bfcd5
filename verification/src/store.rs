//! The problem repository: an in-memory table of problem records, kept
//! sorted by problem number, with unique identifiers and unique numbers.

use vstd::prelude::*;

use crate::errors::RepoError;
use crate::gen;
use crate::problem::{views_of, NewProblem, Problem, ProblemView};

verus! {

/// Rows are strictly ascending in problem number.
pub open spec fn sorted_by_number(s: Seq<ProblemView>) -> bool {
    forall|i: int, j: int| 0 <= i < j < s.len() ==> s[i].problem_number < s[j].problem_number
}

/// No two rows share an identifier.
pub open spec fn distinct_ids(s: Seq<ProblemView>) -> bool {
    forall|i: int, j: int| 0 <= i < j < s.len() ==> s[i].id != s[j].id
}

/// The number the next created row receives: one above the highest stored
/// number, starting from one.
pub open spec fn spec_next_number(s: Seq<ProblemView>) -> int {
    if s.len() == 0 {
        1
    } else {
        s.last().problem_number + 1
    }
}

/// The table of problem records.
pub struct ProblemStore {
    problems: Vec<Problem>,
}

impl View for ProblemStore {
    type V = Seq<ProblemView>;

    closed spec fn view(&self) -> Seq<ProblemView> {
        views_of(self.problems@)
    }
}

impl ProblemStore {
    /// The table's invariant: rows strictly ascending by problem number
    /// (numbers unique), identifiers unique.
    pub open spec fn wf(&self) -> bool {
        sorted_by_number(self@) && distinct_ids(self@)
    }

    /// Some row holds identifier `id`.
    pub open spec fn spec_has_id(&self, id: u128) -> bool {
        exists|k: int| 0 <= k < self@.len() && self@[k].id == id
    }

    /// Some row holds problem number `n`.
    pub open spec fn spec_has_number(&self, n: i32) -> bool {
        exists|k: int| 0 <= k < self@.len() && self@[k].problem_number == n
    }

    /// An empty table.
    pub fn new() -> (s: ProblemStore)
        ensures
            s.wf(),
            s@ == Seq::<ProblemView>::empty(),
    {
        let s = ProblemStore { problems: Vec::new() };
        assert(s@ =~= Seq::<ProblemView>::empty());
        s
    }

    /// How many rows the table holds.
    pub fn row_count(&self) -> (n: usize)
        ensures
            n == self@.len(),
    {
        self.problems.len()
    }

    /// Whether some row holds identifier `id`.
    pub fn has_id(&self, id: u128) -> (r: bool)
        ensures
            r == self.spec_has_id(id),
    {
        let mut i: usize = 0;
        while i < self.problems.len()
            invariant
                i <= self.problems.len(),
                forall|k: int| 0 <= k < i ==> self@[k].id != id,
            decreases self.problems.len() - i,
        {
            if self.problems[i].id == id {
                assert(self@[i as int].id == id);
                return true;
            }
            i = i + 1;
        }
        false
    }

    /// The index of the first row whose number is not below `n`: everything
    /// before it is below `n`, everything from it on is at or above `n`.
    fn find_position(&self, n: i32) -> (r: usize)
        requires
            self.wf(),
        ensures
            r <= self@.len(),
            forall|k: int| 0 <= k < r ==> self@[k].problem_number < n,
            forall|k: int| r <= k < self@.len() ==> self@[k].problem_number >= n,
    {
        let mut i: usize = 0;
        while i < self.problems.len()
            invariant
                self.wf(),
                i <= self.problems.len(),
                forall|k: int| 0 <= k < i ==> self@[k].problem_number < n,
            decreases self.problems.len() - i,
        {
            if self.problems[i].problem_number >= n {
                assert forall|k: int| i <= k < self@.len() implies self@[k].problem_number
                    >= n by {
                    if i < k {
                        assert(self@[i as int].problem_number < self@[k].problem_number);
                    }
                }
                return i;
            }
            i = i + 1;
        }
        i
    }

    /// Store the given fields as a new row under identifier `id` with
    /// creation time `created_at`, and return the stored record.
    ///
    /// Fails with a validation error naming the offending fields when a
    /// required field is empty, and with a persistence error when the
    /// identifier or the problem number is already taken (the table's key
    /// constraints); in every failing case the table is unchanged. On any
    /// other input it succeeds, and the table afterwards holds exactly the
    /// old rows plus the returned record.
    pub fn insert_problem(&mut self, data: &NewProblem, id: u128, created_at: i64) -> (r: Result<
        Problem,
        RepoError,
    >)
        requires
            old(self).wf(),
        ensures
            final(self).wf(),
            r is Err ==> final(self)@ == old(self)@,
            !data.valid() ==> r == Err::<Problem, RepoError>(RepoError::Validation(data.fault())),
            data.valid() && (old(self).spec_has_id(id) || old(self).spec_has_number(
                data.problem_number,
            )) ==> r == Err::<Problem, RepoError>(RepoError::Persistence),
            data.valid() && !old(self).spec_has_id(id) && !old(self).spec_has_number(
                data.problem_number,
            ) ==> (r matches Ok(p) && p@ == data.stored_as(id, created_at)),
            r is Ok ==> final(self)@.len() == old(self)@.len() + 1
                && final(self)@.to_multiset() == old(self)@.to_multiset().insert(
                data.stored_as(id, created_at),
            ),
        {
        match data.validate() {
            Err(f) => {
                return Err(RepoError::Validation(f));
            },
            Ok(()) => {},
        }
        if self.has_id(id) {
            return Err(RepoError::Persistence);
        }
        let pos = self.find_position(data.problem_number);
        if pos < self.problems.len() && self.problems[pos].problem_number == data.problem_number {
            assert(self.spec_has_number(data.problem_number)) by {
                assert(self@[pos as int].problem_number == data.problem_number);
            }
            return Err(RepoError::Persistence);
        }
        assert(!self.spec_has_number(data.problem_number)) by {
            if exists|k: int| 0 <= k < self@.len() && self@[k].problem_number
                == data.problem_number {
                let k = choose|k: int|
                    0 <= k < self@.len() && self@[k].problem_number == data.problem_number;
                assert(k >= pos);
                if k > pos {
                    assert(self@[pos as int].problem_number < self@[k].problem_number);
                }
            }
        }
        let p = data.into_problem(id, created_at);
        let stored = p.duplicate();
        let ghost old_rows = self@;
        let ghost pv = data.stored_as(id, created_at);
        self.problems.insert(pos, p);
        proof {
            let pos = pos as int;
            old_rows.insert_ensures(pos, pv);
            assert(self@ =~= old_rows.insert(pos, pv)) by {
                assert forall|k: int| 0 <= k < self@.len() implies self@[k] == old_rows.insert(
                    pos,
                    pv,
                )[k] by {
                    if k < pos {
                    } else if k == pos {
                    } else {
                        assert(old_rows.insert(pos, pv)[(k - 1) + 1] == old_rows[k - 1]);
                    }
                }
            }
            assert(sorted_by_number(self@)) by {
                assert forall|i: int, j: int|
                    0 <= i < j < self@.len() implies self@[i].problem_number
                    < self@[j].problem_number by {
                    if j < pos {
                    } else if i < pos && j == pos {
                        assert(self@[i] == old_rows[i]);
                    } else if i < pos && j > pos {
                        assert(self@[j] == old_rows[j - 1]);
                        if j - 1 == pos {
                            assert(old_rows[pos].problem_number >= pv.problem_number);
                        }
                    } else if i == pos {
                        assert(self@[j] == old_rows[j - 1]);
                        assert(old_rows[j - 1].problem_number >= pv.problem_number);
                        assert(old_rows[j - 1].problem_number != pv.problem_number);
                    } else {
                        assert(self@[i] == old_rows[i - 1]);
                        assert(self@[j] == old_rows[j - 1]);
                    }
                }
            }
            assert(distinct_ids(self@)) by {
                assert forall|i: int, j: int| 0 <= i < j < self@.len() implies self@[i].id
                    != self@[j].id by {
                    if i != pos && j != pos {
                        let i0: int = if i < pos { i } else { i - 1 };
                        let j0: int = if j < pos { j } else { j - 1 };
                        assert(self@[i] == old_rows[i0]);
                        assert(self@[j] == old_rows[j0]);
                    } else if i == pos {
                        assert(self@[j] == old_rows[j - 1]);
                        assert(!(exists|k: int| 0 <= k < old_rows.len() && old_rows[k].id == pv.id)
                            ==> old_rows[j - 1].id != pv.id);
                    } else {
                        assert(self@[i] == old_rows[i]);
                    }
                }
            }
            broadcast use vstd::seq_lib::to_multiset_insert;

            assert(self@.to_multiset() == old_rows.to_multiset().insert(pv));
        }
        Ok(stored)
    }

    /// Generate a fresh identifier and the current creation time, and store
    /// the given fields as a new row.
    ///
    /// Fails with a validation error naming the offending fields when a
    /// required field is empty, and with a persistence error when the
    /// problem number is already taken or the generated identifier collides
    /// with a stored one — on an empty table no collision is possible, so
    /// there success is owed; in every failing case the table is unchanged. On
    /// success the returned record carries the given fields unchanged under
    /// an identifier no earlier row held, and the table afterwards holds
    /// exactly the old rows plus that record.
    pub fn create_problem(&mut self, data: &NewProblem) -> (r: Result<Problem, RepoError>)
        requires
            old(self).wf(),
        ensures
            final(self).wf(),
            r is Err ==> final(self)@ == old(self)@,
            !data.valid() ==> r == Err::<Problem, RepoError>(RepoError::Validation(data.fault())),
            data.valid() && old(self).spec_has_number(data.problem_number) ==> r == Err::<
                Problem,
                RepoError,
            >(RepoError::Persistence),
            data.valid() ==> r is Ok || r == Err::<Problem, RepoError>(RepoError::Persistence),
            data.valid() && old(self)@.len() == 0 ==> r is Ok,
            r matches Ok(p) ==> p@ == data.stored_as(p@.id, p@.created_at)
                && !old(self).spec_has_id(p@.id)
                && final(self)@.len() == old(self)@.len() + 1
                && final(self)@.to_multiset() == old(self)@.to_multiset().insert(p@),
    {
        let id = gen::fresh_id();
        let created_at = gen::now_micros();
        let r = self.insert_problem(data, id, created_at);
        proof {
            if r is Ok {
                assert(!old(self).spec_has_id(id) && !old(self).spec_has_number(
                    data.problem_number,
                ) && data.valid());
            }
        }
        r
    }

    /// The number the next created row receives, or nothing when the
    /// highest stored number has reached the machine bound.
    pub fn next_number(&self) -> (r: Option<i32>)
        requires
            self.wf(),
        ensures
            r matches Some(n) ==> n == spec_next_number(self@) && !self.spec_has_number(n),
            r is None <==> spec_next_number(self@) > i32::MAX,
    {
        let len = self.problems.len();
        if len == 0 {
            Some(1)
        } else {
            let last = self.problems[len - 1].problem_number;
            assert(last == self@.last().problem_number);
            if last == i32::MAX {
                None
            } else {
                proof {
                    assert forall|k: int| 0 <= k < self@.len() implies self@[k].problem_number
                        != last + 1 by {
                        if k < self@.len() - 1 {
                            assert(self@[k].problem_number < self@[self@.len()
                                - 1].problem_number);
                        }
                    }
                }
                Some(last + 1)
            }
        }
    }

    /// All rows, in the table's order: ascending by problem number.
    pub fn list_problems(&self) -> (r: Vec<Problem>)
        ensures
            views_of(r@) == self@,
            self.wf() ==> sorted_by_number(views_of(r@)),
    {
        let mut r: Vec<Problem> = Vec::new();
        let mut i: usize = 0;
        while i < self.problems.len()
            invariant
                i <= self.problems.len(),
                r@.len() == i,
                forall|k: int| 0 <= k < i ==> #[trigger] r@[k]@ == self@[k],
            decreases self.problems.len() - i,
        {
            let d = self.problems[i].duplicate();
            assert(d@ == self@[i as int]);
            r.push(d);
            i = i + 1;
        }
        proof {
            assert(views_of(r@) =~= self@) by {
                assert forall|k: int| 0 <= k < r@.len() implies views_of(r@)[k] == self@[k] by {
                    assert(views_of(r@)[k] == r@[k]@);
                }
            }
        }
        r
    }
}

/// Listing the table twice with no intervening change yields the same
/// sequence of records: the listing is a function of the rows alone.
pub proof fn lemma_list_idempotent(s: ProblemStore, r1: Seq<ProblemView>, r2: Seq<ProblemView>)
    requires
        r1 == s@,
        r2 == s@,
    ensures
        r1 == r2,
{
}

/// In a well-formed table, any two distinct rows hold distinct identifiers
/// and distinct problem numbers.
pub proof fn lemma_rows_distinct(s: ProblemStore, i: int, j: int)
    requires
        s.wf(),
        0 <= i < s@.len(),
        0 <= j < s@.len(),
        i != j,
    ensures
        s@[i].id != s@[j].id,
        s@[i].problem_number != s@[j].problem_number,
{
    if i < j {
        assert(s@[i].problem_number < s@[j].problem_number);
    } else {
        assert(s@[j].problem_number < s@[i].problem_number);
        assert(s@[j].id != s@[i].id);
    }
}

} // verus!
