use problem_api::errors::RepoError;
use problem_api::problem::{NewProblem, Problem};
use problem_api::store::ProblemStore;

fn fields(number: i32, title: &str, statement: &str) -> NewProblem {
    NewProblem {
        problem_number: number,
        title: title.to_owned(),
        difficulty: "easy".to_owned(),
        problem_type: "icpc".to_owned(),
        competition_mode: "solo".to_owned(),
        topics: vec!["arrays".to_owned(), "sorting".to_owned()],
        problem_statement: statement.to_owned(),
        constraints: "1 <= n <= 100".to_owned(),
        time_limit: "1s".to_owned(),
        memory_limit: "256MB".to_owned(),
        input_format: "one line".to_owned(),
        output_format: "one line".to_owned(),
        moderator_id: 42,
    }
}

fn numbers_of(rows: &[Problem]) -> Vec<i32> {
    rows.iter().map(|p| p.problem_number).collect()
}

#[test]
fn insert_keeps_fields_exactly() {
    let mut s = ProblemStore::new();
    let r = s.insert_problem(&fields(7, "Two Sum", "Find two numbers."), 900, 123456).unwrap();
    assert_eq!(r.id, 900);
    assert_eq!(r.problem_number, 7);
    assert_eq!(r.title, "Two Sum");
    assert_eq!(r.problem_statement, "Find two numbers.");
    assert_eq!(r.difficulty, "easy");
    assert_eq!(r.topics, vec!["arrays".to_owned(), "sorting".to_owned()]);
    assert_eq!(r.moderator_id, 42);
    assert_eq!(r.created_at, 123456);
    assert_eq!(s.row_count(), 1);
}

#[test]
fn insert_empty_title_is_validation_error_and_no_write() {
    let mut s = ProblemStore::new();
    let r = s.insert_problem(&fields(1, "", "Something."), 1, 0);
    match r {
        Err(RepoError::Validation(f)) => {
            assert!(f.empty_title);
            assert!(!f.empty_description);
        },
        _ => panic!("expected a validation error"),
    }
    assert_eq!(s.row_count(), 0);
}

#[test]
fn insert_empty_statement_is_validation_error_and_no_write() {
    let mut s = ProblemStore::new();
    let r = s.insert_problem(&fields(1, "Title", ""), 1, 0);
    match r {
        Err(RepoError::Validation(f)) => {
            assert!(!f.empty_title);
            assert!(f.empty_description);
        },
        _ => panic!("expected a validation error"),
    }
    assert_eq!(s.row_count(), 0);
}

#[test]
fn insert_both_empty_names_both_fields() {
    let mut s = ProblemStore::new();
    match s.insert_problem(&fields(1, "", ""), 1, 0) {
        Err(RepoError::Validation(f)) => {
            assert!(f.empty_title);
            assert!(f.empty_description);
        },
        _ => panic!("expected a validation error"),
    }
}

#[test]
fn duplicate_id_is_persistence_error_and_no_write() {
    let mut s = ProblemStore::new();
    s.insert_problem(&fields(1, "A", "a"), 5, 0).unwrap();
    match s.insert_problem(&fields(2, "B", "b"), 5, 0) {
        Err(RepoError::Persistence) => {},
        _ => panic!("expected a persistence error"),
    }
    assert_eq!(s.row_count(), 1);
}

#[test]
fn duplicate_number_is_persistence_error_and_no_write() {
    let mut s = ProblemStore::new();
    s.insert_problem(&fields(3, "A", "a"), 5, 0).unwrap();
    match s.insert_problem(&fields(3, "B", "b"), 6, 0) {
        Err(RepoError::Persistence) => {},
        _ => panic!("expected a persistence error"),
    }
    assert_eq!(s.row_count(), 1);
}

#[test]
fn listing_is_ascending_by_number() {
    let mut s = ProblemStore::new();
    s.insert_problem(&fields(3, "C", "c"), 30, 0).unwrap();
    s.insert_problem(&fields(1, "A", "a"), 10, 0).unwrap();
    s.insert_problem(&fields(2, "B", "b"), 20, 0).unwrap();
    let rows = s.list_problems();
    assert_eq!(numbers_of(&rows), vec![1, 2, 3]);
    assert_eq!(rows[0].title, "A");
    assert_eq!(rows[1].title, "B");
    assert_eq!(rows[2].title, "C");
}

#[test]
fn listing_twice_returns_identical_sequences() {
    let mut s = ProblemStore::new();
    s.insert_problem(&fields(2, "B", "b"), 20, 7).unwrap();
    s.insert_problem(&fields(1, "A", "a"), 10, 8).unwrap();
    let first = s.list_problems();
    let second = s.list_problems();
    assert_eq!(first.len(), second.len());
    for (x, y) in first.iter().zip(second.iter()) {
        assert_eq!(x.id, y.id);
        assert_eq!(x.problem_number, y.problem_number);
        assert_eq!(x.title, y.title);
        assert_eq!(x.problem_statement, y.problem_statement);
        assert_eq!(x.topics, y.topics);
        assert_eq!(x.created_at, y.created_at);
    }
}

#[test]
fn created_records_get_fresh_distinct_ids() {
    let mut s = ProblemStore::new();
    let a = s.create_problem(&fields(1, "A", "a")).unwrap();
    let b = s.create_problem(&fields(2, "B", "b")).unwrap();
    assert_ne!(a.id, b.id);
    assert_eq!(s.row_count(), 2);
}

#[test]
fn hundred_creations_store_hundred_distinct_ids() {
    let mut s = ProblemStore::new();
    let mut ids: Vec<u128> = Vec::new();
    for n in 0..100 {
        let title = format!("Problem {}", n);
        let p = s.create_problem(&fields(n, &title, "statement")).unwrap();
        ids.push(p.id);
    }
    assert_eq!(s.row_count(), 100);
    ids.sort();
    ids.dedup();
    assert_eq!(ids.len(), 100);
}

#[test]
fn next_number_is_sequential_from_one() {
    let mut s = ProblemStore::new();
    assert_eq!(s.next_number(), Some(1));
    s.insert_problem(&fields(5, "A", "a"), 1, 0).unwrap();
    assert_eq!(s.next_number(), Some(6));
    s.insert_problem(&fields(i32::MAX, "B", "b"), 2, 0).unwrap();
    assert_eq!(s.next_number(), None);
}
