use std::cell::Cell;
use std::fmt::Debug;
use std::sync::atomic::AtomicUsize;

use multiple_choice::computations::{create_array, create_tuple, different_value, value_for_call};
use multiple_choice::{
    divergence_message, triple_verify, triple_verify_by, vote_by, warning_message, Dissenter,
    Vote,
};

#[derive(PartialEq, Debug, Clone)]
struct TestStruct {
    id: i32,
    name: String,
    value: f64,
    active: bool,
}

/// Hands back the voted value, panicking with the fatal message when all
/// three results differ.
fn settle<T: Debug>(name: &str, vote: Vote<T>) -> T {
    match vote {
        Vote::Unanimous(r) => r,
        Vote::Majority(r, _) => r,
        Vote::Divergent(a, b, c) => panic!(
            "{}",
            divergence_message(name, &format!("{:?}", a), &format!("{:?}", b), &format!("{:?}", c))
        ),
    }
}

fn create_test_struct(id: i32, name: &str, value: f64, active: bool) -> TestStruct {
    let v = triple_verify(&|| TestStruct {
        id,
        name: name.to_string(),
        value,
        active,
    });
    settle("create_test_struct", v)
}

fn create_struct_tuple(a: &TestStruct, b: &TestStruct) -> (TestStruct, TestStruct) {
    settle("create_struct_tuple", triple_verify(&|| (a.clone(), b.clone())))
}

fn create_struct_vec(count: usize, base_id: i32) -> Vec<TestStruct> {
    let v = triple_verify(&|| {
        (0..count)
            .map(|i| TestStruct {
                id: base_id + i as i32,
                name: format!("Test {}", i),
                value: i as f64 * 0.5,
                active: i % 2 == 0,
            })
            .collect::<Vec<_>>()
    });
    settle("create_struct_vec", v)
}

fn create_struct_array() -> [TestStruct; 2] {
    let v = triple_verify(&|| {
        [
            TestStruct {
                id: 1,
                name: "First".to_string(),
                value: 1.1,
                active: true,
            },
            TestStruct {
                id: 2,
                name: "Second".to_string(),
                value: 2.2,
                active: false,
            },
        ]
    });
    settle("create_struct_array", v)
}

/// A computation that returns the given values on its successive calls.
fn rigged(values: [char; 3]) -> impl Fn() -> char {
    let calls = Cell::new(0usize);
    move || {
        let i = calls.get();
        calls.set(i + 1);
        values[i]
    }
}

#[test]
fn test_all_match() {
    assert_eq!(multiple_choice::computations::add(2, 3), 5);
}

#[test]
#[should_panic]
fn test_all_different() {
    let counter = AtomicUsize::new(0);
    settle("different_value", different_value(&counter));
}

#[test]
fn test_tuple_return() {
    assert_eq!(create_tuple(42, "test"), (42, "test".to_string()));
}

#[test]
fn test_array_return() {
    assert_eq!(create_array(10), [10, 10, 10]);
}

#[test]
fn test_struct_return() {
    let expected = TestStruct {
        id: 1,
        name: "test".to_string(),
        value: 3.14,
        active: true,
    };
    assert_eq!(create_test_struct(1, "test", 3.14, true), expected);
}

#[test]
fn test_struct_tuple_return() {
    let struct1 = TestStruct {
        id: 1,
        name: "First".to_string(),
        value: 1.1,
        active: true,
    };
    let struct2 = TestStruct {
        id: 2,
        name: "Second".to_string(),
        value: 2.2,
        active: false,
    };
    let expected = (struct1.clone(), struct2.clone());
    assert_eq!(create_struct_tuple(&struct1, &struct2), expected);
}

#[test]
fn test_struct_vec_return() {
    let result = create_struct_vec(3, 10);
    assert_eq!(result.len(), 3);
    assert_eq!(result[0].id, 10);
    assert_eq!(result[1].id, 11);
    assert_eq!(result[2].id, 12);
}

#[test]
fn test_struct_array_return() {
    let result = create_struct_array();
    assert_eq!(result.len(), 2);
    assert_eq!(result[0].id, 1);
    assert_eq!(result[1].id, 2);
}

#[test]
fn deterministic_sum_is_unanimous_after_three_calls() {
    let calls = Cell::new(0u32);
    let v = triple_verify(&|| {
        calls.set(calls.get() + 1);
        2 + 3
    });
    assert_eq!(v, Vote::Unanimous(5));
    assert_eq!(calls.get(), 3);
    assert_eq!(v.warning("add"), None);
}

#[test]
fn deterministic_pair_is_unanimous() {
    let v = triple_verify(&|| (42, "test".to_string()));
    assert_eq!(v, Vote::Unanimous((42, "test".to_string())));
}

#[test]
fn counter_divergence_keeps_results_in_order() {
    let counter = AtomicUsize::new(0);
    let v = different_value(&counter);
    assert_eq!(v, Vote::Divergent(1, 2, 3));
    assert_eq!(v.clone().into_winner(), None);
    assert_eq!(v.warning("different_value"), None);
    assert_eq!(
        divergence_message("different_value", "1", "2", "3"),
        "Function different_value: All three results differ: 1, 2, 3"
    );
}

#[test]
fn counter_after_divergence_is_unanimous() {
    let counter = AtomicUsize::new(5);
    assert_eq!(different_value(&counter), Vote::Unanimous(3));
}

#[test]
fn value_for_call_counts_one_two_three() {
    assert_eq!(value_for_call(0), 1);
    assert_eq!(value_for_call(1), 2);
    assert_eq!(value_for_call(2), 3);
    assert_eq!(value_for_call(usize::MAX), 3);
}

#[test]
fn two_of_three_match_in_every_position() {
    let v = triple_verify(&rigged(['A', 'A', 'B']));
    assert_eq!(v, Vote::Majority('A', Dissenter::Third));
    let v = triple_verify(&rigged(['A', 'B', 'A']));
    assert_eq!(v, Vote::Majority('A', Dissenter::Second));
    let v = triple_verify(&rigged(['B', 'A', 'A']));
    assert_eq!(v, Vote::Majority('A', Dissenter::First));
    assert_eq!(v.clone().into_winner(), Some('A'));
}

#[test]
fn majority_owes_one_warning_naming_the_function() {
    let v = triple_verify(&rigged(['A', 'A', 'B']));
    assert_eq!(
        v.warning("rigged"),
        Some("WARNING: Function rigged: Two results match, one differs".to_string())
    );
    assert_eq!(
        warning_message("f"),
        "WARNING: Function f: Two results match, one differs"
    );
}

#[test]
fn unanimous_takes_the_first_result() {
    assert_eq!(vote_by(7u8, 7, 7, &|a: &u8, b: &u8| a == b), Vote::Unanimous(7));
}

#[test]
fn tolerance_equality_follows_the_first_matching_row() {
    // 1 ~ 2 and 2 ~ 3 but not 1 ~ 3: the first row already matches.
    let near = |a: &i32, b: &i32| (a - b).abs() <= 1;
    assert_eq!(vote_by(1, 2, 3, &near), Vote::Unanimous(1));
    // Only the first and third agree.
    assert_eq!(vote_by(1, 9, 2, &near), Vote::Majority(1, Dissenter::Second));
    assert_eq!(vote_by(1, 5, 9, &near), Vote::Divergent(1, 5, 9));
}

#[test]
fn custom_equality_through_the_wrapper() {
    let v = triple_verify_by(&|| "Test".to_string(), &|a: &String, b: &String| {
        a.eq_ignore_ascii_case(b)
    });
    assert_eq!(v, Vote::Unanimous("Test".to_string()));
}

#[test]
fn nested_wrap_is_unanimous_at_both_layers() {
    let calls = Cell::new(0u32);
    let inner = || {
        calls.set(calls.get() + 1);
        2 + 3
    };
    let v = triple_verify(&|| triple_verify(&inner));
    assert_eq!(v, Vote::Unanimous(Vote::Unanimous(5)));
    assert_eq!(calls.get(), 9);
}
