use vstd::prelude::*;
use vstd::string::StringExecFns;
use vstd::std_specs::cmp::PartialEqSpec;
use std::sync::atomic::{AtomicUsize, Ordering};
use crate::vote::{vote_of, Vote};
use crate::wrap::{triple_verify, triple_verify_by};

verus! {

/// The sum of `a` and `b`, computed three times and voted on.
pub fn add(a: i32, b: i32) -> (r: i32)
    requires
        i32::MIN <= a + b <= i32::MAX,
    ensures
        r == a + b,
{
    let f = || -> (r: i32)
        requires
            i32::MIN <= a + b <= i32::MAX,
        ensures
            r == a + b,
        { a + b };
    let v = triple_verify(&f);
    assert(v == Vote::Unanimous((a + b) as i32));
    v.into_winner().unwrap()
}

/// The pair of `a` and an owned copy of `b`, computed three times and voted on.
pub fn create_tuple(a: i32, b: &str) -> (r: (i32, String))
    ensures
        r.0 == a,
        r.1@ == b@,
{
    let f = || -> (r: (i32, String))
        ensures
            r.0 == a,
            r.1@ == b@,
        { (a, String::from_str(b)) };
    let same = |x: &(i32, String), y: &(i32, String)| -> (r: bool)
        ensures
            r == (x.0 == y.0 && x.1@ == y.1@),
        { x.0 == y.0 && x.1 == y.1 };
    let v = triple_verify_by(&f, &same);
    assert(v is Unanimous);
    v.into_winner().unwrap()
}

/// An array of three copies of `a`, computed three times and voted on.
pub fn create_array(a: i32) -> (r: [i32; 3])
    ensures
        r@ == seq![a, a, a],
{
    let f = || -> (r: [i32; 3])
        ensures
            r@ == seq![a, a, a],
        { [a, a, a] };
    let same = |x: &[i32; 3], y: &[i32; 3]| -> (r: bool)
        ensures
            r == (x@ == y@),
        {
            let e = x[0] == y[0] && x[1] == y[1] && x[2] == y[2];
            assert(e ==> x@ =~= y@);
            e
        };
    let v = triple_verify_by(&f, &same);
    assert(v is Unanimous);
    v.into_winner().unwrap()
}

/// The value a counter-driven computation returns on its `n`-th call
/// (counting from zero): one, then two, then three from there on.
pub fn value_for_call(n: usize) -> (r: i32)
    ensures
        r == (if n == 0 {
            1i32
        } else if n == 1 {
            2i32
        } else {
            3i32
        }),
{
    match n {
        0 => 1,
        1 => 2,
        _ => 3,
    }
}

/// Every value that `v` holds lies between one and three.
pub open spec fn holds_only_one_to_three(v: Vote<i32>) -> bool {
    match v {
        Vote::Unanimous(w) => 1 <= w <= 3,
        Vote::Majority(w, _) => 1 <= w <= 3,
        Vote::Divergent(x, y, z) => 1 <= x <= 3 && 1 <= y <= 3 && 1 <= z <= 3,
    }
}

/// The decision table applied to three `i32` results compared with `==`.
pub open spec fn vote_under_eq(r1: i32, r2: i32, r3: i32) -> Vote<i32> {
    vote_of(r1, r2, r3, r1 == r2, r1 == r3, r2 == r3)
}

/// Votes on a computation that reads and increments `counter` on each call
/// and returns `value_for_call` of what it read. The computation depends on
/// shared state, so its three results need not agree: starting from a
/// counter at zero, they are one, two and three.
pub fn different_value(counter: &AtomicUsize) -> (v: Vote<i32>)
    ensures
        holds_only_one_to_three(v),
        exists|r1: i32, r2: i32, r3: i32|
            {
                &&& 1 <= r1 <= 3
                &&& 1 <= r2 <= 3
                &&& 1 <= r3 <= 3
                &&& v == #[trigger] vote_under_eq(r1, r2, r3)
            },
{
    let f = || -> (r: i32)
        ensures
            1 <= r <= 3,
        { value_for_call(counter.fetch_add(1, Ordering::SeqCst)) };
    let v = triple_verify(&f);
    proof {
        let (r1, r2, r3, e12, e13, e23) = choose|r1: i32, r2: i32, r3: i32, e12: bool, e13: bool, e23: bool|
            {
                &&& f.ensures((), r1)
                &&& f.ensures((), r2)
                &&& f.ensures((), r3)
                &&& i32::obeys_eq_spec() ==> {
                    &&& e12 == r1.eq_spec(&r2)
                    &&& e13 == r1.eq_spec(&r3)
                    &&& e23 == r2.eq_spec(&r3)
                }
                &&& v == vote_of(r1, r2, r3, e12, e13, e23)
            };
        assert(v == vote_under_eq(r1, r2, r3));
    }
    v
}

} // verus!
