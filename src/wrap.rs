use vstd::prelude::*;
use vstd::std_specs::cmp::PartialEqSpec;
use crate::vote::{vote_by, vote_of, Vote};

verus! {

/// `v` is a vote that three evaluations of `f`, compared under `same`, can
/// produce: each `r` is a result `f` may return, and each `e` a verdict
/// `same` may give on that pair.
pub open spec fn outcome_of<T, F: Fn() -> T, E: Fn(&T, &T) -> bool>(
    f: F,
    same: E,
    v: Vote<T>,
) -> bool {
    exists|r1: T, r2: T, r3: T, e12: bool, e13: bool, e23: bool|
        {
            &&& f.ensures((), r1)
            &&& f.ensures((), r2)
            &&& f.ensures((), r3)
            &&& same.ensures((&r1, &r2), e12)
            &&& same.ensures((&r1, &r3), e13)
            &&& same.ensures((&r2, &r3), e23)
            &&& v == vote_of(r1, r2, r3, e12, e13, e23)
        }
}

/// Runs `f` three times in sequence and votes on the results under `same`.
/// The closure is the binder: whatever it captures is handed unchanged to
/// each of the three evaluations.
pub fn triple_verify_by<T, F: Fn() -> T, E: Fn(&T, &T) -> bool>(f: &F, same: &E) -> (v: Vote<T>)
    requires
        f.requires(()),
        forall|a: &T, b: &T| #[trigger] same.requires((a, b)),
    ensures
        outcome_of(*f, *same, v),
{
    let r1 = f();
    let r2 = f();
    let r3 = f();
    vote_by(r1, r2, r3, same)
}

/// `v` is a vote that three evaluations of `f` can produce when the
/// results are compared with their type's own `==`. Where that `==` is
/// specified (`obeys_eq_spec`), each comparison is its `eq_spec`.
pub open spec fn eq_outcome_of<T: PartialEq, F: Fn() -> T>(f: F, v: Vote<T>) -> bool {
    exists|r1: T, r2: T, r3: T, e12: bool, e13: bool, e23: bool|
        {
            &&& f.ensures((), r1)
            &&& f.ensures((), r2)
            &&& f.ensures((), r3)
            &&& T::obeys_eq_spec() ==> {
                &&& e12 == r1.eq_spec(&r2)
                &&& e13 == r1.eq_spec(&r3)
                &&& e23 == r2.eq_spec(&r3)
            }
            &&& v == vote_of(r1, r2, r3, e12, e13, e23)
        }
}

/// Runs `f` three times in sequence and votes on the results, compared
/// with their type's own `==`.
pub fn triple_verify<T: PartialEq, F: Fn() -> T>(f: &F) -> (v: Vote<T>)
    requires
        f.requires(()),
    ensures
        eq_outcome_of(*f, v),
{
    let same = |a: &T, b: &T| -> (r: bool)
        ensures
            T::obeys_eq_spec() ==> r == a.eq_spec(b),
        { a.eq(b) };
    triple_verify_by(f, &same)
}

} // verus!
