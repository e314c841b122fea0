use vstd::prelude::*;
use vstd::std_specs::cmp::PartialEqSpec;
use crate::vote::{vote_of, Dissenter, Vote};
use crate::wrap::{eq_outcome_of, outcome_of};

verus! {

/// A deterministic computation whose one result is equal to itself is
/// voted unanimous, and the vote hands back exactly that result: wrapping
/// it changes nothing, and no warning is owed.
pub proof fn lemma_deterministic_is_unanimous<T, F: Fn() -> T, E: Fn(&T, &T) -> bool>(
    f: F,
    same: E,
    r: T,
    v: Vote<T>,
)
    requires
        forall|s: T| f.ensures((), s) ==> s == r,
        forall|e: bool| same.ensures((&r, &r), e) ==> e,
        outcome_of(f, same, v),
    ensures
        v == Vote::Unanimous(r),
        v.winner() == Some(r),
        !(v is Majority),
{
}

/// The same law for results compared with their type's own `==`, where
/// that `==` is specified and reflexive on the result.
pub proof fn lemma_deterministic_is_unanimous_eq<T: PartialEq, F: Fn() -> T>(
    f: F,
    r: T,
    v: Vote<T>,
)
    requires
        forall|s: T| f.ensures((), s) ==> s == r,
        T::obeys_eq_spec(),
        r.eq_spec(&r),
        eq_outcome_of(f, v),
    ensures
        v == Vote::Unanimous(r),
        v.winner() == Some(r),
        !(v is Majority),
{
}

/// The value a vote hands back is always one of the three results it was
/// given, never one made up.
pub proof fn lemma_winner_is_observed<T>(
    r1: T,
    r2: T,
    r3: T,
    e12: bool,
    e13: bool,
    e23: bool,
)
    ensures
        vote_of(r1, r2, r3, e12, e13, e23).winner() is Some ==> {
            let w = vote_of(r1, r2, r3, e12, e13, e23).winner()->0;
            w == r1 || w == r2 || w == r3
        },
{
}

/// The value a wrapped computation hands back is a result that the
/// computation itself can return.
pub proof fn lemma_winner_is_a_result<T, F: Fn() -> T, E: Fn(&T, &T) -> bool>(
    f: F,
    same: E,
    v: Vote<T>,
)
    requires
        outcome_of(f, same, v),
    ensures
        v.winner() is Some ==> f.ensures((), v.winner()->0),
{
}

/// When exactly one pair of results is equal, the vote is a majority whose
/// value is taken from that pair and whose dissenter is the third result.
pub proof fn lemma_majority_takes_the_pair<T>(
    r1: T,
    r2: T,
    r3: T,
    e12: bool,
    e13: bool,
    e23: bool,
)
    ensures
        e12 && !e13 && !e23 ==> vote_of(r1, r2, r3, e12, e13, e23) == Vote::Majority(
            r1,
            Dissenter::Third,
        ),
        !e12 && e13 && !e23 ==> vote_of(r1, r2, r3, e12, e13, e23) == Vote::Majority(
            r1,
            Dissenter::Second,
        ),
        !e12 && !e13 && e23 ==> vote_of(r1, r2, r3, e12, e13, e23) == Vote::Majority(
            r2,
            Dissenter::First,
        ),
{
}

/// When no two results are equal the vote is divergent, keeps all three in
/// evaluation order, and hands back no value.
pub proof fn lemma_no_pair_is_divergent<T>(r1: T, r2: T, r3: T, e12: bool, e13: bool, e23: bool)
    requires
        !e12,
        !e13,
        !e23,
    ensures
        vote_of(r1, r2, r3, e12, e13, e23) == Vote::Divergent(r1, r2, r3),
        vote_of(r1, r2, r3, e12, e13, e23).winner() is None,
{
}

/// Wrapping a wrapped deterministic computation once more changes nothing:
/// when `g` returns only votes of three evaluations of `f`, and votes are
/// compared reflexively, the outer vote is unanimous over the inner
/// unanimous vote, and both layers hand back the result of `f`.
pub proof fn lemma_nested_wrap_is_unanimous<
    T,
    F: Fn() -> T,
    E: Fn(&T, &T) -> bool,
    G: Fn() -> Vote<T>,
    D: Fn(&Vote<T>, &Vote<T>) -> bool,
>(f: F, same: E, g: G, same_vote: D, r: T, w: Vote<Vote<T>>)
    requires
        forall|s: T| f.ensures((), s) ==> s == r,
        forall|e: bool| same.ensures((&r, &r), e) ==> e,
        forall|u: Vote<T>| g.ensures((), u) ==> outcome_of(f, same, u),
        forall|e: bool|
            same_vote.ensures((&Vote::Unanimous(r), &Vote::Unanimous(r)), e) ==> e,
        outcome_of(g, same_vote, w),
    ensures
        w == Vote::Unanimous(Vote::Unanimous(r)),
        w.winner() == Some(Vote::Unanimous(r)),
{
    assert forall|u: Vote<T>| g.ensures((), u) implies u == Vote::Unanimous(r) by {
        lemma_deterministic_is_unanimous(f, same, r, u);
    }
}

/// Wrapping a wrapped deterministic computation once more with
/// `triple_verify` changes nothing: when `g` returns only what
/// `triple_verify` returns on `f`, and `T`'s own `==` is specified and
/// reflexive on the result of `f`, the outer vote is unanimous over the
/// inner unanimous vote, and both layers hand back the result of `f`.
pub proof fn lemma_nested_triple_verify_is_unanimous<T: PartialEq, F: Fn() -> T, G: Fn() -> Vote<T>>(
    f: F,
    g: G,
    r: T,
    w: Vote<Vote<T>>,
)
    requires
        forall|s: T| f.ensures((), s) ==> s == r,
        T::obeys_eq_spec(),
        r.eq_spec(&r),
        forall|u: Vote<T>| g.ensures((), u) ==> eq_outcome_of(f, u),
        eq_outcome_of(g, w),
    ensures
        w == Vote::Unanimous(Vote::Unanimous(r)),
        w.winner() == Some(Vote::Unanimous(r)),
        !(w is Majority),
{
    assert forall|u: Vote<T>| g.ensures((), u) implies u == Vote::Unanimous(r) by {
        lemma_deterministic_is_unanimous_eq(f, r, u);
    }
    assert(Vote::<T>::obeys_eq_spec());
    assert(Vote::Unanimous(r).eq_spec(&Vote::Unanimous(r)));
}

} // verus!
