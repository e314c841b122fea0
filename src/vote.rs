use vstd::prelude::*;
use vstd::std_specs::cmp::PartialEqSpec;

verus! {

/// Which of the three evaluations disagreed with the other two.
#[derive(PartialEq, Eq, Structural, Debug, Clone, Copy)]
pub enum Dissenter {
    First,
    Second,
    Third,
}

/// The classification of three results of one computation.
#[derive(Debug, Clone)]
pub enum Vote<T> {
    /// All three results agree; holds the first.
    Unanimous(T),
    /// Two results agree and one differs; holds a result of the agreeing pair.
    Majority(T, Dissenter),
    /// No two results agree; holds all three, in evaluation order.
    Divergent(T, T, T),
}

/// Two votes are equal when they are of the same kind and their results
/// are equal under `T`'s own `==`, slot by slot.
impl<T: PartialEq> PartialEq for Vote<T> {
    fn eq(&self, o: &Vote<T>) -> (r: bool) {
        match (self, o) {
            (Vote::Unanimous(a), Vote::Unanimous(b)) => a.eq(b),
            (Vote::Majority(a, d), Vote::Majority(b, e)) => a.eq(b) && *d == *e,
            (Vote::Divergent(a1, a2, a3), Vote::Divergent(b1, b2, b3)) => a1.eq(b1) && a2.eq(b2)
                && a3.eq(b3),
            _ => false,
        }
    }
}

impl<T: PartialEq> vstd::std_specs::cmp::PartialEqSpecImpl for Vote<T> {
    open spec fn obeys_eq_spec() -> bool {
        T::obeys_eq_spec()
    }

    open spec fn eq_spec(&self, o: &Vote<T>) -> bool {
        match (*self, *o) {
            (Vote::Unanimous(a), Vote::Unanimous(b)) => a.eq_spec(&b),
            (Vote::Majority(a, d), Vote::Majority(b, e)) => a.eq_spec(&b) && d == e,
            (Vote::Divergent(a1, a2, a3), Vote::Divergent(b1, b2, b3)) => a1.eq_spec(&b1)
                && a2.eq_spec(&b2) && a3.eq_spec(&b3),
            _ => false,
        }
    }
}

impl<T: Eq> Eq for Vote<T> {
}

/// The decision table, given the results and the outcome of comparing
/// each pair of them (`e12` for the first and second, and so on).
pub open spec fn vote_of<T>(r1: T, r2: T, r3: T, e12: bool, e13: bool, e23: bool) -> Vote<T> {
    if e12 && e23 {
        Vote::Unanimous(r1)
    } else if e12 {
        Vote::Majority(r1, Dissenter::Third)
    } else if e13 {
        Vote::Majority(r1, Dissenter::Second)
    } else if e23 {
        Vote::Majority(r2, Dissenter::First)
    } else {
        Vote::Divergent(r1, r2, r3)
    }
}

impl<T> Vote<T> {
    /// The value a vote hands back to the caller, if any.
    pub open spec fn winner(self) -> Option<T> {
        match self {
            Vote::Unanimous(w) => Some(w),
            Vote::Majority(w, _) => Some(w),
            Vote::Divergent(_, _, _) => None,
        }
    }

    /// Takes the winning value out of the vote; `None` when all three differ.
    pub fn into_winner(self) -> (r: Option<T>)
        ensures
            r == self.winner(),
    {
        match self {
            Vote::Unanimous(w) => Some(w),
            Vote::Majority(w, _) => Some(w),
            Vote::Divergent(_, _, _) => None,
        }
    }
}

/// Votes over three results under the equality relation `same`. Each pair
/// is compared exactly once: first with second, first with third, second
/// with third.
pub fn vote_by<T, E: Fn(&T, &T) -> bool>(r1: T, r2: T, r3: T, same: &E) -> (v: Vote<T>)
    requires
        forall|a: &T, b: &T| #[trigger] same.requires((a, b)),
    ensures
        exists|e12: bool, e13: bool, e23: bool|
            {
                &&& same.ensures((&r1, &r2), e12)
                &&& same.ensures((&r1, &r3), e13)
                &&& same.ensures((&r2, &r3), e23)
                &&& v == vote_of(r1, r2, r3, e12, e13, e23)
            },
{
    let e12 = same(&r1, &r2);
    let e13 = same(&r1, &r3);
    let e23 = same(&r2, &r3);
    let v = if e12 && e23 {
        Vote::Unanimous(r1)
    } else if e12 {
        Vote::Majority(r1, Dissenter::Third)
    } else if e13 {
        Vote::Majority(r1, Dissenter::Second)
    } else if e23 {
        Vote::Majority(r2, Dissenter::First)
    } else {
        Vote::Divergent(r1, r2, r3)
    };
    assert(v == vote_of(r1, r2, r3, e12, e13, e23));
    v
}

} // verus!
