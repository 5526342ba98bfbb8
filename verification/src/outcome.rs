//! Results by what they hold, and the first of several problems.
use vstd::prelude::*;

verus! {

/// A result by the contents of its value or error.
pub open spec fn of<T: DeepView, E: DeepView>(r: Result<T, E>) -> Result<T::V, E::V> {
    match r {
        Ok(value) => Ok(value.deep_view()),
        Err(error) => Err(error.deep_view()),
    }
}

/// A check by its problem, where it found one.
pub open spec fn problem<E: DeepView>(r: Result<(), E>) -> Option<E::V> {
    match r {
        Ok(()) => None,
        Err(error) => Some(error.deep_view()),
    }
}

/// A value, unless there is a problem.
pub open spec fn checked<T, E>(problem: Option<E>, value: T) -> Result<T, E> {
    match problem {
        Some(error) => Err(error),
        None => Ok(value),
    }
}

/// The first of two problems.
pub open spec fn first_of<E>(a: Option<E>, b: Option<E>) -> Option<E> {
    if a is Some {
        a
    } else {
        b
    }
}

/// The problem of a result that is an error.
pub open spec fn err_of<T, E>(r: Result<T, E>) -> Option<E> {
    match r {
        Ok(_) => None,
        Err(error) => Some(error),
    }
}

/// The first problem in a sequence, from a position on.
pub open spec fn first_problem<E>(problems: Seq<Option<E>>, from: int) -> Option<E>
    decreases problems.len() - from,
{
    if from < 0 || from >= problems.len() {
        None
    } else if problems[from] is Some {
        problems[from]
    } else {
        first_problem(problems, from + 1)
    }
}

/// Up to a position without a problem before it, the first problem of the whole
/// is the first from there.
pub proof fn lemma_first_problem<E>(problems: Seq<Option<E>>, from: int, to: int)
    requires
        0 <= from <= to <= problems.len(),
        forall|i: int| from <= i < to ==> (#[trigger] problems[i]) is None,
    ensures
        first_problem(problems, from) == first_problem(problems, to),
    decreases to - from,
{
    if from < to {
        assert(problems[from] is None);
        lemma_first_problem(problems, from + 1, to);
    }
}

/// There is no first problem if and only if there is none at all.
pub proof fn lemma_no_first_problem<E>(problems: Seq<Option<E>>, from: int)
    requires
        0 <= from <= problems.len(),
    ensures
        first_problem(problems, from) is None <==> forall|i: int|
            from <= i < problems.len() ==> (#[trigger] problems[i]) is None,
    decreases problems.len() - from,
{
    if from < problems.len() {
        lemma_no_first_problem(problems, from + 1);
        if problems[from] is None && first_problem(problems, from + 1) is None {
            assert forall|i: int| from <= i < problems.len() implies (
            #[trigger] problems[i]) is None by {
                if i > from {
                    assert(from + 1 <= i);
                }
            }
        }
    }
}

} // verus!
