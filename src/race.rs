use vstd::prelude::*;

verus! {

/// Which branch of a two-way race finished.
#[derive(Clone, Copy, Debug, PartialEq, Eq, Structural)]
pub enum Either<A, B> {
    First(A),
    Second(B),
}

/// Resolves a two-way race from what each branch has ready: the first
/// branch is checked first and wins a tie; with neither ready the race goes on.
pub fn select<A, B>(first: Option<A>, second: Option<B>) -> (r: Option<Either<A, B>>)
    ensures
        r == select_spec(first, second),
{
    match first {
        Some(a) => Some(Either::First(a)),
        None => match second {
            Some(b) => Some(Either::Second(b)),
            None => None,
        },
    }
}

pub open spec fn select_spec<A, B>(first: Option<A>, second: Option<B>) -> Option<Either<A, B>> {
    match first {
        Some(a) => Some(Either::First(a)),
        None => match second {
            Some(b) => Some(Either::Second(b)),
            None => None,
        },
    }
}

} // verus!
