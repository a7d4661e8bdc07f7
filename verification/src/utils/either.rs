use vstd::prelude::*;

verus! {

/// A value that is exactly one of two alternatives.
#[derive(Clone, Debug, PartialEq, Eq)]
pub enum Either<L, R> {
    Left(L),
    Right(R),
}

impl<L, R> Either<L, R> {
    /// Borrows the held value: the left alternative as `Ok`, the right one as
    /// `Err`, so that the off-side value is never silently dropped.
    pub fn value(&self) -> (r: Result<&L, &R>)
        ensures
            match *self {
                Either::Left(l) => r == Ok::<&L, &R>(&l),
                Either::Right(x) => r == Err::<&L, &R>(&x),
            },
    {
        match self {
            Either::Left(t) => Ok(t),
            Either::Right(t) => Err(t),
        }
    }
}

impl<T> Either<T, Vec<T>> {
    /// The items of a one-or-many argument: the single item, or the list.
    pub open spec fn items(self) -> Seq<T> {
        match self {
            Either::Left(one) => seq![one],
            Either::Right(many) => many@,
        }
    }

    /// Turns a one-or-many argument into the list of its items.
    pub fn into_vec(self) -> (r: Vec<T>)
        ensures
            r@ == self.items(),
    {
        match self {
            Either::Left(one) => {
                let mut list: Vec<T> = Vec::new();
                list.push(one);
                assert(list@ =~= seq![one]);
                list
            },
            Either::Right(many) => many,
        }
    }
}

} // verus!
