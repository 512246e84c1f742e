use vstd::prelude::*;

verus! {

/// A value carried through a chain of updates, each of which is applied only when
/// its input is present.
pub struct Wrapper<T>(pub T);

impl<T> Wrapper<T> {
    /// Applies `f` to the carried value and `value` when `value` is present;
    /// otherwise returns `self` unchanged.
    pub fn apply<U>(self, value: Option<U>, f: impl FnOnce(T, U) -> T) -> (r: Self)
        requires
            match value {
                Some(v) => f.requires((self.0, v)),
                None => true,
            },
        ensures
            match value {
                Some(v) => f.ensures((self.0, v), r.0),
                None => r == self,
            },
    {
        if let Some(value) = value {
            Wrapper(f(self.0, value))
        } else {
            self
        }
    }

    /// Like `apply`, for an update that takes its input as an `Option`: a present
    /// value is handed on as `Some`, and an absent one leaves `self` unchanged.
    pub fn flat_apply<U>(self, value: Option<U>, f: impl FnOnce(T, Option<U>) -> T) -> (r: Self)
        requires
            match value {
                Some(v) => f.requires((self.0, Some(v))),
                None => true,
            },
        ensures
            match value {
                Some(v) => f.ensures((self.0, Some(v)), r.0),
                None => r == self,
            },
    {
        let g = move |obj: T, v: U| -> (out: T)
            requires
                f.requires((obj, Some(v))),
            ensures
                f.ensures((obj, Some(v)), out),
        {
            f(obj, Some(v))
        };
        self.apply(value, g)
    }
}

} // verus!
