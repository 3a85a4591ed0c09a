//! The outcome of an operation that may fail, as the crate's own core library declares it.

use vstd::prelude::*;

verus! {

/// A value, or the error that took its place.
#[derive(Debug, Clone, Copy, PartialEq, Eq)]
pub enum Result<T, E> {
    Success(T),
    Failure(E),
}

impl<T, E> Result<T, E> {
    /// `other` if `self` succeeded, else `self`'s error.
    pub fn and<U>(self, other: Result<U, E>) -> (r: Result<U, E>)
        ensures
            r == (match self {
                Result::Success(_) => other,
                Result::Failure(e) => Result::Failure(e),
            }),
    {
        match self {
            Result::Success(_) => other,
            Result::Failure(err) => Result::Failure(err),
        }
    }

    /// `f` of the value, if `self` succeeded.
    pub fn and_then<U, F: FnOnce(T) -> Result<U, E>>(self, f: F) -> (r: Result<U, E>)
        requires
            self matches Result::Success(v) ==> f.requires((v,)),
        ensures
            match self {
                Result::Success(v) => f.ensures((v,), r),
                Result::Failure(e) => r == Result::<U, E>::Failure(e),
            },
    {
        match self {
            Result::Success(value) => f(value),
            Result::Failure(err) => Result::Failure(err),
        }
    }

    /// `self` if it succeeded, else `other`.
    pub fn or(self, other: Self) -> (r: Self)
        ensures
            r == (if self is Success {
                self
            } else {
                other
            }),
    {
        match self {
            Result::Success(value) => Result::Success(value),
            Result::Failure(_) => other,
        }
    }

    /// `self` if it succeeded, else what `f` makes of the error.
    pub fn or_else<F: FnOnce(E) -> Result<T, E>>(self, f: F) -> (r: Self)
        requires
            self matches Result::Failure(e) ==> f.requires((e,)),
        ensures
            match self {
                Result::Success(v) => r == Result::<T, E>::Success(v),
                Result::Failure(e) => f.ensures((e,), r),
            },
    {
        match self {
            Result::Success(value) => Result::Success(value),
            Result::Failure(err) => f(err),
        }
    }

    /// The value transformed by `f`, the error kept.
    pub fn map<U, F: FnOnce(T) -> U>(self, f: F) -> (r: Result<U, E>)
        requires
            self matches Result::Success(v) ==> f.requires((v,)),
        ensures
            match self {
                Result::Success(v) => r matches Result::Success(u) && f.ensures((v,), u),
                Result::Failure(e) => r == Result::<U, E>::Failure(e),
            },
    {
        match self {
            Result::Success(value) => Result::Success(f(value)),
            Result::Failure(err) => Result::Failure(err),
        }
    }

    /// The error transformed by `f`, the value kept.
    pub fn map_err<U, F: FnOnce(E) -> U>(self, f: F) -> (r: Result<T, U>)
        requires
            self matches Result::Failure(e) ==> f.requires((e,)),
        ensures
            match self {
                Result::Success(v) => r == Result::<T, U>::Success(v),
                Result::Failure(e) => r matches Result::Failure(u) && f.ensures((e,), u),
            },
    {
        match self {
            Result::Success(value) => Result::Success(value),
            Result::Failure(err) => Result::Failure(f(err)),
        }
    }

    /// References to the value or to the error.
    pub fn as_ref(&self) -> (r: Result<&T, &E>)
        ensures
            match *self {
                Result::Success(v) => r matches Result::Success(x) && *x == v,
                Result::Failure(e) => r matches Result::Failure(x) && *x == e,
            },
    {
        match self {
            Result::Success(value) => Result::Success(value),
            Result::Failure(err) => Result::Failure(err),
        }
    }

    /// The value, or `otherwise`.
    pub fn unwrap_or(self, otherwise: T) -> (r: T)
        ensures
            r == (match self {
                Result::Success(v) => v,
                Result::Failure(_) => otherwise,
            }),
    {
        match self {
            Result::Success(value) => value,
            Result::Failure(_) => otherwise,
        }
    }

    /// The value, or the default of its type.
    pub fn unwrap_or_default(self) -> (r: T) where T: Default
        ensures
            match self {
                Result::Success(v) => r == v,
                Result::Failure(_) => call_ensures(T::default, (), r),
            },
    {
        match self {
            Result::Success(value) => value,
            Result::Failure(_) => T::default(),
        }
    }

    /// The error, or `otherwise`.
    pub fn unwrap_err(self, otherwise: E) -> (r: E)
        ensures
            r == (match self {
                Result::Success(_) => otherwise,
                Result::Failure(e) => e,
            }),
    {
        match self {
            Result::Success(_) => otherwise,
            Result::Failure(err) => err,
        }
    }

    /// The error, or the default of its type.
    pub fn unwrap_err_default(self) -> (r: E) where E: Default
        ensures
            match self {
                Result::Success(_) => call_ensures(E::default, (), r),
                Result::Failure(e) => r == e,
            },
    {
        match self {
            Result::Success(_) => E::default(),
            Result::Failure(err) => err,
        }
    }

    /// The value, or what `f` makes of the error.
    pub fn unwrap_or_else<F: FnOnce(E) -> T>(self, f: F) -> (r: T)
        requires
            self matches Result::Failure(e) ==> f.requires((e,)),
        ensures
            match self {
                Result::Success(v) => r == v,
                Result::Failure(e) => f.ensures((e,), r),
            },
    {
        match self {
            Result::Success(value) => value,
            Result::Failure(err) => f(err),
        }
    }

    pub fn is_ok(&self) -> (r: bool)
        ensures
            r == (*self is Success),
    {
        match self {
            Result::Success(_) => true,
            Result::Failure(_) => false,
        }
    }

    /// Whether `self` succeeded and `f` accepts the value.
    pub fn is_ok_and<F: FnOnce(T) -> bool>(self, f: F) -> (r: bool)
        requires
            self matches Result::Success(v) ==> f.requires((v,)),
        ensures
            match self {
                Result::Success(v) => f.ensures((v,), r),
                Result::Failure(_) => !r,
            },
    {
        match self {
            Result::Success(value) => f(value),
            Result::Failure(_) => false,
        }
    }

    pub fn is_err(&self) -> (r: bool)
        ensures
            r == (*self is Failure),
    {
        !self.is_ok()
    }

    /// Whether `self` failed and `f` accepts the error.
    pub fn is_err_and<F: FnOnce(E) -> bool>(self, f: F) -> (r: bool)
        requires
            self matches Result::Failure(e) ==> f.requires((e,)),
        ensures
            match self {
                Result::Success(_) => !r,
                Result::Failure(e) => f.ensures((e,), r),
            },
    {
        match self {
            Result::Success(_) => false,
            Result::Failure(err) => f(err),
        }
    }
}

impl<T: Clone, E: Clone> Result<&T, &E> {
    /// Clones of the referenced value or error.
    pub fn cloned(self) -> (r: Result<T, E>)
        ensures
            match self {
                Result::Success(x) => r matches Result::Success(c) && call_ensures(T::clone, (x,), c),
                Result::Failure(x) => r matches Result::Failure(c) && call_ensures(E::clone, (x,), c),
            },
    {
        match self {
            Result::Success(value) => Result::Success(value.clone()),
            Result::Failure(err) => Result::Failure(err.clone()),
        }
    }
}

impl<T: Copy, E: Copy> Result<&T, &E> {
    /// Copies of the referenced value or error.
    pub fn copied(self) -> (r: Result<T, E>)
        ensures
            match self {
                Result::Success(x) => r == Result::<T, E>::Success(*x),
                Result::Failure(x) => r == Result::<T, E>::Failure(*x),
            },
    {
        match self {
            Result::Success(value) => Result::Success(*value),
            Result::Failure(err) => Result::Failure(*err),
        }
    }
}

impl<T, E> Result<Result<T, E>, E> {
    /// The inner result, or the outer error.
    pub fn flatten(self) -> (r: Result<T, E>)
        ensures
            r == (match self {
                Result::Success(inner) => inner,
                Result::Failure(e) => Result::Failure(e),
            }),
    {
        match self {
            Result::Success(inner) => inner,
            Result::Failure(err) => Result::Failure(err),
        }
    }
}

} // verus!
