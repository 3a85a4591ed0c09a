//! An optional value, as the crate's own core library declares it.

use vstd::prelude::*;

verus! {

/// A value that may be absent.
#[derive(Debug, Clone, Copy, PartialEq, Eq)]
pub enum Option<T> {
    Present(T),
    Absent,
}

impl<T> Option<T> {
    /// `other` if `self` holds a value, else nothing.
    pub fn and<U>(self, other: Option<U>) -> (r: Option<U>)
        ensures
            r == (if self is Present {
                other
            } else {
                Option::Absent
            }),
    {
        match self {
            Option::Present(_) => other,
            Option::Absent => Option::Absent,
        }
    }

    /// `f` of the value, if there is one.
    pub fn and_then<U, F: FnOnce(T) -> Option<U>>(self, f: F) -> (r: Option<U>)
        requires
            self matches Option::Present(v) ==> f.requires((v,)),
        ensures
            match self {
                Option::Present(v) => f.ensures((v,), r),
                Option::Absent => r is Absent,
            },
    {
        match self {
            Option::Present(value) => f(value),
            Option::Absent => Option::Absent,
        }
    }

    /// `self` if it holds a value, else `other`.
    pub fn or(self, other: Self) -> (r: Self)
        ensures
            r == (if self is Present {
                self
            } else {
                other
            }),
    {
        match self {
            Option::Present(value) => Option::Present(value),
            Option::Absent => other,
        }
    }

    /// `self` if it holds a value, else what `f` returns.
    pub fn or_else<F: FnOnce() -> Option<T>>(self, f: F) -> (r: Self)
        requires
            self is Absent ==> f.requires(()),
        ensures
            match self {
                Option::Present(v) => r == Option::Present(v),
                Option::Absent => f.ensures((), r),
            },
    {
        match self {
            Option::Present(value) => Option::Present(value),
            Option::Absent => f(),
        }
    }

    /// The value of whichever of the two holds one, if exactly one does.
    pub fn xor(self, other: Self) -> (r: Self)
        ensures
            r == (match (self, other) {
                (Option::Present(v), Option::Absent) => Option::Present(v),
                (Option::Absent, Option::Present(v)) => Option::Present(v),
                _ => Option::Absent,
            }),
    {
        match (self, other) {
            (Option::Present(value), Option::Absent) => Option::Present(value),
            (Option::Absent, Option::Present(value)) => Option::Present(value),
            _ => Option::Absent,
        }
    }

    /// The value transformed by `f`, if there is one.
    pub fn map<U, F: FnOnce(T) -> U>(self, f: F) -> (r: Option<U>)
        requires
            self matches Option::Present(v) ==> f.requires((v,)),
        ensures
            match self {
                Option::Present(v) => r matches Option::Present(u) && f.ensures((v,), u),
                Option::Absent => r is Absent,
            },
    {
        match self {
            Option::Present(value) => Option::Present(f(value)),
            Option::Absent => Option::Absent,
        }
    }

    /// The value, if there is one and `f` accepts it.
    pub fn filter<P: FnOnce(&T) -> bool>(self, f: P) -> (r: Self)
        requires
            self matches Option::Present(v) ==> f.requires((&v,)),
        ensures
            match self {
                Option::Present(v) => (r == self && f.ensures((&v,), true)) || (r is Absent
                    && f.ensures((&v,), false)),
                Option::Absent => r is Absent,
            },
    {
        match self {
            Option::Present(value) => {
                if f(&value) {
                    Option::Present(value)
                } else {
                    Option::Absent
                }
            },
            Option::Absent => Option::Absent,
        }
    }

    /// A reference to the value, if there is one.
    pub fn as_ref(&self) -> (r: Option<&T>)
        ensures
            match *self {
                Option::Present(v) => r matches Option::Present(x) && *x == v,
                Option::Absent => r is Absent,
            },
    {
        match self {
            Option::Present(value) => Option::Present(value),
            Option::Absent => Option::Absent,
        }
    }

    /// The value; there must be one.
    pub fn unwrap(self) -> (r: T)
        requires
            self is Present,
        ensures
            self == Option::Present(r),
    {
        match self {
            Option::Present(value) => value,
            Option::Absent => unreached(),
        }
    }

    /// The value, or `otherwise`.
    pub fn unwrap_or(self, otherwise: T) -> (r: T)
        ensures
            r == (match self {
                Option::Present(v) => v,
                Option::Absent => otherwise,
            }),
    {
        match self {
            Option::Present(value) => value,
            Option::Absent => otherwise,
        }
    }

    /// The value, or the default of its type.
    pub fn unwrap_or_default(self) -> (r: T) where T: Default
        ensures
            match self {
                Option::Present(v) => r == v,
                Option::Absent => call_ensures(T::default, (), r),
            },
    {
        match self {
            Option::Present(value) => value,
            Option::Absent => T::default(),
        }
    }

    /// The value, or what `f` returns.
    pub fn unwrap_or_else<F: FnOnce() -> T>(self, f: F) -> (r: T)
        requires
            self is Absent ==> f.requires(()),
        ensures
            match self {
                Option::Present(v) => r == v,
                Option::Absent => f.ensures((), r),
            },
    {
        match self {
            Option::Present(value) => value,
            Option::Absent => f(),
        }
    }

    pub fn is_some(&self) -> (r: bool)
        ensures
            r == (*self is Present),
    {
        match self {
            Option::Present(_) => true,
            Option::Absent => false,
        }
    }

    /// Whether there is a value and `f` accepts it.
    pub fn is_some_and<F: FnOnce(T) -> bool>(self, f: F) -> (r: bool)
        requires
            self matches Option::Present(v) ==> f.requires((v,)),
        ensures
            match self {
                Option::Present(v) => f.ensures((v,), r),
                Option::Absent => !r,
            },
    {
        match self {
            Option::Present(value) => f(value),
            Option::Absent => false,
        }
    }

    pub fn is_none(&self) -> (r: bool)
        ensures
            r == (*self is Absent),
    {
        !self.is_some()
    }
}

impl<T: Clone> Option<&T> {
    /// A clone of the referenced value, if there is one.
    pub fn cloned(self) -> (r: Option<T>)
        ensures
            match self {
                Option::Present(x) => r matches Option::Present(c) && call_ensures(T::clone, (x,), c),
                Option::Absent => r is Absent,
            },
    {
        match self {
            Option::Present(value) => Option::Present(value.clone()),
            Option::Absent => Option::Absent,
        }
    }
}

impl<T: Copy> Option<&T> {
    /// A copy of the referenced value, if there is one.
    pub fn copied(self) -> (r: Option<T>)
        ensures
            match self {
                Option::Present(x) => r == Option::Present(*x),
                Option::Absent => r is Absent,
            },
    {
        match self {
            Option::Present(value) => Option::Present(*value),
            Option::Absent => Option::Absent,
        }
    }
}

impl<T> Option<Option<T>> {
    /// The inner option, or nothing.
    pub fn flatten(self) -> (r: Option<T>)
        ensures
            r == (match self {
                Option::Present(inner) => inner,
                Option::Absent => Option::Absent,
            }),
    {
        match self {
            Option::Present(inner) => inner,
            Option::Absent => Option::Absent,
        }
    }
}

} // verus!
