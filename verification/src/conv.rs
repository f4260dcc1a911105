use vstd::prelude::*;

verus! {

/// trait for conversion from A to Self
///
/// A conversion is a function of its argument: the same argument gives the
/// same result.
pub trait Of<A>: Sized {
    /// the value that `of` makes of `a`
    open spec fn of_spec(a: A) -> Self {
        arbitrary()
    }

    fn of(a: A) -> (r: Self)
        ensures
            r == Self::of_spec(a),
    ;
}

/// trait for conversion from Self to A - inverse of "Of" trait if implemented
pub trait To<A>: Sized {
    /// the value that `to` makes of `self`
    open spec fn to_spec(self) -> A {
        arbitrary()
    }

    fn to(self) -> (r: A)
        ensures
            r == self.to_spec(),
    ;
}

/// trait for a conversion that may lose information
pub trait Cast<A>: Sized {
    /// the value that `cast` makes of `self`
    open spec fn cast_spec(self) -> A {
        arbitrary()
    }

    fn cast(self) -> (r: A)
        ensures
            r == self.cast_spec(),
    ;
}

/// trait for easy / fast conversions
pub trait Easy<A>: Sized {
    /// the value that `easy` makes of `self`
    open spec fn easy_spec(self) -> A {
        arbitrary()
    }

    /// easy / fast conversion
    fn easy(self) -> (r: A)
        ensures
            r == self.easy_spec(),
    ;
}

impl<A, B: Of<A>> To<B> for A {
    open spec fn to_spec(self) -> B {
        B::of_spec(self)
    }

    fn to(self) -> B {
        B::of(self)
    }
}

impl<A> Cast<A> for A {
    open spec fn cast_spec(self) -> A {
        self
    }

    fn cast(self) -> A {
        self
    }
}

} // verus!
