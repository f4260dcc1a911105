use vstd::prelude::*;
use crate::geom::d2::prim::vect::{Coords, Vect, Vector};

verus! {

/// An axis aligned box given by its corner of smallest and its corner of
/// largest coordinates.
pub struct Bounds<V: Vector> {
    pub min: V,
    pub max: V,
}

impl<V: Vector> Bounds<V> {
    pub fn new_unchecked(min: V, max: V) -> (r: Bounds<V>)
        ensures
            r.min == min,
            r.max == max,
    {
        Bounds { min: min, max: max }
    }
}

/// Anything in the plane that has bounds and can be asked for a point.
pub trait Object: Sized {
    /// the value type of vector
    type Val: Copy;

    /// The two methods return what their `_spec` twins name. An
    /// implementation that does not say so claims nothing.
    open spec fn obeys_object_spec() -> bool {
        false
    }

    /// the corner of smallest and the corner of largest coordinates
    open spec fn bounds_spec(&self) -> (Vect<Self::Val>, Vect<Self::Val>) {
        arbitrary()
    }

    /// the object contains the point
    open spec fn contains_spec(&self, pnt: Vect<Self::Val>) -> bool {
        arbitrary()
    }

    /// bounding axis aligned rectangle of the object
    fn bounds(&self) -> (r: Bounds<Vect<Self::Val>>)
        ensures
            Self::obeys_object_spec() ==> (r.min, r.max) == self.bounds_spec(),
    ;

    /// checks if the object contains point
    fn contains<V: Vector<Val = Self::Val>>(&self, pnt: V) -> (r: bool)
        ensures
            Self::obeys_object_spec() ==> r == self.contains_spec(pnt.xy()),
    ;
}

impl<'a, Obj: Object> Object for &'a Obj {
    type Val = Obj::Val;

    open spec fn obeys_object_spec() -> bool {
        Obj::obeys_object_spec()
    }

    open spec fn bounds_spec(&self) -> (Vect<Obj::Val>, Vect<Obj::Val>) {
        (**self).bounds_spec()
    }

    open spec fn contains_spec(&self, pnt: Vect<Obj::Val>) -> bool {
        (**self).contains_spec(pnt)
    }

    fn bounds(&self) -> Bounds<Vect<Obj::Val>> {
        Obj::bounds(self)
    }

    fn contains<V: Vector<Val = Self::Val>>(&self, pnt: V) -> bool {
        Obj::contains(self, pnt)
    }
}

} // verus!
