use vstd::prelude::*;

verus! {

/// A point of the colour volume in cylindrical form: the angle is the hue, the
/// radius the saturation and the height the value.
#[derive(Clone, Copy, Debug, PartialEq)]
pub struct Cylindrical<T> {
    pub angle: T,
    pub radius: T,
    pub height: T,
}

impl<T: Copy> Cylindrical<T> {
    /// Builds a coordinate from its three components.
    pub fn new(angle: T, radius: T, height: T) -> (r: Self)
        ensures
            r == (Cylindrical { angle, radius, height }),
    {
        Cylindrical { angle, radius, height }
    }
}

} // verus!
