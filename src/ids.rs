use vstd::prelude::*;

verus! {

/// Handle of a point definition.
#[derive(Clone, Copy, PartialEq, Eq, Debug, Hash, Structural)]
pub struct PointID(pub u64);

/// Handle of a shape definition. Point and shape handles live in separate
/// namespaces: the same number may name one of each.
#[derive(Clone, Copy, PartialEq, Eq, Debug, Hash, Structural)]
pub struct ShapeID(pub u64);

impl PointID {
    /// The raw number behind the handle.
    pub fn value(&self) -> (r: u64)
        ensures
            r == self.0,
    {
        self.0
    }
}

impl ShapeID {
    /// The raw number behind the handle.
    pub fn value(&self) -> (r: u64)
        ensures
            r == self.0,
    {
        self.0
    }
}

} // verus!
