use vstd::prelude::*;

verus! {

/// A surface that only gives off light: it emits one constant color
/// wherever it is hit, reflects nothing and sends no further ray.
pub struct EmmittingMaterial<C> {
    emmission: C,
}

impl<C: Copy> EmmittingMaterial<C> {
    /// The color given off.
    pub closed spec fn spec_emmission(&self) -> C {
        self.emmission
    }

    /// A material that gives off `color`.
    pub fn new(color: C) -> (r: Self)
        ensures
            r.spec_emmission() == color,
    {
        EmmittingMaterial { emmission: color }
    }

    /// The light given off at a hit: always the material's color.
    pub fn get_emmission(&self) -> (r: Option<C>)
        ensures
            r == Some(self.spec_emmission()),
    {
        Some(self.emmission)
    }

    /// The share of incoming light reflected: none.
    pub fn get_albedo(&self) -> (r: Option<C>)
        ensures
            r is None,
    {
        None
    }

    /// The ray that continues from a hit: none.
    pub fn get_secondary_ray<R>(&self) -> (r: Option<R>)
        ensures
            r is None,
    {
        None
    }
}

} // verus!
