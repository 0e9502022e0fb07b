//! Textures: a flat colour, looked up by surface coordinates and point.
use crate::fbits::Float;
use crate::vectors::Vec3;
use vstd::prelude::*;

verus! {

#[derive(Clone, Copy, PartialEq, Eq, Structural)]
pub struct ConstantTexture {
    pub color: Vec3,
}

impl ConstantTexture {
    pub fn new(col: Vec3) -> (r: ConstantTexture)
        ensures
            r == (ConstantTexture { color: col }),
    {
        ConstantTexture { color: col }
    }

    /// The colour at the given surface coordinates: the same everywhere.
    pub fn value(&self, u: Float, v: Float, p: &Vec3) -> (r: Vec3)
        ensures
            r == self.color,
    {
        self.color.clone()
    }
}

} // verus!
