use vstd::prelude::*;

use crate::util::Color;

verus! {

/// The flat fill of an actor drawn without a texture.
#[derive(Debug, Clone)]
pub struct Material {
    pub color: Color,
}

impl Material {
    /// A material of color `color`.
    pub fn new(color: Color) -> (m: Self)
        ensures
            m.color == color,
    {
        Material { color }
    }
}

impl Default for Material {
    /// The default material is black.
    fn default() -> (m: Self)
        ensures
            m.color == Color(0, 0, 0, 255),
    {
        Material { color: Color::black() }
    }
}

} // verus!
