//! Point light sources.

use vstd::prelude::*;
use crate::color::Color;
use crate::tuple::Tuple;

verus! {

#[derive(Clone, Copy, Debug, PartialEq, Eq, Structural)]
pub struct PointLight {
    pub intensity: Color,
    pub position: Tuple,
}

impl PointLight {
    pub open spec fn wf_s(self) -> bool {
        self.position.is_point_s()
    }

    pub fn new(position: Tuple, intensity: Color) -> (r: PointLight)
        requires
            position.is_point_s(),
        ensures
            r == (PointLight { intensity, position }),
            r.wf_s(),
    {
        PointLight { intensity, position }
    }
}

} // verus!
