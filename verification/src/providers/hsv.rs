//! The HSV color space, sliced by hue: the bar chart spreads saturation and
//! value.

use vstd::prelude::*;
use crate::mesh::grid_cells;
use crate::parameter::ParameterState;
use crate::pixels::{PixelGrid, SpaceCoordinate};
use crate::providers::generic::{CSpaceProvider, Provider, SliceMaterial};
use crate::providers::histgen::inspect_pixel;
use crate::quantize::{axis_of, Axis};

verus! {

/// The step of the hue slice: two degrees.
pub const HSV_DELTA: i64 = 2_000;

/// The extent of the saturation and value axes: a hundred percent.
pub const HSV_SV_MAX: i64 = 100_000;

/// The step of the saturation and value axes: two percent.
pub const HSV_SV_DELTA: i64 = 2_000;

/// The HSV color space with its hue slice.
pub struct HsvProvider {
    state: ParameterState,
    changed: bool,
}

impl HsvProvider {
    #[verifier::type_invariant]
    spec fn inv(self) -> bool {
        &&& self.state@.wf()
        &&& self.state@.min == 0
        &&& self.state@.max == 360_000
        &&& self.state@.delta == 2_000
    }

    /// The provider for a newly loaded image: the slice stands at the upper
    /// bound, and is marked as changed so that everything is drawn once.
    pub fn new() -> (p: Self)
        ensures
            p.slice() == 360_000,
            p.changed(),
    {
        match ParameterState::new(0, 360_000, 2_000) {
            Some(state) => HsvProvider { state, changed: true },
            None => vstd::pervasive::unreached(),
        }
    }
}

impl Provider for HsvProvider {
    const MAX: i64 = 360_000;

    const MIN: i64 = 0;

    const DELTA: i64 = HSV_DELTA;

    const X_MAX: i64 = HSV_SV_MAX;

    const X_DELTA: i64 = HSV_SV_DELTA;

    const Z_MAX: i64 = HSV_SV_MAX;

    const Z_DELTA: i64 = HSV_SV_DELTA;

    /// The values of the constants of the HSV space, the 180 bins of
    /// its slice axis and the 2500 cells of its bar chart.
    proof fn lemma_constants()
        ensures
            Self::MAX == 360_000,
            Self::MIN == 0,
            Self::DELTA == 2_000,
            Self::X_MAX == 100_000,
            Self::X_DELTA == 2_000,
            Self::Z_MAX == 100_000,
            Self::Z_DELTA == 2_000,
            axis_of(Self::MAX, Self::DELTA).cells_spec() == 180,
            grid_cells(axis_of(Self::X_MAX, Self::X_DELTA), axis_of(Self::Z_MAX, Self::Z_DELTA))
                == 2_500,
    {
        assert(Self::MAX == 360_000 && Self::MIN == 0 && Self::DELTA == 2_000);
        assert(Self::X_MAX == 100_000 && Self::X_DELTA == 2_000);
        assert(Self::Z_MAX == 100_000 && Self::Z_DELTA == 2_000);
        assert(axis_of(100_000, 2_000).cells_spec() == 50);
        assert(axis_of(100_000, 2_000).cells_spec() == 50);
    }

    closed spec fn slice(&self) -> int {
        self.state@.current
    }

    closed spec fn changed(&self) -> bool {
        self.changed
    }

    fn incr(&mut self, change: i64) {
        proof {
            use_type_invariant(&*self);
            Self::lemma_constants();
        }
        let mut state = self.state;
        state.increment(change);
        self.state = state;
        self.changed = true;
    }

    fn decr(&mut self, change: i64) {
        proof {
            use_type_invariant(&*self);
            Self::lemma_constants();
        }
        let mut state = self.state;
        state.decrement(change);
        self.state = state;
        self.changed = true;
    }

    fn set(&mut self, new: i64) {
        proof {
            use_type_invariant(&*self);
            Self::lemma_constants();
        }
        let mut state = self.state;
        state.set_fraction(new);
        self.state = state;
        self.changed = true;
    }

    fn current(&self) -> (v: i64) {
        proof {
            use_type_invariant(self);
            Self::lemma_constants();
        }
        self.state.current()
    }

    fn is_changed(&self) -> (b: bool) {
        self.changed
    }

    fn clear_changed(&mut self) {
        proof {
            use_type_invariant(&*self);
        }
        self.changed = false;
    }

    fn inspect(&self, img: &PixelGrid, i: u32, j: u32) -> (res: (bool, (i64, i64))) {
        proof {
            Self::lemma_constants();
        }
        let pixel = img.get_pixel(i, j);
        let x = Axis { max: Self::X_MAX, delta: Self::X_DELTA };
        let z = Axis { max: Self::Z_MAX, delta: Self::Z_DELTA };
        inspect_pixel(&pixel, self.current(), Self::DELTA, &x, &z)
    }

    fn convert(&self, pixel: SpaceCoordinate) -> (key: i64) {
        proof {
            Self::lemma_constants();
        }
        let axis = Axis { max: Self::MAX, delta: Self::DELTA };
        axis.bin_key(pixel.axis0)
    }
}

impl CSpaceProvider for HsvProvider {
    type FilterMaterial = HsvMaterial;

    type Viz2dMaterial = Hsv2DVizMaterial;

    type Viz3dMaterial = Hsv3DVizMaterial;

    fn get_filter(&self) -> (m: HsvMaterial) {
        proof {
            Self::lemma_constants();
        }
        HsvMaterial { h: self.current(), delta: HSV_DELTA }
    }

    fn get_viz2d_material(&self) -> (m: Hsv2DVizMaterial) {
        proof {
            Self::lemma_constants();
        }
        Hsv2DVizMaterial { h: self.current(), delta: HSV_DELTA }
    }

    fn get_viz3d_material(&self) -> (m: Hsv3DVizMaterial) {
        proof {
            Self::lemma_constants();
        }
        Hsv3DVizMaterial { h: self.current(), delta: HSV_DELTA }
    }
}

/// What the image filter of the HSV space is drawn with: the hue of
/// the slice and its step.
#[derive(Clone, Copy, Debug, PartialEq, Eq, Structural)]
pub struct HsvMaterial {
    pub h: i64,
    pub delta: i64,
}

impl HsvMaterial {
    /// The filter of a newly loaded image: the slice stands at the upper
    /// bound.
    pub fn new() -> (m: Self)
        ensures
            m.h == 360_000,
            m.delta == 2_000,
    {
        HsvMaterial { h: 360_000, delta: HSV_DELTA }
    }
}

impl SliceMaterial for HsvMaterial {
    open spec fn slice_value(&self) -> int {
        self.h as int
    }

    open spec fn step(&self) -> int {
        self.delta as int
    }
}

/// What the hue scale of the HSV space is drawn with.
#[derive(Clone, Copy, Debug, PartialEq, Eq, Structural)]
pub struct Hsv2DVizMaterial {
    pub h: i64,
    pub delta: i64,
}

impl Default for Hsv2DVizMaterial {
    fn default() -> (m: Self)
        ensures
            m.h == 360_000,
            m.delta == 2_000,
    {
        Hsv2DVizMaterial { h: 360_000, delta: HSV_DELTA }
    }
}

impl SliceMaterial for Hsv2DVizMaterial {
    open spec fn slice_value(&self) -> int {
        self.h as int
    }

    open spec fn step(&self) -> int {
        self.delta as int
    }
}

/// What the bar chart of the HSV space is drawn with.
#[derive(Clone, Copy, Debug, PartialEq, Eq, Structural)]
pub struct Hsv3DVizMaterial {
    pub h: i64,
    pub delta: i64,
}

impl Default for Hsv3DVizMaterial {
    fn default() -> (m: Self)
        ensures
            m.h == 360_000,
            m.delta == 2_000,
    {
        Hsv3DVizMaterial { h: 360_000, delta: HSV_DELTA }
    }
}

impl SliceMaterial for Hsv3DVizMaterial {
    open spec fn slice_value(&self) -> int {
        self.h as int
    }

    open spec fn step(&self) -> int {
        self.delta as int
    }
}

} // verus!
