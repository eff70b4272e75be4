//! The OKHSL color space, sliced by lightness: the bar chart spreads hue and
//! saturation.

use vstd::prelude::*;
use crate::mesh::grid_cells;
use crate::parameter::ParameterState;
use crate::pixels::{PixelGrid, SpaceCoordinate};
use crate::providers::generic::{CSpaceProvider, Provider, SliceMaterial};
use crate::providers::histgen::inspect_pixel;
use crate::quantize::{axis_of, Axis};

verus! {

/// The step of the lightness slice: one percent.
pub const OKHSL_DELTA: i64 = 1_000;

/// The OKHSL color space with its lightness slice.
pub struct OkhslProvider {
    state: ParameterState,
    changed: bool,
}

impl OkhslProvider {
    #[verifier::type_invariant]
    spec fn inv(self) -> bool {
        &&& self.state@.wf()
        &&& self.state@.min == 0
        &&& self.state@.max == 100_000
        &&& self.state@.delta == 1_000
    }

    /// The provider for a newly loaded image: the slice stands at the upper
    /// bound, and is marked as changed so that everything is drawn once.
    pub fn new() -> (p: Self)
        ensures
            p.slice() == 100_000,
            p.changed(),
    {
        match ParameterState::new(0, 100_000, 1_000) {
            Some(state) => OkhslProvider { state, changed: true },
            None => vstd::pervasive::unreached(),
        }
    }
}

impl Provider for OkhslProvider {
    const MAX: i64 = 100_000;

    const MIN: i64 = 0;

    const DELTA: i64 = OKHSL_DELTA;

    const X_MAX: i64 = 360_000;

    const X_DELTA: i64 = 7_200;

    const Z_MAX: i64 = 100_000;

    const Z_DELTA: i64 = 2_000;

    /// The values of the constants of the OKHSL space, the 100 bins of
    /// its slice axis and the 2500 cells of its bar chart.
    proof fn lemma_constants()
        ensures
            Self::MAX == 100_000,
            Self::MIN == 0,
            Self::DELTA == 1_000,
            Self::X_MAX == 360_000,
            Self::X_DELTA == 7_200,
            Self::Z_MAX == 100_000,
            Self::Z_DELTA == 2_000,
            axis_of(Self::MAX, Self::DELTA).cells_spec() == 100,
            grid_cells(axis_of(Self::X_MAX, Self::X_DELTA), axis_of(Self::Z_MAX, Self::Z_DELTA))
                == 2_500,
    {
        assert(Self::MAX == 100_000 && Self::MIN == 0 && Self::DELTA == 1_000);
        assert(Self::X_MAX == 360_000 && Self::X_DELTA == 7_200);
        assert(Self::Z_MAX == 100_000 && Self::Z_DELTA == 2_000);
        assert(axis_of(360_000, 7_200).cells_spec() == 50);
        assert(axis_of(100_000, 2_000).cells_spec() == 50);
    }

    closed spec fn slice(&self) -> int {
        self.state@.current
    }

    closed spec fn changed(&self) -> bool {
        self.changed
    }

    fn incr(&mut self, change: i64) {
        proof {
            use_type_invariant(&*self);
            Self::lemma_constants();
        }
        let mut state = self.state;
        state.increment(change);
        self.state = state;
        self.changed = true;
    }

    fn decr(&mut self, change: i64) {
        proof {
            use_type_invariant(&*self);
            Self::lemma_constants();
        }
        let mut state = self.state;
        state.decrement(change);
        self.state = state;
        self.changed = true;
    }

    fn set(&mut self, new: i64) {
        proof {
            use_type_invariant(&*self);
            Self::lemma_constants();
        }
        let mut state = self.state;
        state.set_fraction(new);
        self.state = state;
        self.changed = true;
    }

    fn current(&self) -> (v: i64) {
        proof {
            use_type_invariant(self);
            Self::lemma_constants();
        }
        self.state.current()
    }

    fn is_changed(&self) -> (b: bool) {
        self.changed
    }

    fn clear_changed(&mut self) {
        proof {
            use_type_invariant(&*self);
        }
        self.changed = false;
    }

    fn inspect(&self, img: &PixelGrid, i: u32, j: u32) -> (res: (bool, (i64, i64))) {
        proof {
            Self::lemma_constants();
        }
        let pixel = img.get_pixel(i, j);
        let x = Axis { max: Self::X_MAX, delta: Self::X_DELTA };
        let z = Axis { max: Self::Z_MAX, delta: Self::Z_DELTA };
        inspect_pixel(&pixel, self.current(), Self::DELTA, &x, &z)
    }

    fn convert(&self, pixel: SpaceCoordinate) -> (key: i64) {
        proof {
            Self::lemma_constants();
        }
        let axis = Axis { max: Self::MAX, delta: Self::DELTA };
        axis.bin_key(pixel.axis0)
    }
}

impl CSpaceProvider for OkhslProvider {
    type FilterMaterial = OkhslMaterial;

    type Viz2dMaterial = Okhsl2DVizMaterial;

    type Viz3dMaterial = Okhsl3DVizMaterial;

    fn get_filter(&self) -> (m: OkhslMaterial) {
        proof {
            Self::lemma_constants();
        }
        OkhslMaterial { l: self.current(), delta: OKHSL_DELTA }
    }

    fn get_viz2d_material(&self) -> (m: Okhsl2DVizMaterial) {
        proof {
            Self::lemma_constants();
        }
        Okhsl2DVizMaterial { l: self.current(), delta: OKHSL_DELTA }
    }

    fn get_viz3d_material(&self) -> (m: Okhsl3DVizMaterial) {
        proof {
            Self::lemma_constants();
        }
        Okhsl3DVizMaterial { l: self.current(), delta: OKHSL_DELTA }
    }
}

/// What the image filter of the OKHSL space is drawn with: the lightness of
/// the slice and its step.
#[derive(Clone, Copy, Debug, PartialEq, Eq, Structural)]
pub struct OkhslMaterial {
    pub l: i64,
    pub delta: i64,
}

impl OkhslMaterial {
    /// The filter of a newly loaded image: the slice stands at the upper
    /// bound.
    pub fn new() -> (m: Self)
        ensures
            m.l == 100_000,
            m.delta == 1_000,
    {
        OkhslMaterial { l: 100_000, delta: OKHSL_DELTA }
    }
}

impl SliceMaterial for OkhslMaterial {
    open spec fn slice_value(&self) -> int {
        self.l as int
    }

    open spec fn step(&self) -> int {
        self.delta as int
    }
}

/// What the lightness scale of the OKHSL space is drawn with.
#[derive(Clone, Copy, Debug, PartialEq, Eq, Structural)]
pub struct Okhsl2DVizMaterial {
    pub l: i64,
    pub delta: i64,
}

impl Default for Okhsl2DVizMaterial {
    fn default() -> (m: Self)
        ensures
            m.l == 100_000,
            m.delta == 1_000,
    {
        Okhsl2DVizMaterial { l: 100_000, delta: OKHSL_DELTA }
    }
}

impl SliceMaterial for Okhsl2DVizMaterial {
    open spec fn slice_value(&self) -> int {
        self.l as int
    }

    open spec fn step(&self) -> int {
        self.delta as int
    }
}

/// What the bar chart of the OKHSL space is drawn with.
#[derive(Clone, Copy, Debug, PartialEq, Eq, Structural)]
pub struct Okhsl3DVizMaterial {
    pub l: i64,
    pub delta: i64,
}

impl Default for Okhsl3DVizMaterial {
    fn default() -> (m: Self)
        ensures
            m.l == 100_000,
            m.delta == 1_000,
    {
        Okhsl3DVizMaterial { l: 100_000, delta: OKHSL_DELTA }
    }
}

impl SliceMaterial for Okhsl3DVizMaterial {
    open spec fn slice_value(&self) -> int {
        self.l as int
    }

    open spec fn step(&self) -> int {
        self.delta as int
    }
}

} // verus!
