//! What the caller asks for: a viewport, a place on the globe, a zoom level.

use vstd::prelude::*;
use vstd::std_specs::cmp::PartialEqSpecImpl;
use crate::scalar::Scalar;

verus! {

/// A viewport size in physical pixels.
#[derive(Clone, Copy, Debug, PartialEq, Eq, Structural)]
pub struct PhysicalSize {
    pub width: u32,
    pub height: u32,
}

impl PhysicalSize {
    /// A size without pixels: no surface can be created for it.
    pub open spec fn is_empty(self) -> bool {
        self.width == 0 || self.height == 0
    }

    pub fn new(width: u32, height: u32) -> (size: PhysicalSize)
        ensures
            size.width == width,
            size.height == height,
    {
        PhysicalSize { width, height }
    }

    pub fn empty(&self) -> (r: bool)
        ensures
            r == self.is_empty(),
    {
        self.width == 0 || self.height == 0
    }
}

/// A geographic coordinate in degrees.
#[derive(Clone, Copy, Debug)]
pub struct Coordinates {
    pub latitude: Scalar,
    pub longitude: Scalar,
}

impl Coordinates {
    pub open spec fn same_value(self, other: Coordinates) -> bool {
        self.latitude.same_value(other.latitude) && self.longitude.same_value(other.longitude)
    }
}

/// Everything that determines one rendered frame. It is both the render
/// request and, by value equality, the key under which the last frame is
/// remembered.
#[derive(Clone, Copy, Debug)]
pub struct MapInput {
    /// Size of the image to produce.
    pub size: PhysicalSize,
    /// The coordinate to centre on.
    pub coords: Coordinates,
    /// Distance of the camera from the centre of the globe.
    pub zoom: Scalar,
}

impl MapInput {
    /// Value equality: equal sizes, and numerically equal coordinates and
    /// zoom. An input that holds a NaN equals no input, not even itself.
    pub open spec fn same_value(self, other: MapInput) -> bool {
        &&& self.size == other.size
        &&& self.coords.same_value(other.coords)
        &&& self.zoom.same_value(other.zoom)
    }

    /// No component is a NaN.
    pub open spec fn is_comparable(self) -> bool {
        &&& !self.coords.latitude.is_nan()
        &&& !self.coords.longitude.is_nan()
        &&& !self.zoom.is_nan()
    }
}

impl PartialEq for Coordinates {
    fn eq(&self, other: &Coordinates) -> (r: bool) {
        self.latitude == other.latitude && self.longitude == other.longitude
    }
}

impl PartialEqSpecImpl for Coordinates {
    open spec fn obeys_eq_spec() -> bool {
        true
    }

    open spec fn eq_spec(&self, other: &Coordinates) -> bool {
        self.same_value(*other)
    }
}

impl PartialEq for MapInput {
    fn eq(&self, other: &MapInput) -> (r: bool) {
        self.size == other.size && self.coords == other.coords && self.zoom == other.zoom
    }
}

impl PartialEqSpecImpl for MapInput {
    open spec fn obeys_eq_spec() -> bool {
        true
    }

    open spec fn eq_spec(&self, other: &MapInput) -> bool {
        self.same_value(*other)
    }
}

/// Value equality of inputs is symmetric, and holds between an input and
/// itself exactly where the input is comparable.
pub proof fn lemma_input_equality(a: MapInput, b: MapInput)
    ensures
        a.same_value(b) == b.same_value(a),
        a.same_value(a) == a.is_comparable(),
{
}

} // verus!
