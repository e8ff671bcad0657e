//! The capabilities a payload type declares in order to be carried by a
//! vertex of a context graph.

use vstd::prelude::*;

verus! {

/// A value with a stable 64-bit identity.
pub trait Identifiable {
    fn id(&self) -> u64;
}

/// Marks a type as observed data that a vertex may carry.
pub trait Datable {

}

/// Marks a type as a point in a spatial coordinate system.
pub trait Spatial {

}

/// Marks a type as a point on a time axis.
pub trait Temporal {

}

/// Marks a type as a point located jointly in space and time.
pub trait SpaceTemporal: Spatial + Temporal {

}

} // verus!
