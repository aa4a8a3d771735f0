use vstd::prelude::*;

verus! {

/// The ways of estimating a value between known samples that a caller can
/// select from. The tag carries no behaviour of its own.
pub enum Method {
    /// No interpolation: samples are taken as they are.
    Off,
    /// Linear interpolation between the two neighbouring samples.
    Linear,
    /// Cubic Hermite interpolation through the four neighbouring samples.
    Cubic,
}

} // verus!
