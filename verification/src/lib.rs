//! A small library for reading from USB HID digital scales.
//!
//! The heart of the library is the byte-level decoder for the report frames
//! that a common consumer postal scale emits, together with the registry that
//! maps a USB (vendor id, product id) pair to the driver kind that understands
//! that hardware. Readings are represented exactly, as an integer mantissa
//! scaled by a power of ten, so every step from raw bytes to a converted
//! weight is stated and proved; callers that want a plain floating-point
//! number perform the final (inexact) division themselves.

use vstd::prelude::*;

pub mod dymo;
pub mod units;

verus! {

/// A list of things that can go wrong when reading from a digital scale.
#[derive(Clone, Debug, PartialEq)]
pub enum HidScaleError {
    /// For some reason we can't read from the scale; the payload carries the
    /// transport's own description of the failure.
    CantReadDueTo(String),
    /// The scale didn't send the expected number of bytes.
    NotEnoughData,
    /// The scale has more weight on it than it can handle / measure.
    Overloaded,
    /// The scale is reporting units that we don't understand.
    UnknownUnits,
    /// The scale cannot report the current reading (for example a tare-relative
    /// difference it cannot compute).
    UnreportableReading,
}

/// The closed set of hardware families this library can drive. A caller binds
/// the kind returned by [`make_driver`] to an open device handle to obtain a
/// working driver.
#[derive(Clone, Copy, Debug, PartialEq, Eq, Structural)]
pub enum ScaleKind {
    /// A Dymo M10 postal scale.
    DymoM10,
}

/// Which driver kind, if any, serves the device with the given USB ids.
pub open spec fn driver_for(vendor_id: u16, product_id: u16) -> Option<ScaleKind> {
    if vendor_id == dymo::VENDOR_ID {
        dymo::driver_for_product(product_id)
    } else {
        None
    }
}

/// Resolves a USB (vendor id, product id) pair to the driver kind that
/// understands that device. Unknown vendors and unknown products under a
/// known vendor both yield `None`: absence of support is a normal outcome,
/// not an error.
pub fn make_driver(vendor_id: u16, product_id: u16) -> (r: Option<ScaleKind>)
    ensures
        r == driver_for(vendor_id, product_id),
        r is Some <==> (vendor_id == dymo::VENDOR_ID
            && product_id == dymo::M10_PRODUCT_ID),
{
    match vendor_id {
        dymo::VENDOR_ID => dymo::make_driver(product_id),
        _ => None,
    }
}

} // verus!
