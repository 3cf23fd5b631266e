use vstd::prelude::*;

verus! {

/// A latitude/longitude pair as the geocoding provider reported it.
///
/// The resolver never interprets the numeric values: whatever the provider
/// returns is accepted, persisted and served back verbatim. The two fields
/// hold the IEEE 754 bit patterns of the provider's double-precision
/// degrees, which carry the values exactly without the library ever
/// computing on them.
#[derive(Clone, Copy, Debug, PartialEq, Eq, Structural)]
pub struct Coordinate {
    pub latitude_bits: u64,
    pub longitude_bits: u64,
}

} // verus!
