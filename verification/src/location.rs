use vstd::prelude::*;

verus! {

/// A geographic fix. Latitude and longitude travel through this library as
/// the raw bit patterns of the provider's 64-bit coordinate values; the
/// library never interprets them, it only stores and hands them back.
#[derive(Clone, Copy, PartialEq, Eq, Structural, Debug)]
pub struct LocationResult {
    pub lat_bits: u64,
    pub lon_bits: u64,
}

} // verus!
