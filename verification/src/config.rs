use vstd::prelude::*;

verus! {

/// Width of the overlap between neighbouring bins.
pub const BIN_OVERLAP: i32 = 50;

/// Width of a bin of chromosomal positions.
pub const BIN_SIZE: i32 = 100;

/// Distance between two anchors beyond which a pair counts as a translocation.
pub const TRANSLOCATION_DISTANCE: i32 = 1000;

/// Distance from the end of a mobile element within which a forward read anchors downstream.
pub const ME_LIMIT: i32 = 200;

/// Distance from an edge of a mobile element within which a read anchors to that edge.
pub const ANCHOR_LIMIT: i32 = 50;

/// The thresholds that the decision rules read.
#[derive(Debug, Clone, Copy, PartialEq, Eq, Structural)]
pub struct Config {
    /// Width of a bin of chromosomal positions.
    pub bin_size: i32,
    /// Width of the overlap between neighbouring bins.
    pub bin_overlap: i32,
    /// Distance from the end of a mobile element within which a forward read anchors downstream.
    pub me_limit: i32,
    /// Distance from an edge of a mobile element within which a read anchors to that edge.
    pub anchor_limit: i32,
    /// Distance between two anchors beyond which a pair counts as a translocation.
    pub translocation_distance: i32,
}

impl Config {
    /// The thresholds that apply where none are given.
    pub open spec fn standard() -> Config {
        Config {
            bin_size: BIN_SIZE,
            bin_overlap: BIN_OVERLAP,
            me_limit: ME_LIMIT,
            anchor_limit: ANCHOR_LIMIT,
            translocation_distance: TRANSLOCATION_DISTANCE,
        }
    }

    /// Bins have a positive width and a positive overlap.
    pub open spec fn well_formed(&self) -> bool {
        self.bin_size > 0 && self.bin_overlap > 0
    }

    /// The thresholds that apply where none are given.
    pub fn new() -> (config: Self)
        ensures
            config == Config::standard(),
            config.well_formed(),
    {
        Config {
            bin_size: BIN_SIZE,
            bin_overlap: BIN_OVERLAP,
            me_limit: ME_LIMIT,
            anchor_limit: ANCHOR_LIMIT,
            translocation_distance: TRANSLOCATION_DISTANCE,
        }
    }
}

impl Default for Config {
    fn default() -> (config: Self)
        ensures
            config == Config::standard(),
    {
        Config::new()
    }
}

} // verus!
