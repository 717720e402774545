//! Structures and decision rules for classifying paired-end alignment records
//! against mobile-element and chromosomal references.
//!
//! A record's CIGAR string and flag are read into plain values; a locus on a
//! mobile element is tagged upstream or downstream of the element; the tags of
//! a read's loci are put together into the read's orientation; the two reads of
//! a pair are compared to choose the chromosomal anchor; and a pair of
//! chromosomal anchors is classified as a kind of structural variant.

pub mod config;
pub mod error;
pub mod functions;
pub mod structures;

pub use crate::config::{
    Config, ANCHOR_LIMIT, BIN_OVERLAP, BIN_SIZE, ME_LIMIT, TRANSLOCATION_DISTANCE,
};
pub use crate::error::CommonError;
pub use crate::functions::counter::strand_count;
pub use crate::functions::decimal::parse_i32;
pub use crate::functions::flag_interpretor::{interpret, SamFlag};
pub use crate::functions::identificator::{identify, identify_with, SVIdentify};
pub use crate::functions::position_binner::{bin, bin_with, Anchor};
pub use crate::functions::sequences::{reverse_sequence, Sequence};
pub use crate::functions::thresholder::{cumsum, cumulative_table, table};
pub use crate::structures::anchor_enum::AnchorEnum;
pub use crate::structures::break_point::BreakPoint;
pub use crate::structures::chr_anchor::ChrAnchor;
pub use crate::structures::chr_anchor_enum::ChrAnchorEnum;
pub use crate::structures::cigar::CIGAR;
pub use crate::structures::me_anchor::{MEAnchor, TagME};
pub use crate::structures::me_chimeric_pair::{resolve, MEChimericPair};
pub use crate::structures::me_chimeric_read::MEChimericRead;
pub use crate::structures::me_library::MELibrary;
pub use crate::structures::orientation_enum::OrientationEnum;
pub use crate::structures::raw_values::{ExtraValuesEnum, RawValues, ReadControl};
pub use crate::structures::sv_chimeric_pair::SVChimericPair;
pub use crate::structures::sv_chimeric_read::SVChimericRead;
pub use crate::structures::sv_type::SVType;
