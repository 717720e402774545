use vstd::prelude::*;
use crate::config::Config;
use crate::functions::identificator::{any_match, identify, identify_with, tag_after};
use crate::structures::sv_chimeric_read::SVChimericRead;
use crate::structures::sv_type::SVType;

verus! {

/// The two reads of a pair with their chromosomal anchors, and the kind of
/// structural variant that they indicate.
#[derive(Debug, Clone, PartialEq, Eq)]
pub struct SVChimericPair {
    /// First read of the pair.
    pub read1: SVChimericRead,
    /// Second read of the pair.
    pub read2: SVChimericRead,
    /// The kind of structural variant.
    pub sv_tag: SVType,
}

impl SVChimericPair {
    /// A pair of empty reads with the given tag.
    pub fn new(sv_tag: SVType) -> (pair: Self)
        ensures
            pair.sv_tag == sv_tag,
            pair.read1.is_empty(),
            pair.read2.is_empty(),
    {
        SVChimericPair { read1: SVChimericRead::new(), read2: SVChimericRead::new(), sv_tag }
    }

    /// Whether both reads have a primary chromosomal anchor.
    pub open spec fn anchored(&self) -> bool {
        self.read1.chr_read@.len() > 0 && self.read2.chr_read@.len() > 0
    }

    /// Classifies the pair with the standard thresholds, as [`identify`] does.
    pub fn identify(&mut self, expected_tlen: i32) -> (identified: bool)
        requires
            old(self).anchored(),
        ensures
            *final(self) == (SVChimericPair {
                sv_tag: tag_after(
                    old(self).sv_tag,
                    old(self).read1.chr_read@[0],
                    old(self).read2.chr_read@[0],
                    expected_tlen,
                    Config::standard(),
                ),
                ..*old(self)
            }),
            identified == any_match(
                old(self).read1.chr_read@[0],
                old(self).read2.chr_read@[0],
                expected_tlen,
                Config::standard(),
            ),
    {
        identify(self, expected_tlen)
    }

    /// Classifies the pair with the thresholds of `config`, as [`identify_with`] does.
    pub fn identify_with(&mut self, expected_tlen: i32, config: &Config) -> (identified: bool)
        requires
            old(self).anchored(),
        ensures
            *final(self) == (SVChimericPair {
                sv_tag: tag_after(
                    old(self).sv_tag,
                    old(self).read1.chr_read@[0],
                    old(self).read2.chr_read@[0],
                    expected_tlen,
                    *config,
                ),
                ..*old(self)
            }),
            identified == any_match(
                old(self).read1.chr_read@[0],
                old(self).read2.chr_read@[0],
                expected_tlen,
                *config,
            ),
    {
        identify_with(self, expected_tlen, config)
    }
}

} // verus!
