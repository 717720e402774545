use vstd::prelude::*;
use crate::functions::flag_interpretor::SamFlag;
use crate::functions::position_binner::Anchor;
use crate::structures::cigar::{CigarView, CIGAR};

verus! {

/// One alignment of a read to the chromosomal reference.
#[derive(Debug, Clone, PartialEq, Eq)]
pub struct ChrAnchor {
    /// What the CIGAR string says of the alignment.
    pub cigar: CIGAR,
    /// Name of the chromosome that the read aligns to.
    pub chromosome: String,
    /// Alignment flag.
    pub flag: i32,
    /// Mapping quality (MAPQ).
    pub mapping_quality: i32,
    /// Alignment position.
    pub position: i32,
    /// Template length (TLEN).
    pub template_length: i32,
}

impl ChrAnchor {
    /// An anchor with nothing loaded.
    pub fn new() -> (anchor: Self)
        ensures
            anchor.cigar@ == CigarView::empty(),
            anchor.chromosome@.len() == 0,
            anchor.flag == 0,
            anchor.mapping_quality == 0,
            anchor.position == 0,
            anchor.template_length == 0,
    {
        ChrAnchor {
            cigar: CIGAR::new(),
            chromosome: String::new(),
            flag: 0,
            mapping_quality: 0,
            position: 0,
            template_length: 0,
        }
    }

    /// An anchor with the given alignment.
    pub fn load(
        cigar: CIGAR,
        chromosome: String,
        flag: i32,
        mapping_quality: i32,
        position: i32,
        template_length: i32,
    ) -> (anchor: Self)
        ensures
            anchor == (ChrAnchor {
                cigar,
                chromosome,
                flag,
                mapping_quality,
                position,
                template_length,
            }),
    {
        let mut anchor = ChrAnchor::new();
        anchor.update(cigar, chromosome, flag, mapping_quality, position, template_length);
        anchor
    }

    /// Replaces the alignment of this anchor.
    pub fn update(
        &mut self,
        cigar: CIGAR,
        chromosome: String,
        flag: i32,
        mapping_quality: i32,
        position: i32,
        template_length: i32,
    )
        ensures
            *final(self) == (ChrAnchor {
                cigar,
                chromosome,
                flag,
                mapping_quality,
                position,
                template_length,
            }),
    {
        self.cigar = cigar;
        self.chromosome = chromosome;
        self.flag = flag;
        self.mapping_quality = mapping_quality;
        self.position = position;
        self.template_length = template_length;
    }
}

impl Anchor for ChrAnchor {
    open spec fn position(&self) -> i32 {
        self.position
    }

    fn get_position(&self) -> (position: i32) {
        self.position
    }
}

impl SamFlag for ChrAnchor {
    open spec fn flag(&self) -> i32 {
        self.flag
    }

    fn get_flag(&self) -> (flag: i32) {
        self.flag
    }
}

} // verus!
