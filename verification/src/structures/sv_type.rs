use vstd::prelude::*;

verus! {

/// The kinds of structural variant that a pair of chromosomal anchors can indicate.
#[derive(Debug, Clone, Copy, PartialEq, Eq, Structural)]
pub enum SVType {
    Deletion,
    Duplication,
    Inversion,
    Insertion,
    Translocation,
    Unclassified,
}

impl Default for SVType {
    fn default() -> (sv_type: Self)
        ensures
            sv_type == SVType::Unclassified,
    {
        SVType::Unclassified
    }
}

} // verus!
