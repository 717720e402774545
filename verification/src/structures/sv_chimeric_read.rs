use vstd::prelude::*;
use crate::structures::break_point::BreakPoint;
use crate::structures::chr_anchor::ChrAnchor;

verus! {

/// A read with its chromosomal alignments: the primary alignment first, then
/// the secondary ones.
#[derive(Debug, Clone, PartialEq, Eq)]
pub struct SVChimericRead {
    /// The bases of the read.
    pub sequence: String,
    /// Alignments to the chromosomal reference.
    pub chr_read: Vec<ChrAnchor>,
    /// The window around the junction that the read spans.
    pub breakpoint: BreakPoint,
}

impl SVChimericRead {
    /// Whether the read holds no sequence, no anchor and an empty breakpoint.
    pub open spec fn is_empty(&self) -> bool {
        &&& self.sequence@.len() == 0
        &&& self.chr_read@.len() == 0
        &&& self.breakpoint@.sequence.len() == 0
        &&& self.breakpoint@.coordinate == 0
    }

    /// A read with nothing loaded.
    pub fn new() -> (read: Self)
        ensures
            read.is_empty(),
    {
        SVChimericRead { sequence: String::new(), chr_read: Vec::new(), breakpoint: BreakPoint::new() }
    }
}

} // verus!
