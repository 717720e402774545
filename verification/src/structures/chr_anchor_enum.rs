use vstd::prelude::*;

verus! {

/// Which read of a pair serves as the chromosomal anchor.
#[derive(Debug, Clone, Copy, PartialEq, Eq, Structural)]
pub enum ChrAnchorEnum {
    Read1,
    Read2,
    Unresolved,
}

impl Default for ChrAnchorEnum {
    fn default() -> (anchor: Self)
        ensures
            anchor == ChrAnchorEnum::Unresolved,
    {
        ChrAnchorEnum::Unresolved
    }
}

} // verus!
