use vstd::prelude::*;

verus! {

/// The edge of a mobile element that a read's evidence is consistent with.
#[derive(Debug, Clone, Copy, PartialEq, Eq, Structural)]
pub enum OrientationEnum {
    Downstream,
    Upstream,
    Palindromic,
    Untagged,
}

impl Default for OrientationEnum {
    fn default() -> (orientation: Self)
        ensures
            orientation == OrientationEnum::Untagged,
    {
        OrientationEnum::Untagged
    }
}

} // verus!
