use vstd::prelude::*;
use crate::functions::decimal::chars_of;

verus! {

/// The strand and the end of a mobile element that a chromosomal anchor is counted for.
#[derive(Debug, Clone, Copy, PartialEq, Eq, Structural)]
pub enum AnchorEnum {
    Forward5,
    Forward3,
    Reverse5,
    Reverse3,
    Unassigned,
}

impl Default for AnchorEnum {
    fn default() -> (anchor: Self)
        ensures
            anchor == AnchorEnum::Unassigned,
    {
        AnchorEnum::Unassigned
    }
}

/// The strand and end that a two-letter label names: `F5`, `F3`, `R5` or
/// `R3`. Any other text names none.
pub open spec fn labelled(label: Seq<char>) -> AnchorEnum {
    if label == seq!['F', '5'] {
        AnchorEnum::Forward5
    } else if label == seq!['F', '3'] {
        AnchorEnum::Forward3
    } else if label == seq!['R', '5'] {
        AnchorEnum::Reverse5
    } else if label == seq!['R', '3'] {
        AnchorEnum::Reverse3
    } else {
        AnchorEnum::Unassigned
    }
}

impl AnchorEnum {
    /// The strand and end that a two-letter label names.
    pub fn from_label(label: &str) -> (anchor: Self)
        ensures
            anchor == labelled(label@),
    {
        let chars = chars_of(label);
        if chars.len() != 2 {
            return AnchorEnum::Unassigned;
        }
        let strand = chars[0];
        let end = chars[1];
        if strand == 'F' && end == '5' {
            assert(label@ =~= seq!['F', '5']);
            AnchorEnum::Forward5
        } else if strand == 'F' && end == '3' {
            assert(label@ =~= seq!['F', '3']);
            AnchorEnum::Forward3
        } else if strand == 'R' && end == '5' {
            assert(label@ =~= seq!['R', '5']);
            AnchorEnum::Reverse5
        } else if strand == 'R' && end == '3' {
            assert(label@ =~= seq!['R', '3']);
            AnchorEnum::Reverse3
        } else {
            AnchorEnum::Unassigned
        }
    }
}

} // verus!
