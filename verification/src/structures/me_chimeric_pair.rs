use vstd::prelude::*;
use crate::structures::chr_anchor_enum::ChrAnchorEnum;
use crate::structures::me_anchor::MEAnchor;
use crate::structures::me_chimeric_read::MEChimericRead;
use crate::structures::orientation_enum::OrientationEnum;

verus! {

/// The two reads of a pair, and which of them serves as the chromosomal anchor.
#[derive(Debug, Clone, PartialEq, Eq)]
pub struct MEChimericPair {
    /// First read of the pair.
    pub read1: MEChimericRead,
    /// Second read of the pair.
    pub read2: MEChimericRead,
    /// The read that serves as the chromosomal anchor.
    pub chosen_anchor: ChrAnchorEnum,
}

/// The chromosomal anchor of a pair whose reads have the given orientations
/// and edges.
///
/// - Both reads upstream: the read with the smaller edge; neither where the
///   edges are equal.
/// - Both reads downstream: the read with the greater edge; neither where the
///   edges are equal.
/// - One read upstream or downstream and its mate untagged: the slot of the
///   mate, `Read2` where the first read carries the tag and `Read1` where the
///   second does.
/// - Any other pair: neither.
pub open spec fn resolve_spec(
    orientation1: OrientationEnum,
    edge1: int,
    orientation2: OrientationEnum,
    edge2: int,
) -> ChrAnchorEnum {
    match (orientation1, orientation2) {
        (OrientationEnum::Upstream, OrientationEnum::Upstream) => if edge1 < edge2 {
            ChrAnchorEnum::Read1
        } else if edge1 > edge2 {
            ChrAnchorEnum::Read2
        } else {
            ChrAnchorEnum::Unresolved
        },
        (OrientationEnum::Downstream, OrientationEnum::Downstream) => if edge1 < edge2 {
            ChrAnchorEnum::Read2
        } else if edge1 > edge2 {
            ChrAnchorEnum::Read1
        } else {
            ChrAnchorEnum::Unresolved
        },
        (OrientationEnum::Upstream, OrientationEnum::Untagged) => ChrAnchorEnum::Read2,
        (OrientationEnum::Downstream, OrientationEnum::Untagged) => ChrAnchorEnum::Read2,
        (OrientationEnum::Untagged, OrientationEnum::Upstream) => ChrAnchorEnum::Read1,
        (OrientationEnum::Untagged, OrientationEnum::Downstream) => ChrAnchorEnum::Read1,
        _ => ChrAnchorEnum::Unresolved,
    }
}

/// The other read of the pair.
pub open spec fn mate(anchor: ChrAnchorEnum) -> ChrAnchorEnum {
    match anchor {
        ChrAnchorEnum::Read1 => ChrAnchorEnum::Read2,
        ChrAnchorEnum::Read2 => ChrAnchorEnum::Read1,
        ChrAnchorEnum::Unresolved => ChrAnchorEnum::Unresolved,
    }
}

/// Exchanging the two reads of a pair exchanges the anchor that is chosen.
pub proof fn lemma_resolve_exchanged(
    orientation1: OrientationEnum,
    edge1: int,
    orientation2: OrientationEnum,
    edge2: int,
)
    ensures
        resolve_spec(orientation2, edge2, orientation1, edge1) == mate(
            resolve_spec(orientation1, edge1, orientation2, edge2),
        ),
{
}

/// A pair is left without anchor exactly where both reads have the same
/// orientation with equal edges, where one is palindromic, where one is
/// upstream and the other downstream, and where both are untagged.
pub proof fn lemma_unresolved(
    orientation1: OrientationEnum,
    edge1: int,
    orientation2: OrientationEnum,
    edge2: int,
)
    ensures
        resolve_spec(orientation1, edge1, orientation2, edge2) == ChrAnchorEnum::Unresolved <==> {
            ||| orientation1 == OrientationEnum::Palindromic
            ||| orientation2 == OrientationEnum::Palindromic
            ||| orientation1 == orientation2 && edge1 == edge2
            ||| orientation1 == orientation2 && orientation1 == OrientationEnum::Untagged
            ||| orientation1 == OrientationEnum::Upstream && orientation2
                == OrientationEnum::Downstream
            ||| orientation1 == OrientationEnum::Downstream && orientation2
                == OrientationEnum::Upstream
        },
{
}

/// Chooses the chromosomal anchor of a pair from the orientations and edges
/// of its reads.
pub fn resolve(
    orientation1: OrientationEnum,
    edge1: i32,
    orientation2: OrientationEnum,
    edge2: i32,
) -> (chosen: ChrAnchorEnum)
    ensures
        chosen == resolve_spec(orientation1, edge1 as int, orientation2, edge2 as int),
{
    match (orientation1, orientation2) {
        (OrientationEnum::Upstream, OrientationEnum::Upstream) => {
            if edge1 < edge2 {
                ChrAnchorEnum::Read1
            } else if edge1 > edge2 {
                ChrAnchorEnum::Read2
            } else {
                ChrAnchorEnum::Unresolved
            }
        },
        (OrientationEnum::Upstream, OrientationEnum::Untagged) => ChrAnchorEnum::Read2,
        (OrientationEnum::Upstream, _) => ChrAnchorEnum::Unresolved,
        (OrientationEnum::Downstream, OrientationEnum::Downstream) => {
            if edge1 < edge2 {
                ChrAnchorEnum::Read2
            } else if edge1 > edge2 {
                ChrAnchorEnum::Read1
            } else {
                ChrAnchorEnum::Unresolved
            }
        },
        (OrientationEnum::Downstream, OrientationEnum::Untagged) => ChrAnchorEnum::Read2,
        (OrientationEnum::Downstream, _) => ChrAnchorEnum::Unresolved,
        (OrientationEnum::Palindromic, _) => ChrAnchorEnum::Unresolved,
        (OrientationEnum::Untagged, OrientationEnum::Upstream) => ChrAnchorEnum::Read1,
        (OrientationEnum::Untagged, OrientationEnum::Downstream) => ChrAnchorEnum::Read1,
        (OrientationEnum::Untagged, _) => ChrAnchorEnum::Unresolved,
    }
}

impl MEChimericPair {
    /// A pair with nothing loaded.
    pub fn new() -> (pair: Self)
        ensures
            pair.read1.is_empty(),
            pair.read2.is_empty(),
            pair.chosen_anchor == ChrAnchorEnum::Unresolved,
    {
        MEChimericPair {
            read1: MEChimericRead::new(),
            read2: MEChimericRead::new(),
            chosen_anchor: ChrAnchorEnum::Unresolved,
        }
    }

    /// A pair whose first read has one alignment to a mobile element.
    pub fn load(me_anchor: MEAnchor) -> (pair: Self)
        ensures
            pair.read1.me_read@ == seq![me_anchor],
            pair.read1.chr_read@.len() == 0,
            pair.read1.orientation == OrientationEnum::Untagged,
            pair.read1.quality == 0,
            pair.read1.sequence@.len() == 0,
            pair.read2.is_empty(),
            pair.chosen_anchor == ChrAnchorEnum::Unresolved,
    {
        let mut pair = MEChimericPair::new();
        pair.read1 = MEChimericRead::load(me_anchor);
        pair
    }

    /// The read that serves as the chromosomal anchor; the first read where
    /// none has been chosen.
    pub fn get_chr_anchor(&self) -> (read: &MEChimericRead)
        ensures
            *read == if self.chosen_anchor == ChrAnchorEnum::Read2 {
                self.read2
            } else {
                self.read1
            },
    {
        match self.chosen_anchor {
            ChrAnchorEnum::Read1 => &self.read1,
            ChrAnchorEnum::Read2 => &self.read2,
            ChrAnchorEnum::Unresolved => &self.read1,
        }
    }

    /// The pair after both reads have been tagged and the anchor chosen.
    pub open spec fn tagged(self) -> Self {
        let read1 = self.read1.tagged();
        let read2 = self.read2.tagged();
        MEChimericPair {
            read1,
            read2,
            chosen_anchor: resolve_spec(
                read1.orientation,
                read1.edge_spec() as int,
                read2.orientation,
                read2.edge_spec() as int,
            ),
        }
    }

    /// Tags both reads by the vote of their anchors and chooses the
    /// chromosomal anchor from their orientations and edges, as
    /// [`resolve_spec`] decides it.
    pub fn tag(&mut self)
        ensures
            *final(self) == old(self).tagged(),
    {
        self.read1.tag();
        self.read2.tag();
        let edge1 = self.read1.edge();
        let edge2 = self.read2.edge();
        self.chosen_anchor = resolve(
            self.read1.orientation,
            edge1,
            self.read2.orientation,
            edge2,
        );
    }
}

} // verus!
