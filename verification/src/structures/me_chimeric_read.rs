use vstd::prelude::*;
use crate::config::Config;
use crate::error::CommonError;
use crate::functions::sequences::{reverse_complement, Sequence};
use crate::structures::break_point::break_point_of;
use crate::structures::chr_anchor::ChrAnchor;
use crate::structures::me_anchor::{junction_offset_of, tagged_orientation, MEAnchor};
use crate::structures::orientation_enum::OrientationEnum;
use crate::structures::raw_values::RawValues;

verus! {

/// A read with every locus it aligns to: the primary alignment first, then
/// the secondary ones.
#[derive(Debug, Clone, PartialEq, Eq)]
pub struct MEChimericRead {
    /// Alignments to the chromosomal reference.
    pub chr_read: Vec<ChrAnchor>,
    /// Alignments to mobile elements.
    pub me_read: Vec<MEAnchor>,
    /// The orientation that most of the mobile-element alignments agree on.
    pub orientation: OrientationEnum,
    /// Mapping quality (MAPQ) of the chromosomal anchor.
    pub quality: i32,
    /// The bases of the read.
    pub sequence: String,
}

/// How many of the anchors are tagged `orientation`.
pub open spec fn count_tagged(anchors: Seq<MEAnchor>, orientation: OrientationEnum) -> nat
    decreases anchors.len(),
{
    if anchors.len() == 0 {
        0
    } else {
        let counted = count_tagged(anchors.drop_last(), orientation);
        if anchors.last().orientation == orientation {
            counted + 1
        } else {
            counted
        }
    }
}

/// The number of anchors tagged `orientation` is the length of what is left
/// of the anchors when all others are taken out.
pub proof fn lemma_count_tagged(anchors: Seq<MEAnchor>, orientation: OrientationEnum)
    ensures
        count_tagged(anchors, orientation) == anchors.filter(
            |anchor: MEAnchor| anchor.orientation == orientation,
        ).len(),
    decreases anchors.len(),
{
    reveal(Seq::filter);
    if anchors.len() > 0 {
        lemma_count_tagged(anchors.drop_last(), orientation);
    }
}

/// The orientation of a read with the given numbers of upstream and
/// downstream anchors: the more frequent of the two, `Palindromic` where they
/// tie above zero, and `Untagged` where there is neither.
pub open spec fn majority(upstream: nat, downstream: nat) -> OrientationEnum {
    if upstream > downstream {
        OrientationEnum::Upstream
    } else if upstream < downstream {
        OrientationEnum::Downstream
    } else if upstream != 0 {
        OrientationEnum::Palindromic
    } else {
        OrientationEnum::Untagged
    }
}

/// The least left boundary among the upstream anchors, if there is one.
pub open spec fn least_left_boundary(anchors: Seq<MEAnchor>) -> Option<i32>
    decreases anchors.len(),
{
    if anchors.len() == 0 {
        None
    } else {
        let before = least_left_boundary(anchors.drop_last());
        let anchor = anchors.last();
        if anchor.orientation != OrientationEnum::Upstream {
            before
        } else {
            match before {
                Some(least) if least <= anchor.cigar.left_boundary => before,
                _ => Some(anchor.cigar.left_boundary),
            }
        }
    }
}

/// The greatest right boundary among the downstream anchors, if there is one.
pub open spec fn greatest_right_boundary(anchors: Seq<MEAnchor>) -> Option<i32>
    decreases anchors.len(),
{
    if anchors.len() == 0 {
        None
    } else {
        let before = greatest_right_boundary(anchors.drop_last());
        let anchor = anchors.last();
        if anchor.orientation != OrientationEnum::Downstream {
            before
        } else {
            match before {
                Some(greatest) if greatest >= anchor.cigar.right_boundary => before,
                _ => Some(anchor.cigar.right_boundary),
            }
        }
    }
}

/// The edge of a read of the given orientation: the least left boundary of
/// its upstream anchors for an upstream read, the greatest right boundary of
/// its downstream anchors for a downstream read, and zero where there is no
/// such anchor or the read is palindromic or untagged.
pub open spec fn edge_of(anchors: Seq<MEAnchor>, orientation: OrientationEnum) -> i32 {
    match orientation {
        OrientationEnum::Upstream => match least_left_boundary(anchors) {
            Some(least) => least,
            None => 0,
        },
        OrientationEnum::Downstream => match greatest_right_boundary(anchors) {
            Some(greatest) => greatest,
            None => 0,
        },
        _ => 0,
    }
}

/// The least left boundary is the left boundary of an upstream anchor and
/// lies at or below that of every upstream anchor; there is none exactly
/// where no anchor is upstream.
pub proof fn lemma_least_left_boundary(anchors: Seq<MEAnchor>)
    ensures
        match least_left_boundary(anchors) {
            Some(least) => {
                &&& exists|i: int|
                    0 <= i < anchors.len() && anchors[i].orientation == OrientationEnum::Upstream
                        && #[trigger] anchors[i].cigar.left_boundary == least
                &&& forall|i: int|
                    0 <= i < anchors.len() && anchors[i].orientation == OrientationEnum::Upstream
                        ==> least <= #[trigger] anchors[i].cigar.left_boundary
            },
            None => forall|i: int|
                0 <= i < anchors.len() ==> (#[trigger] anchors[i]).orientation
                    != OrientationEnum::Upstream,
        },
    decreases anchors.len(),
{
    if anchors.len() > 0 {
        let rest = anchors.drop_last();
        lemma_least_left_boundary(rest);
        match least_left_boundary(anchors) {
            Some(least) => {
                if anchors.last().orientation == OrientationEnum::Upstream
                    && anchors.last().cigar.left_boundary == least {
                    assert(anchors[anchors.len() - 1].cigar.left_boundary == least);
                } else {
                    let i = choose|i: int|
                        0 <= i < rest.len() && rest[i].orientation == OrientationEnum::Upstream
                            && #[trigger] rest[i].cigar.left_boundary == least;
                    assert(anchors[i].cigar.left_boundary == least);
                }
                assert forall|i: int|
                    0 <= i < anchors.len() && anchors[i].orientation
                        == OrientationEnum::Upstream implies least
                    <= #[trigger] anchors[i].cigar.left_boundary by {
                    if i < rest.len() {
                        assert(rest[i] == anchors[i]);
                        assert(rest[i].cigar.left_boundary == anchors[i].cigar.left_boundary);
                    }
                }
            },
            None => {
                assert forall|i: int| 0 <= i < anchors.len() implies (#[trigger] anchors[i]).orientation
                    != OrientationEnum::Upstream by {
                    if i < rest.len() {
                        assert(rest[i] == anchors[i]);
                    }
                }
            },
        }
    }
}

/// The greatest right boundary is the right boundary of a downstream anchor
/// and lies at or above that of every downstream anchor; there is none
/// exactly where no anchor is downstream.
pub proof fn lemma_greatest_right_boundary(anchors: Seq<MEAnchor>)
    ensures
        match greatest_right_boundary(anchors) {
            Some(greatest) => {
                &&& exists|i: int|
                    0 <= i < anchors.len() && anchors[i].orientation
                        == OrientationEnum::Downstream
                        && #[trigger] anchors[i].cigar.right_boundary == greatest
                &&& forall|i: int|
                    0 <= i < anchors.len() && anchors[i].orientation
                        == OrientationEnum::Downstream ==> greatest
                        >= #[trigger] anchors[i].cigar.right_boundary
            },
            None => forall|i: int|
                0 <= i < anchors.len() ==> (#[trigger] anchors[i]).orientation
                    != OrientationEnum::Downstream,
        },
    decreases anchors.len(),
{
    if anchors.len() > 0 {
        let rest = anchors.drop_last();
        lemma_greatest_right_boundary(rest);
        match greatest_right_boundary(anchors) {
            Some(greatest) => {
                if anchors.last().orientation == OrientationEnum::Downstream
                    && anchors.last().cigar.right_boundary == greatest {
                    assert(anchors[anchors.len() - 1].cigar.right_boundary == greatest);
                } else {
                    let i = choose|i: int|
                        0 <= i < rest.len() && rest[i].orientation == OrientationEnum::Downstream
                            && #[trigger] rest[i].cigar.right_boundary == greatest;
                    assert(anchors[i].cigar.right_boundary == greatest);
                }
                assert forall|i: int|
                    0 <= i < anchors.len() && anchors[i].orientation
                        == OrientationEnum::Downstream implies greatest
                    >= #[trigger] anchors[i].cigar.right_boundary by {
                    if i < rest.len() {
                        assert(rest[i] == anchors[i]);
                        assert(rest[i].cigar.right_boundary == anchors[i].cigar.right_boundary);
                    }
                }
            },
            None => {
                assert forall|i: int| 0 <= i < anchors.len() implies (#[trigger] anchors[i]).orientation
                    != OrientationEnum::Downstream by {
                    if i < rest.len() {
                        assert(rest[i] == anchors[i]);
                    }
                }
            },
        }
    }
}

/// The greatest flag that a primary alignment can carry.
pub const PRIMARY_FLAG_LIMIT: i32 = 255;

/// Whether a mobile-element anchor carries the alignment of a record, tagged
/// by the standard thresholds.
pub open spec fn carries_element(anchor: MEAnchor, values: RawValues) -> bool {
    &&& anchor.cigar@ == values.cigar@
    &&& anchor.flag == values.flag
    &&& anchor.element_id@ == values.scaffold@
    &&& anchor.position == values.position
    &&& anchor.element_size == values.extra_spec()
    &&& anchor.orientation == tagged_orientation(values, Config::standard())
}

/// Whether a chromosomal anchor carries the alignment of a record.
pub open spec fn carries_chromosome(anchor: ChrAnchor, values: RawValues) -> bool {
    &&& anchor.cigar@ == values.cigar@
    &&& anchor.chromosome@ == values.scaffold@
    &&& anchor.flag == values.flag
    &&& anchor.mapping_quality == values.quality
    &&& anchor.position == values.position
    &&& anchor.template_length == values.tlen
}

/// Whether a record of the given sequence belongs to a read of the sequence
/// `read`: it shows the read as it is or as its reverse complement.
pub open spec fn same_read(read: Seq<char>, record: Seq<char>) -> bool {
    read == record || reverse_complement(read) == record
}

impl MEChimericRead {
    /// Whether the read holds no anchor and no sequence, has quality zero and
    /// is untagged.
    pub open spec fn is_empty(&self) -> bool {
        &&& self.chr_read@.len() == 0
        &&& self.me_read@.len() == 0
        &&& self.orientation == OrientationEnum::Untagged
        &&& self.quality == 0
        &&& self.sequence@.len() == 0
    }

    /// A read with nothing loaded.
    pub fn new() -> (read: Self)
        ensures
            read.is_empty(),
    {
        MEChimericRead {
            chr_read: Vec::new(),
            me_read: Vec::new(),
            orientation: OrientationEnum::Untagged,
            quality: 0,
            sequence: String::new(),
        }
    }

    /// A read with one alignment to a mobile element.
    pub fn load(me_anchor: MEAnchor) -> (read: Self)
        ensures
            read.chr_read@.len() == 0,
            read.me_read@ == seq![me_anchor],
            read.orientation == OrientationEnum::Untagged,
            read.quality == 0,
            read.sequence@.len() == 0,
    {
        let mut read = MEChimericRead::new();
        read.me_read.push(me_anchor);
        read
    }

    /// The orientation that the tags of the read's anchors give it.
    pub open spec fn voted_orientation(&self) -> OrientationEnum {
        majority(
            count_tagged(self.me_read@, OrientationEnum::Upstream),
            count_tagged(self.me_read@, OrientationEnum::Downstream),
        )
    }

    /// The read with the orientation that its anchors give it.
    pub open spec fn tagged(self) -> Self {
        MEChimericRead { orientation: self.voted_orientation(), ..self }
    }

    /// The edge of the read, as [`edge_of`] defines it.
    pub open spec fn edge_spec(&self) -> i32 {
        edge_of(self.me_read@, self.orientation)
    }

    /// Adds the alignment of a record to a mobile element.
    ///
    /// A record of a primary alignment, whose flag is at most
    /// [`PRIMARY_FLAG_LIMIT`], first replaces the read's sequence by its own.
    /// The new anchor is tagged by the standard thresholds and added behind
    /// the read's mobile-element anchors. Where its junction lies past the
    /// limit of the element, its breakpoint is taken from the read's sequence;
    /// where the sequence does not hold the window, the anchor is added with
    /// an empty breakpoint and the failure is returned.
    pub fn load_mobile_element(&mut self, values: &RawValues) -> (loaded: Result<(), CommonError>)
        ensures
            final(self).chr_read == old(self).chr_read,
            final(self).orientation == old(self).orientation,
            final(self).quality == old(self).quality,
            final(self).sequence@ == if values.flag <= PRIMARY_FLAG_LIMIT {
                values.sequence@
            } else {
                old(self).sequence@
            },
            final(self).me_read@.len() == old(self).me_read@.len() + 1,
            final(self).me_read@.drop_last() == old(self).me_read@,
            carries_element(final(self).me_read@.last(), *values),
            ({
                let anchor = final(self).me_read@.last();
                match junction_offset_of(
                    values.cigar.left_boundary,
                    values.cigar.right_boundary,
                    values.extra_spec(),
                    anchor.orientation,
                ) {
                    Some(offset) => match break_point_of(final(self).sequence@, offset) {
                        Some(expected) => loaded is Ok && anchor.breakpoint@ == expected,
                        None => loaded == Err::<(), CommonError>(CommonError::BreakpointWindow)
                            && anchor.breakpoint@.sequence.len() == 0
                            && anchor.breakpoint@.coordinate == 0,
                    },
                    None => loaded is Ok && anchor.breakpoint@.sequence.len() == 0
                        && anchor.breakpoint@.coordinate == 0,
                }
            }),
    {
        if values.flag <= PRIMARY_FLAG_LIMIT {
            self.sequence = values.sequence.clone();
        }
        let mut anchor = MEAnchor::load(
            values.cigar.clone(),
            values.flag,
            values.scaffold.clone(),
            values.orientation,
            values.position,
            values.get_extra(),
        );
        let calculated = anchor.calculate_break_point(self.sequence.as_str());
        self.me_read.push(anchor);
        assert(self.me_read@.drop_last() =~= old(self).me_read@);
        calculated
    }

    /// Adds the alignment of a record to the chromosomal reference, where the
    /// record belongs to this read: it shows the read's sequence or its
    /// reverse complement. The record's mapping quality then becomes that of
    /// the read. Says whether the record was added.
    pub fn load_chromosomal(&mut self, values: &RawValues) -> (loaded: bool)
        ensures
            loaded == same_read(old(self).sequence@, values.sequence@),
            loaded ==> {
                &&& *final(self) == (MEChimericRead {
                    chr_read: final(self).chr_read,
                    quality: values.quality,
                    ..*old(self)
                })
                &&& final(self).chr_read@.len() == old(self).chr_read@.len() + 1
                &&& final(self).chr_read@.drop_last() == old(self).chr_read@
                &&& carries_chromosome(final(self).chr_read@.last(), *values)
            },
            !loaded ==> *final(self) == *old(self),
    {
        let matches = self.sequence == values.sequence || self.reverse_sequence()
            == values.sequence;
        if matches {
            self.quality = values.quality;
            self.chr_read.push(
                ChrAnchor::load(
                    values.cigar.clone(),
                    values.scaffold.clone(),
                    values.flag,
                    values.quality,
                    values.position,
                    values.tlen,
                ),
            );
            assert(self.chr_read@.drop_last() =~= old(self).chr_read@);
        }
        matches
    }

    /// Counts the mobile-element anchors that are tagged `orientation`.
    pub fn anchor_count(&self, orientation: OrientationEnum) -> (counted: usize)
        ensures
            counted == count_tagged(self.me_read@, orientation),
    {
        let mut counted: usize = 0;
        let mut i: usize = 0;
        while i < self.me_read.len()
            invariant
                i <= self.me_read.len(),
                counted <= i,
                counted == count_tagged(self.me_read@.take(i as int), orientation),
            decreases self.me_read.len() - i,
        {
            assert(self.me_read@.take(i + 1).drop_last() =~= self.me_read@.take(i as int));
            if self.me_read[i].orientation == orientation {
                counted += 1;
            }
            i += 1;
        }
        assert(self.me_read@.take(i as int) =~= self.me_read@);
        counted
    }

    /// Sets the read's orientation by a vote among its anchors: upstream
    /// against downstream, as [`majority`] decides it.
    pub fn tag(&mut self)
        ensures
            *final(self) == old(self).tagged(),
    {
        let upstream = self.anchor_count(OrientationEnum::Upstream);
        let downstream = self.anchor_count(OrientationEnum::Downstream);
        self.orientation = if upstream > downstream {
            OrientationEnum::Upstream
        } else if upstream < downstream {
            OrientationEnum::Downstream
        } else if upstream != 0 {
            OrientationEnum::Palindromic
        } else {
            OrientationEnum::Untagged
        };
    }

    /// The boundary of the read that lies nearest to the element's edge: for
    /// an upstream read the least left boundary of its upstream anchors, for a
    /// downstream read the greatest right boundary of its downstream anchors,
    /// and zero otherwise.
    pub fn edge(&self) -> (edge: i32)
        ensures
            edge == self.edge_spec(),
    {
        match self.orientation {
            OrientationEnum::Upstream => {
                let mut least: Option<i32> = None;
                let mut i: usize = 0;
                while i < self.me_read.len()
                    invariant
                        i <= self.me_read.len(),
                        least == least_left_boundary(self.me_read@.take(i as int)),
                    decreases self.me_read.len() - i,
                {
                    assert(self.me_read@.take(i + 1).drop_last() =~= self.me_read@.take(i as int));
                    let anchor = &self.me_read[i];
                    if anchor.orientation == OrientationEnum::Upstream {
                        least = match least {
                            Some(boundary) if boundary <= anchor.cigar.left_boundary => least,
                            _ => Some(anchor.cigar.left_boundary),
                        };
                    }
                    i += 1;
                }
                assert(self.me_read@.take(i as int) =~= self.me_read@);
                match least {
                    Some(boundary) => boundary,
                    None => 0,
                }
            },
            OrientationEnum::Downstream => {
                let mut greatest: Option<i32> = None;
                let mut i: usize = 0;
                while i < self.me_read.len()
                    invariant
                        i <= self.me_read.len(),
                        greatest == greatest_right_boundary(self.me_read@.take(i as int)),
                    decreases self.me_read.len() - i,
                {
                    assert(self.me_read@.take(i + 1).drop_last() =~= self.me_read@.take(i as int));
                    let anchor = &self.me_read[i];
                    if anchor.orientation == OrientationEnum::Downstream {
                        greatest = match greatest {
                            Some(boundary) if boundary >= anchor.cigar.right_boundary => greatest,
                            _ => Some(anchor.cigar.right_boundary),
                        };
                    }
                    i += 1;
                }
                assert(self.me_read@.take(i as int) =~= self.me_read@);
                match greatest {
                    Some(boundary) => boundary,
                    None => 0,
                }
            },
            OrientationEnum::Palindromic => 0,
            OrientationEnum::Untagged => 0,
        }
    }
}

impl Sequence for MEChimericRead {
    open spec fn sequence(&self) -> Seq<char> {
        self.sequence@
    }

    fn get_sequence(&self) -> (sequence: &str) {
        self.sequence.as_str()
    }
}

} // verus!
