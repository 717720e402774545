use std::collections::HashMap;
use vstd::prelude::*;
use crate::functions::position_binner::{bin, bin_spec};
use crate::config::BIN_SIZE;
use crate::structures::anchor_enum::{labelled, AnchorEnum};
use crate::structures::chr_anchor::ChrAnchor;
use crate::structures::me_anchor::MEAnchor;
use crate::structures::me_chimeric_read::count_tagged;
use crate::structures::orientation_enum::OrientationEnum;

verus! {

/// The flag of a read that is mapped alone on the forward strand.
pub const FORWARD_FLAG: i32 = 0;

/// The flag of a read that is mapped alone on the reverse strand.
pub const REVERSE_FLAG: i32 = 16;

/// How many anchors were met upstream and downstream of a mobile element.
#[derive(Debug, Clone, Copy, PartialEq, Eq, Structural)]
pub struct ElementCount {
    /// Number of upstream anchors.
    pub upstream: usize,
    /// Number of downstream anchors.
    pub downstream: usize,
}

impl ElementCount {
    /// A count of nothing.
    pub fn new() -> (counter: Self)
        ensures
            counter.upstream == 0,
            counter.downstream == 0,
    {
        ElementCount { upstream: 0, downstream: 0 }
    }

    /// The count after an anchor of the given orientation.
    pub open spec fn counted(self, orientation: OrientationEnum) -> Self {
        match orientation {
            OrientationEnum::Upstream => ElementCount {
                upstream: (self.upstream + 1) as usize,
                ..self
            },
            OrientationEnum::Downstream => ElementCount {
                downstream: (self.downstream + 1) as usize,
                ..self
            },
            _ => self,
        }
    }

    /// Counts an anchor of the given orientation. Palindromic and untagged
    /// anchors are not counted.
    pub fn count(&mut self, orientation: &OrientationEnum)
        requires
            old(self).upstream < usize::MAX,
            old(self).downstream < usize::MAX,
        ensures
            *final(self) == old(self).counted(*orientation),
    {
        match orientation {
            OrientationEnum::Upstream => {
                self.upstream += 1;
            },
            OrientationEnum::Downstream => {
                self.downstream += 1;
            },
            _ => {},
        }
    }
}

/// Whether a read counts for a strand and end: its chromosomal anchor must
/// carry the flag of that strand, and at the 5' end its upstream anchors must
/// not be fewer than its downstream ones, at the 3' end not more.
pub open spec fn counts_for(strand: AnchorEnum, flag: i32, upstream: nat, downstream: nat) -> bool {
    match strand {
        AnchorEnum::Forward5 => flag == FORWARD_FLAG && upstream >= downstream,
        AnchorEnum::Forward3 => flag == REVERSE_FLAG && upstream <= downstream,
        AnchorEnum::Reverse5 => flag == REVERSE_FLAG && upstream >= downstream,
        AnchorEnum::Reverse3 => flag == FORWARD_FLAG && upstream <= downstream,
        AnchorEnum::Unassigned => false,
    }
}

/// Whether `after` is `before` with `read_id` added behind the reads of the
/// bin at `binned_position`.
pub open spec fn recorded(
    before: Map<i32, Vec<String>>,
    after: Map<i32, Vec<String>>,
    binned_position: i32,
    read_id: String,
) -> bool {
    &&& after.dom() == before.dom().insert(binned_position)
    &&& forall|other: i32|
        other != binned_position && before.contains_key(other) ==> #[trigger] after[other]
            == before[other]
    &&& after[binned_position]@ == if before.contains_key(binned_position) {
        before[binned_position]@.push(read_id)
    } else {
        seq![read_id]
    }
}

/// Adds a read to the reads of the bin at `binned_position`.
pub fn chr_count(
    read_id: String,
    position_hm: &mut HashMap<i32, Vec<String>>,
    binned_position: i32,
)
    ensures
        recorded(old(position_hm)@, final(position_hm)@, binned_position, read_id),
{
    broadcast use vstd::std_specs::hash::group_hash_axioms;

    let mut read_ids: Vec<String> = match position_hm.remove(&binned_position) {
        Some(read_ids) => read_ids,
        None => Vec::new(),
    };
    read_ids.push(read_id);
    position_hm.insert(binned_position, read_ids);
    assert(position_hm@.dom() =~= old(position_hm)@.dom().insert(binned_position));
}

/// Counts a read for a strand and end of a mobile element.
///
/// `strand` is one of the labels `F5`, `F3`, `R5` and `R3`. Where the read
/// counts for it, as [`counts_for`] says of the flag of its chromosomal anchor
/// and the tags of its mobile-element anchors, the read is added to the bin of
/// its chromosomal position and the count returned is one more than
/// `read_count`. Otherwise nothing changes.
pub fn strand_count(
    read_id: String,
    strand: &str,
    read_count: i32,
    chr_pair: &ChrAnchor,
    me_pair: &[MEAnchor],
    position_hm: &mut HashMap<i32, Vec<String>>,
) -> (count: i32)
    requires
        read_count < i32::MAX,
    ensures
        counts_for(
            labelled(strand@),
            chr_pair.flag,
            count_tagged(me_pair@, OrientationEnum::Upstream),
            count_tagged(me_pair@, OrientationEnum::Downstream),
        ) ==> count == read_count + 1 && recorded(
            old(position_hm)@,
            final(position_hm)@,
            bin_spec(chr_pair.position as int, BIN_SIZE as int) as i32,
            read_id,
        ),
        !counts_for(
            labelled(strand@),
            chr_pair.flag,
            count_tagged(me_pair@, OrientationEnum::Upstream),
            count_tagged(me_pair@, OrientationEnum::Downstream),
        ) ==> count == read_count && final(position_hm)@ == old(position_hm)@,
{
    let mut mobel_counter = ElementCount::new();
    let mut i: usize = 0;
    while i < me_pair.len()
        invariant
            i <= me_pair.len(),
            mobel_counter.upstream <= i,
            mobel_counter.downstream <= i,
            mobel_counter.upstream == count_tagged(
                me_pair@.take(i as int),
                OrientationEnum::Upstream,
            ),
            mobel_counter.downstream == count_tagged(
                me_pair@.take(i as int),
                OrientationEnum::Downstream,
            ),
        decreases me_pair.len() - i,
    {
        assert(me_pair@.take(i + 1).drop_last() =~= me_pair@.take(i as int));
        mobel_counter.count(&me_pair[i].orientation);
        i += 1;
    }
    assert(me_pair@.take(i as int) =~= me_pair@);
    let selected = match AnchorEnum::from_label(strand) {
        AnchorEnum::Forward5 => chr_pair.flag == FORWARD_FLAG && mobel_counter.upstream
            >= mobel_counter.downstream,
        AnchorEnum::Forward3 => chr_pair.flag == REVERSE_FLAG && mobel_counter.upstream
            <= mobel_counter.downstream,
        AnchorEnum::Reverse5 => chr_pair.flag == REVERSE_FLAG && mobel_counter.upstream
            >= mobel_counter.downstream,
        AnchorEnum::Reverse3 => chr_pair.flag == FORWARD_FLAG && mobel_counter.upstream
            <= mobel_counter.downstream,
        AnchorEnum::Unassigned => false,
    };
    if selected {
        chr_count(read_id, position_hm, bin(chr_pair.position));
        read_count + 1
    } else {
        read_count
    }
}

} // verus!
