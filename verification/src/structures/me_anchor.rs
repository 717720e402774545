use vstd::prelude::*;
use crate::config::Config;
use crate::error::CommonError;
use crate::functions::flag_interpretor::{is_bit_set, is_set, SamFlag};
use crate::structures::break_point::{break_point_of, BreakPoint};
use crate::structures::cigar::{CigarView, CIGAR};
use crate::structures::orientation_enum::OrientationEnum;

verus! {

/// The flag bit that says that a read lies on the reverse strand.
pub const REVERSE_STRAND_BIT: usize = 5;

/// One alignment of a read to a mobile-element reference.
#[derive(Debug, Clone, PartialEq, Eq)]
pub struct MEAnchor {
    /// The window around the junction of the element and its flank.
    pub breakpoint: BreakPoint,
    /// What the CIGAR string says of the alignment.
    pub cigar: CIGAR,
    /// Alignment flag.
    pub flag: i32,
    /// Name of the mobile element that the read aligns to.
    pub element_id: String,
    /// The edge of the element that the alignment is consistent with.
    pub orientation: OrientationEnum,
    /// Alignment position.
    pub position: i32,
    /// Length of the mobile element; zero where it is not known.
    pub element_size: u32,
}

/// The orientation of a locus with the given boundaries on an element of the
/// given size. The first rule that applies decides:
///
/// 1. a reverse read whose left boundary lies within the anchor limit of the
///    element's start anchors upstream;
/// 2. a forward read whose right boundary is not zero and lies within the
///    anchor limit of the element's start anchors upstream;
/// 3. a forward read whose right boundary lies within the element limit of
///    the end of an element of known size anchors downstream;
/// 4. a reverse read whose left boundary lies within the anchor limit of the
///    element's end anchors downstream;
/// 5. any other read is left untagged.
pub open spec fn tag_spec(
    left_boundary: int,
    right_boundary: int,
    element_size: int,
    reverse_strand: bool,
    config: Config,
) -> OrientationEnum {
    if left_boundary <= config.anchor_limit && reverse_strand {
        OrientationEnum::Upstream
    } else if right_boundary != 0 && right_boundary <= config.anchor_limit && !reverse_strand {
        OrientationEnum::Upstream
    } else if element_size - right_boundary <= config.me_limit && element_size != 0
        && !reverse_strand {
        OrientationEnum::Downstream
    } else if element_size - left_boundary <= config.anchor_limit && reverse_strand {
        OrientationEnum::Downstream
    } else {
        OrientationEnum::Untagged
    }
}

/// The orientation that the rules of [`tag_spec`] give a record.
pub open spec fn tagged_orientation<T: TagME>(record: T, config: Config) -> OrientationEnum {
    tag_spec(
        record.left_boundary() as int,
        record.right_boundary() as int,
        record.size() as int,
        record.reverse_strand(),
        config,
    )
}

/// The record as tagging leaves it.
pub open spec fn tagged<T: TagME>(record: T, config: Config) -> T {
    record.with_orientation(tagged_orientation(record, config))
}

/// How far past the limit of the element the junction of a tagged locus
/// lies, where it lies past it: the left boundary of an upstream locus that
/// starts at or before the element's first base, and the overhang of a
/// downstream locus that ends behind the element's last base.
pub open spec fn junction_offset_of(
    left_boundary: i32,
    right_boundary: i32,
    element_size: u32,
    orientation: OrientationEnum,
) -> Option<int> {
    if left_boundary <= 0 && orientation == OrientationEnum::Upstream {
        Some(left_boundary as int)
    } else if right_boundary > element_size && orientation == OrientationEnum::Downstream {
        Some(right_boundary - element_size)
    } else {
        None
    }
}

/// Records that can be tagged with an orientation towards a mobile element.
pub trait TagME: Sized {
    /// Whether the read lies on the reverse strand.
    spec fn reverse_strand(&self) -> bool;

    /// Length of the mobile element; zero where it is not known.
    spec fn size(&self) -> u32;

    /// Left boundary of the alignment.
    spec fn left_boundary(&self) -> i32;

    /// Right boundary of the alignment.
    spec fn right_boundary(&self) -> i32;

    /// The record with its orientation replaced.
    spec fn with_orientation(self, orientation: OrientationEnum) -> Self;

    /// Whether the read lies on the reverse strand.
    fn read_orientation(&self) -> (reverse: bool)
        ensures
            reverse == self.reverse_strand(),
    ;

    /// Marks the record as anchoring upstream.
    fn upstream(&mut self)
        ensures
            *final(self) == old(self).with_orientation(OrientationEnum::Upstream),
    ;

    /// Marks the record as anchoring downstream.
    fn downstream(&mut self)
        ensures
            *final(self) == old(self).with_orientation(OrientationEnum::Downstream),
    ;

    /// Removes the record's orientation.
    fn reset_orientation(&mut self)
        ensures
            *final(self) == old(self).with_orientation(OrientationEnum::Untagged),
    ;

    /// Length of the mobile element; zero where it is not known.
    fn get_size(&self) -> (size: u32)
        ensures
            size == self.size(),
    ;

    /// Left boundary of the alignment.
    fn get_cigar_left_boundary(&self) -> (boundary: i32)
        ensures
            boundary == self.left_boundary(),
    ;

    /// Right boundary of the alignment.
    fn get_cigar_right_boundary(&self) -> (boundary: i32)
        ensures
            boundary == self.right_boundary(),
    ;

    /// Tags the record by the rules of [`tag_spec`], with the thresholds of `config`.
    fn tag_with(&mut self, config: &Config)
        ensures
            *final(self) == old(self).with_orientation(
                tag_spec(
                    old(self).left_boundary() as int,
                    old(self).right_boundary() as int,
                    old(self).size() as int,
                    old(self).reverse_strand(),
                    *config,
                ),
            ),
    {
        let reverse = self.read_orientation();
        let left = self.get_cigar_left_boundary() as i64;
        let right = self.get_cigar_right_boundary() as i64;
        let size = self.get_size() as i64;
        if left <= config.anchor_limit as i64 && reverse {
            self.upstream();
        } else if right != 0 && right <= config.anchor_limit as i64 && !reverse {
            self.upstream();
        } else if size - right <= config.me_limit as i64 && size != 0 && !reverse {
            self.downstream();
        } else if size - left <= config.anchor_limit as i64 && reverse {
            self.downstream();
        } else {
            self.reset_orientation();
        }
    }

    /// Tags the record by the rules of [`tag_spec`], with the standard thresholds.
    fn tag(&mut self)
        ensures
            *final(self) == old(self).with_orientation(
                tag_spec(
                    old(self).left_boundary() as int,
                    old(self).right_boundary() as int,
                    old(self).size() as int,
                    old(self).reverse_strand(),
                    Config::standard(),
                ),
            ),
    {
        let config = Config::new();
        self.tag_with(&config);
    }
}

impl MEAnchor {
    /// An anchor with nothing loaded.
    pub fn new() -> (anchor: Self)
        ensures
            anchor.cigar@ == CigarView::empty(),
            anchor.breakpoint@.sequence.len() == 0,
            anchor.breakpoint@.coordinate == 0,
            anchor.flag == 0,
            anchor.element_id@.len() == 0,
            anchor.orientation == OrientationEnum::Untagged,
            anchor.position == 0,
            anchor.element_size == 0,
    {
        MEAnchor {
            breakpoint: BreakPoint::new(),
            cigar: CIGAR::new(),
            flag: 0,
            element_id: String::new(),
            orientation: OrientationEnum::Untagged,
            position: 0,
            element_size: 0,
        }
    }

    /// An anchor with the given alignment, and an empty breakpoint.
    pub fn load(
        cigar: CIGAR,
        flag: i32,
        element_id: String,
        orientation: OrientationEnum,
        position: i32,
        element_size: u32,
    ) -> (anchor: Self)
        ensures
            anchor.cigar == cigar,
            anchor.flag == flag,
            anchor.element_id == element_id,
            anchor.orientation == orientation,
            anchor.position == position,
            anchor.element_size == element_size,
            anchor.breakpoint@.sequence.len() == 0,
            anchor.breakpoint@.coordinate == 0,
    {
        let mut anchor = MEAnchor::new();
        anchor.update(cigar, flag, element_id, orientation, position, element_size);
        anchor
    }

    /// Replaces the alignment of this anchor and keeps its breakpoint.
    pub fn update(
        &mut self,
        cigar: CIGAR,
        flag: i32,
        element_id: String,
        orientation: OrientationEnum,
        position: i32,
        element_size: u32,
    )
        ensures
            *final(self) == (MEAnchor {
                breakpoint: old(self).breakpoint,
                cigar,
                flag,
                element_id,
                orientation,
                position,
                element_size,
            }),
    {
        self.cigar = cigar;
        self.flag = flag;
        self.element_id = element_id;
        self.orientation = orientation;
        self.position = position;
        self.element_size = element_size;
    }

    /// How far past the limit of the element the junction of the anchor lies,
    /// as [`junction_offset_of`] defines it.
    pub open spec fn junction_offset(&self) -> Option<int> {
        junction_offset_of(
            self.cigar.left_boundary,
            self.cigar.right_boundary,
            self.element_size,
            self.orientation,
        )
    }

    /// Tags the anchor with the standard thresholds and, where its junction
    /// lies past the limit of the element, takes the breakpoint from the read
    /// `sequence`. Where the read does not hold the window of the junction,
    /// the anchor stays tagged and keeps its breakpoint.
    pub fn calculate_break_point(&mut self, sequence: &str) -> (calculated: Result<
        (),
        CommonError,
    >)
        ensures
            ({
                let anchor = tagged(*old(self), Config::standard());
                &&& *final(self) == (MEAnchor { breakpoint: final(self).breakpoint, ..anchor })
                &&& match anchor.junction_offset() {
                    Some(offset) => match break_point_of(sequence@, offset) {
                        Some(expected) => calculated is Ok && final(self).breakpoint@ == expected,
                        None => calculated == Err::<(), CommonError>(
                            CommonError::BreakpointWindow,
                        ) && final(self).breakpoint == old(self).breakpoint,
                    },
                    None => calculated is Ok && final(self).breakpoint == old(self).breakpoint,
                }
            }),
    {
        self.tag();
        if self.cigar.left_boundary <= 0 && self.orientation == OrientationEnum::Upstream {
            self.breakpoint.update(sequence, self.cigar.left_boundary)
        } else if self.cigar.right_boundary as i64 > self.element_size as i64 && self.orientation
            == OrientationEnum::Downstream {
            let overhang: i64 = self.cigar.right_boundary as i64 - self.element_size as i64;
            self.breakpoint.update(sequence, overhang as i32)
        } else {
            Ok(())
        }
    }
}

impl SamFlag for MEAnchor {
    open spec fn flag(&self) -> i32 {
        self.flag
    }

    fn get_flag(&self) -> (flag: i32) {
        self.flag
    }
}

impl TagME for MEAnchor {
    open spec fn reverse_strand(&self) -> bool {
        is_bit_set(self.flag, REVERSE_STRAND_BIT as int)
    }

    open spec fn size(&self) -> u32 {
        self.element_size
    }

    open spec fn left_boundary(&self) -> i32 {
        self.cigar.left_boundary
    }

    open spec fn right_boundary(&self) -> i32 {
        self.cigar.right_boundary
    }

    open spec fn with_orientation(self, orientation: OrientationEnum) -> Self {
        MEAnchor { orientation, ..self }
    }

    fn read_orientation(&self) -> (reverse: bool) {
        is_set(self.flag, REVERSE_STRAND_BIT)
    }

    fn upstream(&mut self) {
        self.orientation = OrientationEnum::Upstream;
    }

    fn downstream(&mut self) {
        self.orientation = OrientationEnum::Downstream;
    }

    fn reset_orientation(&mut self) {
        self.orientation = OrientationEnum::Untagged;
    }

    fn get_size(&self) -> (size: u32) {
        self.element_size
    }

    fn get_cigar_left_boundary(&self) -> (boundary: i32) {
        self.cigar.left_boundary
    }

    fn get_cigar_right_boundary(&self) -> (boundary: i32) {
        self.cigar.right_boundary
    }
}

} // verus!
