use vstd::prelude::*;
use vstd::string::StringExecFns;
use crate::error::CommonError;
use crate::functions::decimal::{decimal_i32, parse_i32};
use crate::functions::flag_interpretor::{is_bit_set, is_set, SamFlag};
use crate::structures::cigar::{CigarView, CIGAR};
use crate::structures::me_anchor::{TagME, REVERSE_STRAND_BIT};
use crate::structures::orientation_enum::OrientationEnum;

verus! {

/// Number of fields that a record must hold.
pub const RECORD_FIELDS: usize = 10;

/// The identifier of the record being read, and that of the record before it.
#[derive(Debug, Clone, PartialEq, Eq)]
pub struct ReadControl {
    /// Identifier of the record being read.
    pub current: String,
    /// Identifier of the record read before.
    pub previous: String,
}

/// What a record carries beyond the fields of the alignment.
#[derive(Debug, Clone, Copy, PartialEq, Eq, Structural)]
pub enum ExtraValuesEnum {
    /// Length of the mobile element that the record aligns to.
    MobelSize(u32),
    /// Nothing is registered for the record.
    Unregistered,
}

/// The fields of one alignment record, in the order of the SAM format.
#[derive(Debug, Clone, PartialEq, Eq)]
pub struct RawValues {
    /// Identifier of the read.
    pub read_id: ReadControl,
    /// Alignment flag.
    pub flag: i32,
    /// Name of the chromosome or mobile element that the read aligns to.
    pub scaffold: String,
    /// Alignment position.
    pub position: i32,
    /// Mapping quality (MAPQ).
    pub quality: i32,
    /// What the CIGAR string says of the alignment.
    pub cigar: CIGAR,
    /// Template length (TLEN).
    pub tlen: i32,
    /// The bases of the read.
    pub sequence: String,
    /// The edge of a mobile element that the alignment is consistent with.
    pub orientation: OrientationEnum,
    /// What the record carries beyond the alignment.
    pub extra: ExtraValuesEnum,
}

/// The numbers and the CIGAR record that the fields of a record denote.
pub struct RecordNumbers {
    pub flag: i32,
    pub position: i32,
    pub quality: i32,
    pub cigar: CigarView,
    pub tlen: i32,
}

/// What the fields of a record denote: field 1 is the flag, field 3 the
/// position, field 4 the mapping quality, field 5 the CIGAR string and
/// field 8 the template length. There is nothing where one of the four
/// numbers is no 32-bit integer or the CIGAR string cannot be read.
pub open spec fn numbers_of(fields: Seq<&str>) -> Option<RecordNumbers>
    recommends
        fields.len() >= RECORD_FIELDS,
{
    match (
        decimal_i32(fields[1]@),
        decimal_i32(fields[3]@),
        decimal_i32(fields[4]@),
        decimal_i32(fields[8]@),
    ) {
        (Some(flag), Some(position), Some(quality), Some(tlen)) => {
            let read = CigarView::parse(fields[5]@, position);
            if read.complete {
                Some(RecordNumbers { flag, position, quality, cigar: read.cigar, tlen })
            } else {
                None
            }
        },
        _ => None,
    }
}

impl ReadControl {
    /// A control without identifiers.
    pub fn new() -> (control: Self)
        ensures
            control.current@.len() == 0,
            control.previous@.len() == 0,
    {
        ReadControl { current: String::new(), previous: String::new() }
    }
}

impl RawValues {
    /// A record with nothing loaded.
    pub fn new() -> (record: Self)
        ensures
            record.read_id.current@.len() == 0,
            record.read_id.previous@.len() == 0,
            record.flag == 0,
            record.scaffold@.len() == 0,
            record.position == 0,
            record.quality == 0,
            record.cigar@ == CigarView::empty(),
            record.tlen == 0,
            record.sequence@.len() == 0,
            record.orientation == OrientationEnum::Untagged,
            record.extra == ExtraValuesEnum::Unregistered,
    {
        RawValues {
            read_id: ReadControl::new(),
            flag: 0,
            scaffold: String::new(),
            position: 0,
            quality: 0,
            cigar: CIGAR::new(),
            tlen: 0,
            sequence: String::new(),
            orientation: OrientationEnum::Untagged,
            extra: ExtraValuesEnum::Unregistered,
        }
    }

    /// Whether this record holds what the fields of an alignment record say.
    pub open spec fn holds(&self, fields: Seq<&str>, numbers: RecordNumbers) -> bool {
        &&& self.read_id.current@ == fields[0]@
        &&& self.flag == numbers.flag
        &&& self.scaffold@ == fields[2]@
        &&& self.position == numbers.position
        &&& self.quality == numbers.quality
        &&& self.cigar@ == numbers.cigar
        &&& self.tlen == numbers.tlen
        &&& self.sequence@ == fields[9]@
    }

    /// Whether this record has what no field of an alignment record sets in
    /// common with `other`: the identifier read before, the orientation, and
    /// what is carried beyond the alignment.
    pub open spec fn keeps(&self, other: Self) -> bool {
        &&& self.read_id.previous == other.read_id.previous
        &&& self.orientation == other.orientation
        &&& self.extra == other.extra
    }

    /// Reads the fields of one alignment record.
    ///
    /// Fails with `RegistryLine` where there are fewer than ten fields, and
    /// with `Parsing` where the flag, the position, the mapping quality or the
    /// template length is no 32-bit integer, or the CIGAR string cannot be read.
    pub fn load(flines: Vec<&str>) -> (loaded: Result<Self, CommonError>)
        ensures
            flines@.len() < RECORD_FIELDS ==> loaded == Err::<Self, CommonError>(
                CommonError::RegistryLine,
            ),
            flines@.len() >= RECORD_FIELDS ==> match numbers_of(flines@) {
                Some(numbers) => {
                    &&& loaded matches Ok(record)
                    &&& record.holds(flines@, numbers)
                    &&& record.read_id.previous@.len() == 0
                    &&& record.orientation == OrientationEnum::Untagged
                    &&& record.extra == ExtraValuesEnum::Unregistered
                },
                None => loaded == Err::<Self, CommonError>(CommonError::Parsing),
            },
    {
        let mut record = RawValues::new();
        match record.update(flines) {
            Ok(()) => Ok(record),
            Err(error) => Err(error),
        }
    }

    /// Replaces the fields of this record by those of one alignment record,
    /// and keeps its orientation and what it carries beyond the alignment.
    /// Where reading fails, as [`RawValues::load`] says, nothing changes.
    pub fn update(&mut self, flines: Vec<&str>) -> (updated: Result<(), CommonError>)
        ensures
            flines@.len() < RECORD_FIELDS ==> updated == Err::<(), CommonError>(
                CommonError::RegistryLine,
            ) && *final(self) == *old(self),
            flines@.len() >= RECORD_FIELDS ==> match numbers_of(flines@) {
                Some(numbers) => {
                    &&& updated is Ok
                    &&& final(self).holds(flines@, numbers)
                    &&& final(self).keeps(*old(self))
                },
                None => updated == Err::<(), CommonError>(CommonError::Parsing) && *final(self)
                    == *old(self),
            },
    {
        if flines.len() < RECORD_FIELDS {
            return Err(CommonError::RegistryLine);
        }
        let flag = match parse_i32(flines[1]) {
            Some(flag) => flag,
            None => {
                return Err(CommonError::Parsing);
            },
        };
        let position = match parse_i32(flines[3]) {
            Some(position) => position,
            None => {
                return Err(CommonError::Parsing);
            },
        };
        let quality = match parse_i32(flines[4]) {
            Some(quality) => quality,
            None => {
                return Err(CommonError::Parsing);
            },
        };
        let cigar = match CIGAR::load(flines[5], position) {
            Ok(cigar) => cigar,
            Err(error) => {
                return Err(error);
            },
        };
        let tlen = match parse_i32(flines[8]) {
            Some(tlen) => tlen,
            None => {
                return Err(CommonError::Parsing);
            },
        };
        self.read_id.current = String::from_str(flines[0]);
        self.flag = flag;
        self.scaffold = String::from_str(flines[2]);
        self.position = position;
        self.quality = quality;
        self.cigar = cigar;
        self.tlen = tlen;
        self.sequence = String::from_str(flines[9]);
        Ok(())
    }

    /// Length of the mobile element that the record aligns to; zero where
    /// none is registered.
    pub open spec fn extra_spec(&self) -> u32 {
        match self.extra {
            ExtraValuesEnum::MobelSize(size) => size,
            ExtraValuesEnum::Unregistered => 0,
        }
    }

    /// Length of the mobile element that the record aligns to; zero where
    /// none is registered.
    pub fn get_extra(&self) -> (size: u32)
        ensures
            size == self.extra_spec(),
    {
        match self.extra {
            ExtraValuesEnum::MobelSize(size) => size,
            ExtraValuesEnum::Unregistered => 0,
        }
    }
}

impl SamFlag for RawValues {
    open spec fn flag(&self) -> i32 {
        self.flag
    }

    fn get_flag(&self) -> (flag: i32) {
        self.flag
    }
}

impl TagME for RawValues {
    open spec fn reverse_strand(&self) -> bool {
        is_bit_set(self.flag, REVERSE_STRAND_BIT as int)
    }

    open spec fn size(&self) -> u32 {
        self.extra_spec()
    }

    open spec fn left_boundary(&self) -> i32 {
        self.cigar.left_boundary
    }

    open spec fn right_boundary(&self) -> i32 {
        self.cigar.right_boundary
    }

    open spec fn with_orientation(self, orientation: OrientationEnum) -> Self {
        RawValues { orientation, ..self }
    }

    fn read_orientation(&self) -> (reverse: bool) {
        is_set(self.flag, REVERSE_STRAND_BIT)
    }

    fn upstream(&mut self) {
        self.orientation = OrientationEnum::Upstream;
    }

    fn downstream(&mut self) {
        self.orientation = OrientationEnum::Downstream;
    }

    fn reset_orientation(&mut self) {
        self.orientation = OrientationEnum::Untagged;
    }

    fn get_size(&self) -> (size: u32) {
        self.get_extra()
    }

    fn get_cigar_left_boundary(&self) -> (boundary: i32) {
        self.cigar.left_boundary
    }

    fn get_cigar_right_boundary(&self) -> (boundary: i32) {
        self.cigar.right_boundary
    }
}

} // verus!
