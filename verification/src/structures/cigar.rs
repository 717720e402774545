use vstd::prelude::*;
use crate::error::CommonError;
use crate::functions::decimal::{chars_of, decimal_i32, parse_i32_chars};

verus! {

/// What a CIGAR string says of one alignment: clip, match, insertion and
/// deletion lengths, and the genomic boundaries derived from them.
#[derive(Debug, PartialEq, Eq)]
pub struct CIGAR {
    /// Lengths of the matched blocks, in order.
    pub align: Vec<i32>,
    /// Lengths of the deletions, in order.
    pub deletion: Vec<i32>,
    /// Lengths of the insertions, in order.
    pub insertion: Vec<i32>,
    /// Leftmost coordinate covered by the read, clips included.
    pub left_boundary: i32,
    /// Length of the leading clip.
    pub left_clip: i32,
    /// Rightmost coordinate covered by the read, clips included.
    pub right_boundary: i32,
    /// Length of the trailing clip.
    pub right_clip: i32,
    /// The operation string as it was read.
    pub signature: String,
}

/// The mathematical content of a [`CIGAR`].
pub struct CigarView {
    pub align: Seq<i32>,
    pub deletion: Seq<i32>,
    pub insertion: Seq<i32>,
    pub left_boundary: i32,
    pub left_clip: i32,
    pub right_boundary: i32,
    pub right_clip: i32,
    pub signature: Seq<char>,
}

/// How far a scan of an operation string got.
pub struct Scan {
    /// The record after the operations that were read.
    pub cigar: CigarView,
    /// Whether every length field that was met denotes a 32-bit integer.
    pub complete: bool,
}

impl View for CIGAR {
    type V = CigarView;

    open spec fn view(&self) -> CigarView {
        CigarView {
            align: self.align@,
            deletion: self.deletion@,
            insertion: self.insertion@,
            left_boundary: self.left_boundary,
            left_clip: self.left_clip,
            right_boundary: self.right_boundary,
            right_clip: self.right_clip,
            signature: self.signature@,
        }
    }
}

/// The sum of a sequence of lengths.
pub open spec fn sum(lengths: Seq<i32>) -> int
    decreases lengths.len(),
{
    if lengths.len() == 0 {
        0
    } else {
        sum(lengths.drop_last()) + lengths.last()
    }
}

/// Whether `c` is one of the five operators that a scan records.
pub open spec fn is_operator(c: char) -> bool {
    c == 'H' || c == 'S' || c == 'M' || c == 'I' || c == 'D'
}

/// The operation string of a read without alignment.
pub open spec fn unmapped_signature() -> Seq<char> {
    seq!['*']
}

impl CigarView {
    /// The record that holds nothing.
    pub open spec fn empty() -> CigarView {
        CigarView {
            align: Seq::empty(),
            deletion: Seq::empty(),
            insertion: Seq::empty(),
            left_boundary: 0,
            left_clip: 0,
            right_boundary: 0,
            right_clip: 0,
            signature: Seq::empty(),
        }
    }

    /// Matched, inserted and deleted lengths together.
    pub open spec fn total_alignment(self) -> int {
        sum(self.align) + sum(self.insertion) + sum(self.deletion)
    }

    /// The left boundary of an alignment that starts at `position`.
    pub open spec fn left_at(self, position: int) -> int {
        position - self.left_clip
    }

    /// The right boundary of an alignment that starts at `position`, counted inclusively.
    pub open spec fn right_at(self, position: int) -> int {
        self.left_at(position) + self.left_clip + self.total_alignment() + self.right_clip - 1
    }

    /// The record of an unmapped read: one matched block of length zero and nothing else.
    pub open spec fn is_unmapped(self) -> bool {
        &&& self.align == seq![0i32]
        &&& self.deletion.len() == 0
        &&& self.insertion.len() == 0
        &&& self.left_clip == 0
        &&& self.right_clip == 0
        &&& self.left_boundary == 0
        &&& self.right_boundary == 0
    }

    /// The boundaries agree with the clips and lengths.
    pub open spec fn boundaries_consistent(self) -> bool {
        self.right_boundary == self.left_boundary + self.left_clip + self.total_alignment()
            + self.right_clip - 1
    }

    /// The record after one operator with its length. A clip met before any
    /// matched block has been recorded is the left clip, a later one the right clip.
    pub open spec fn record(self, operator: char, length: i32) -> CigarView {
        if operator == 'M' {
            CigarView { align: self.align.push(length), ..self }
        } else if operator == 'I' {
            CigarView { insertion: self.insertion.push(length), ..self }
        } else if operator == 'D' {
            CigarView { deletion: self.deletion.push(length), ..self }
        } else if self.align.len() == 0 {
            CigarView { left_clip: length, ..self }
        } else {
            CigarView { right_clip: length, ..self }
        }
    }

    /// Scans `text` from index `at`, where the length field being read began
    /// at `field`. Each operator ends a field, which must denote a 32-bit
    /// integer; the scan stops at the first that does not. Any other character
    /// belongs to the field it stands in, and text after the last operator is
    /// not read.
    pub open spec fn scan(self, text: Seq<char>, field: int, at: int) -> Scan
        decreases text.len() - at,
    {
        if at < 0 || at >= text.len() {
            Scan { cigar: self, complete: true }
        } else if is_operator(text[at]) {
            match decimal_i32(text.subrange(field, at)) {
                Some(length) => self.record(text[at], length).scan(text, at + 1, at + 1),
                None => Scan { cigar: self, complete: false },
            }
        } else {
            self.scan(text, field, at + 1)
        }
    }

    /// Whether both boundaries of an alignment at `position` fit in 32 bits.
    pub open spec fn boundaries_fit(self, position: int) -> bool {
        &&& i32::MIN <= self.left_at(position) <= i32::MAX
        &&& i32::MIN <= self.right_at(position) <= i32::MAX
    }

    /// The record with its boundaries set for an alignment at `position`.
    pub open spec fn bounded(self, position: int) -> CigarView {
        CigarView {
            left_boundary: self.left_at(position) as i32,
            right_boundary: self.right_at(position) as i32,
            ..self
        }
    }

    /// The record after reading `text` for an alignment at `position`, and
    /// whether the reading succeeded.
    ///
    /// The text becomes the signature. The text `*` adds one matched block of
    /// length zero and leaves the rest as it is. Any other text is scanned,
    /// and the boundaries are then set from the clips and lengths. Reading
    /// fails where the scan stops at a length field, and where a boundary does
    /// not fit in 32 bits; the boundaries are then left as they were.
    pub open spec fn updated(self, text: Seq<char>, position: i32) -> Scan {
        let signed = CigarView { signature: text, ..self };
        if text == unmapped_signature() {
            Scan { cigar: CigarView { align: signed.align.push(0i32), ..signed }, complete: true }
        } else {
            let scanned = signed.scan(text, 0, 0);
            if scanned.complete && scanned.cigar.boundaries_fit(position as int) {
                Scan { cigar: scanned.cigar.bounded(position as int), complete: true }
            } else {
                Scan { cigar: scanned.cigar, complete: false }
            }
        }
    }

    /// What `text` says of an alignment at `position`, read into an empty record.
    pub open spec fn parse(text: Seq<char>, position: i32) -> Scan {
        CigarView::empty().updated(text, position)
    }
}

/// Reading `*` into an empty record gives the record of an unmapped read,
/// whatever the position: one matched block of length zero, no clips, no
/// insertions or deletions, and both boundaries at zero.
pub proof fn lemma_unmapped(position: i32)
    ensures
        CigarView::parse(unmapped_signature(), position).complete,
        CigarView::parse(unmapped_signature(), position).cigar.is_unmapped(),
        CigarView::parse(unmapped_signature(), position).cigar.signature == unmapped_signature(),
{
    assert(CigarView::empty().align.push(0i32) =~= seq![0i32]);
}

/// After any text but `*` has been read with success, the left boundary is
/// the position less the left clip, and the right boundary is the left
/// boundary plus both clips and all matched, inserted and deleted lengths,
/// less one.
pub proof fn lemma_boundaries(before: CigarView, text: Seq<char>, position: i32)
    requires
        text != unmapped_signature(),
        before.updated(text, position).complete,
    ensures
        before.updated(text, position).cigar.left_boundary == position - before.updated(
            text,
            position,
        ).cigar.left_clip,
        before.updated(text, position).cigar.boundaries_consistent(),
{
}

/// Adds up a vector of lengths.
fn sum_lengths(lengths: &Vec<i32>) -> (total: i128)
    ensures
        total == sum(lengths@),
        -0x8000_0000_0000_0000_0000_0000 <= total <= 0x8000_0000_0000_0000_0000_0000,
{
    let mut total: i128 = 0;
    let mut i: usize = 0;
    while i < lengths.len()
        invariant
            i <= lengths.len(),
            total == sum(lengths@.take(i as int)),
            -0x8000_0000 * i <= total <= 0x8000_0000 * i,
        decreases lengths.len() - i,
    {
        assert(lengths@.take(i + 1).drop_last() =~= lengths@.take(i as int));
        total = total + lengths[i] as i128;
        i += 1;
    }
    assert(lengths@.take(i as int) =~= lengths@);
    total
}

impl Clone for CIGAR {
    fn clone(&self) -> (copy: Self)
        ensures
            copy@ == self@,
    {
        CIGAR {
            align: self.align.clone(),
            deletion: self.deletion.clone(),
            insertion: self.insertion.clone(),
            left_boundary: self.left_boundary,
            left_clip: self.left_clip,
            right_boundary: self.right_boundary,
            right_clip: self.right_clip,
            signature: self.signature.clone(),
        }
    }
}

impl CIGAR {
    /// An empty record.
    pub fn new() -> (cigar: Self)
        ensures
            cigar@ == CigarView::empty(),
    {
        CIGAR {
            align: Vec::new(),
            deletion: Vec::new(),
            insertion: Vec::new(),
            left_boundary: 0,
            left_clip: 0,
            right_boundary: 0,
            right_clip: 0,
            signature: String::new(),
        }
    }

    /// Reads an operation string, such as `10H3M2I80M5H`, for an alignment at
    /// the 1-based `position`.
    pub fn load(to_interpret: &str, position: i32) -> (loaded: Result<Self, CommonError>)
        ensures
            match loaded {
                Ok(cigar) => {
                    &&& CigarView::parse(to_interpret@, position).complete
                    &&& cigar@ == CigarView::parse(to_interpret@, position).cigar
                },
                Err(error) => {
                    &&& !CigarView::parse(to_interpret@, position).complete
                    &&& error == CommonError::Parsing
                },
            },
    {
        let mut cigar = CIGAR::new();
        match cigar.update(to_interpret, position) {
            Ok(()) => Ok(cigar),
            Err(error) => Err(error),
        }
    }

    /// Reads an operation string into this record, for an alignment at the
    /// 1-based `position`. Lengths are added behind those already held.
    pub fn update(&mut self, to_interpret: &str, position: i32) -> (updated: Result<
        (),
        CommonError,
    >)
        ensures
            final(self)@ == old(self)@.updated(to_interpret@, position).cigar,
            updated is Ok <==> old(self)@.updated(to_interpret@, position).complete,
            updated matches Err(error) ==> error == CommonError::Parsing,
    {
        self.signature = String::from_str(to_interpret);
        let ghost signed = self@;
        let chars = chars_of(to_interpret);
        if chars.len() == 1 && chars[0] == '*' {
            self.align.push(0);
            assert(to_interpret@ =~= unmapped_signature());
            return Ok(());
        }
        assert(to_interpret@ != unmapped_signature()) by {
            if to_interpret@ == unmapped_signature() {
                assert(unmapped_signature().len() == 1 && unmapped_signature()[0] == '*');
            }
        }
        let mut field: usize = 0;
        let mut at: usize = 0;
        while at < chars.len()
            invariant
                field <= at <= chars.len(),
                chars@ == to_interpret@,
                to_interpret@ != unmapped_signature(),
                signed == (CigarView { signature: to_interpret@, ..old(self)@ }),
                self@.scan(chars@, field as int, at as int) == signed.scan(chars@, 0, 0),
            decreases chars.len() - at,
        {
            let operator = chars[at];
            if operator == 'H' || operator == 'S' || operator == 'M' || operator == 'I'
                || operator == 'D' {
                let length = match parse_i32_chars(&chars, field, at) {
                    Some(length) => length,
                    None => {
                        return Err(CommonError::Parsing);
                    },
                };
                if operator == 'M' {
                    self.align.push(length);
                } else if operator == 'I' {
                    self.insertion.push(length);
                } else if operator == 'D' {
                    self.deletion.push(length);
                } else if self.align.len() == 0 {
                    self.left_clip = length;
                } else {
                    self.right_clip = length;
                }
                field = at + 1;
            }
            at += 1;
        }
        if self.calculate_boundaries(position) {
            Ok(())
        } else {
            Err(CommonError::Parsing)
        }
    }

    /// Sets both boundaries for an alignment at `position`, where they fit in
    /// 32 bits, and says whether they do.
    fn calculate_boundaries(&mut self, position: i32) -> (fit: bool)
        ensures
            fit == old(self)@.boundaries_fit(position as int),
            final(self)@ == if fit {
                old(self)@.bounded(position as int)
            } else {
                old(self)@
            },
    {
        let left = self.calculate_left_boundary(position);
        let right = self.calculate_right_boundary(position);
        if -0x8000_0000 <= left && left <= 0x7fff_ffff && -0x8000_0000 <= right && right
            <= 0x7fff_ffff {
            self.left_boundary = left as i32;
            self.right_boundary = right as i32;
            true
        } else {
            false
        }
    }

    /// Matched, inserted and deleted lengths together.
    fn total_alignment(&self) -> (total: i128)
        ensures
            total == self@.total_alignment(),
            -0x2_0000_0000_0000_0000_0000_0000 <= total <= 0x2_0000_0000_0000_0000_0000_0000,
    {
        let align_sum = sum_lengths(&self.align);
        let insertion_sum = sum_lengths(&self.insertion);
        let deletion_sum = sum_lengths(&self.deletion);
        align_sum + insertion_sum + deletion_sum
    }

    /// The left boundary of an alignment at `position`.
    fn calculate_left_boundary(&self, position: i32) -> (left: i64)
        ensures
            left == self@.left_at(position as int),
    {
        position as i64 - self.left_clip as i64
    }

    /// The right boundary of an alignment at `position`, counted inclusively.
    fn calculate_right_boundary(&self, position: i32) -> (right: i128)
        ensures
            right == self@.right_at(position as int),
    {
        let leftmost = self.calculate_left_boundary(position);
        leftmost as i128 + (self.left_clip as i128 + self.total_alignment()
            + self.right_clip as i128) - 1
    }
}

} // verus!
