use vstd::prelude::*;
use vstd::string::StrSliceExecFns;
use vstd::string::StringExecFns;
use crate::error::CommonError;

verus! {

/// Number of bases kept on the far side of a junction.
pub const CLEAVE: i64 = 10;

/// The window of a read around the junction of a mobile element and its flank.
#[derive(Debug, Clone, PartialEq, Eq)]
pub struct BreakPoint {
    /// The bases of the window.
    pub sequence: String,
    /// Where the junction lies, counted from the boundary of the alignment.
    pub coordinate: i64,
}

/// The mathematical content of a [`BreakPoint`].
pub struct BreakPointView {
    pub sequence: Seq<char>,
    pub coordinate: int,
}

impl View for BreakPoint {
    type V = BreakPointView;

    open spec fn view(&self) -> BreakPointView {
        BreakPointView { sequence: self.sequence@, coordinate: self.coordinate as int }
    }
}

/// The coordinate of a junction that lies `offset` past the limit of the reference.
pub open spec fn coordinate_of(offset: int) -> int {
    -offset + 1
}

/// The window of `sequence` around a junction that lies `offset` past the
/// limit of the reference, if the read is long enough to hold it.
///
/// An offset of zero or less puts the junction at the start of the element:
/// the window is the first `coordinate + CLEAVE` bases. A positive offset puts
/// it at the end: the window is the last `offset + CLEAVE` bases.
pub open spec fn window_of(sequence: Seq<char>, offset: int) -> Option<Seq<char>> {
    if offset <= 0 {
        let length = coordinate_of(offset) + CLEAVE;
        if length <= sequence.len() {
            Some(sequence.take(length))
        } else {
            None
        }
    } else {
        let start = sequence.len() - offset - CLEAVE;
        if start >= 0 {
            Some(sequence.skip(start))
        } else {
            None
        }
    }
}

/// The breakpoint of a read for a junction at `offset`, if the read holds its window.
pub open spec fn break_point_of(sequence: Seq<char>, offset: int) -> Option<BreakPointView> {
    match window_of(sequence, offset) {
        Some(window) => Some(
            BreakPointView { sequence: window, coordinate: coordinate_of(offset) },
        ),
        None => None,
    }
}

/// A window holds `CLEAVE` bases on the far side of the junction and the
/// bases up to the junction on the near side: `coordinate + CLEAVE` bases at
/// the start of an element, `offset + CLEAVE` bases at its end.
pub proof fn lemma_window_length(sequence: Seq<char>, offset: int)
    requires
        window_of(sequence, offset) is Some,
    ensures
        offset <= 0 ==> window_of(sequence, offset)->Some_0.len() == coordinate_of(offset) + CLEAVE,
        offset > 0 ==> window_of(sequence, offset)->Some_0.len() == offset + CLEAVE,
        window_of(sequence, offset)->Some_0.len() <= sequence.len(),
{
}

impl BreakPoint {
    /// An empty breakpoint at coordinate zero.
    pub fn new() -> (breakpoint: Self)
        ensures
            breakpoint@ == (BreakPointView { sequence: Seq::empty(), coordinate: 0 }),
    {
        BreakPoint { sequence: String::new(), coordinate: 0 }
    }

    /// The breakpoint of the read `sequence` for a junction that lies `offset`
    /// past the limit of the reference.
    pub fn load(sequence: &str, offset: i32) -> (loaded: Result<Self, CommonError>)
        ensures
            match break_point_of(sequence@, offset as int) {
                Some(expected) => loaded matches Ok(breakpoint) && breakpoint@ == expected,
                None => loaded == Err::<Self, CommonError>(CommonError::BreakpointWindow),
            },
    {
        let mut breakpoint = BreakPoint::new();
        match breakpoint.update(sequence, offset) {
            Ok(()) => Ok(breakpoint),
            Err(error) => Err(error),
        }
    }

    /// Replaces this breakpoint by that of the read `sequence` for a junction
    /// that lies `offset` past the limit of the reference. Where the read does
    /// not hold the window, nothing changes.
    pub fn update(&mut self, sequence: &str, offset: i32) -> (updated: Result<(), CommonError>)
        ensures
            match break_point_of(sequence@, offset as int) {
                Some(expected) => updated is Ok && final(self)@ == expected,
                None => updated == Err::<(), CommonError>(CommonError::BreakpointWindow)
                    && *final(self) == *old(self),
            },
    {
        let available = sequence.unicode_len();
        let coordinate: i64 = 1 - offset as i64;
        if offset <= 0 {
            let length: i64 = coordinate + CLEAVE;
            if length as u64 > available as u64 {
                return Err(CommonError::BreakpointWindow);
            }
            let window = sequence.substring_char(0, length as usize);
            self.sequence = String::from_str(window);
        } else {
            let kept: i64 = offset as i64 + CLEAVE;
            if kept as u64 > available as u64 {
                return Err(CommonError::BreakpointWindow);
            }
            let window = sequence.substring_char(available - kept as usize, available);
            self.sequence = String::from_str(window);
        }
        self.coordinate = coordinate;
        Ok(())
    }
}

} // verus!
