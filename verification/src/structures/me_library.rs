use vstd::prelude::*;

verus! {

/// One entry of a library of mobile elements.
#[derive(Debug, Clone, PartialEq, Eq)]
pub struct MELibrary {
    /// The bases of the element.
    pub sequence: String,
    /// Length of the element.
    pub size: u32,
}

impl MELibrary {
    /// An entry with nothing loaded.
    pub fn new() -> (entry: Self)
        ensures
            entry.sequence@.len() == 0,
            entry.size == 0,
    {
        MELibrary { sequence: String::new(), size: 0 }
    }
}

} // verus!
