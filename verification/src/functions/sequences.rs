use vstd::prelude::*;
use crate::functions::decimal::chars_of;

verus! {

/// The complement of a nucleotide. `A` pairs with `T` and `C` with `G`; the
/// mark `!` becomes `?`; every other character stands for itself.
pub open spec fn complement(nucleotide: char) -> char {
    if nucleotide == '!' {
        '?'
    } else if nucleotide == 'A' {
        'T'
    } else if nucleotide == 'T' {
        'A'
    } else if nucleotide == 'C' {
        'G'
    } else if nucleotide == 'G' {
        'C'
    } else {
        nucleotide
    }
}

/// The complements of a sequence's characters, last character first.
pub open spec fn reverse_complement(sequence: Seq<char>) -> Seq<char> {
    Seq::new(sequence.len(), |i: int| complement(sequence[sequence.len() - 1 - i]))
}

/// Taking the reverse complement twice gives back a sequence that holds no `!`.
pub proof fn lemma_reverse_complement_involution(sequence: Seq<char>)
    requires
        !sequence.contains('!'),
    ensures
        reverse_complement(reverse_complement(sequence)) == sequence,
{
    let twice = reverse_complement(reverse_complement(sequence));
    assert forall|i: int| 0 <= i < sequence.len() implies twice[i] == sequence[i] by {
        assert(sequence.contains(sequence[i]));
    }
    assert(twice =~= sequence);
}

/// `String::push` of the standard library: the string afterwards is the
/// string before with `ch` behind its last character.
pub assume_specification[ String::push ](s: &mut String, ch: char)
    ensures
        final(s)@ == old(s)@.push(ch),
;

/// The complement of a nucleotide.
pub fn complement_of(nucleotide: char) -> (paired: char)
    ensures
        paired == complement(nucleotide),
{
    if nucleotide == '!' {
        '?'
    } else if nucleotide == 'A' {
        'T'
    } else if nucleotide == 'T' {
        'A'
    } else if nucleotide == 'C' {
        'G'
    } else if nucleotide == 'G' {
        'C'
    } else {
        nucleotide
    }
}

/// The reverse complement of a sequence.
pub fn reverse_sequence(sequence: &str) -> (reversed: String)
    ensures
        reversed@ == reverse_complement(sequence@),
{
    let chars = chars_of(sequence);
    let mut reversed = String::new();
    let mut left: usize = chars.len();
    while left > 0
        invariant
            left <= chars.len(),
            chars@ == sequence@,
            reversed@ == reverse_complement(sequence@).take(chars.len() - left),
        decreases left,
    {
        left -= 1;
        reversed.push(complement_of(chars[left]));
        assert(reversed@ =~= reverse_complement(sequence@).take(chars.len() - left));
    }
    assert(reversed@ =~= reverse_complement(sequence@));
    reversed
}

/// Records that carry a read sequence.
pub trait Sequence {
    /// The sequence of the record.
    spec fn sequence(&self) -> Seq<char>;

    /// The sequence of the record.
    fn get_sequence(&self) -> (sequence: &str)
        ensures
            sequence@ == self.sequence(),
    ;

    /// The reverse complement of the record's sequence.
    fn reverse_sequence(&self) -> (reversed: String)
        ensures
            reversed@ == reverse_complement(self.sequence()),
    {
        reverse_sequence(self.get_sequence())
    }
}

} // verus!
