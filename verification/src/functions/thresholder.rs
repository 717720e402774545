use vstd::prelude::*;

verus! {

/// How many of the piles hold exactly `size` reads.
pub open spec fn piles_of(piles: Seq<usize>, size: int) -> nat
    decreases piles.len(),
{
    if piles.len() == 0 {
        0
    } else {
        let counted = piles_of(piles.drop_last(), size);
        if piles.last() == size {
            counted + 1
        } else {
            counted
        }
    }
}

/// The sum of a sequence of counts.
pub open spec fn total(counts: Seq<u64>) -> int
    decreases counts.len(),
{
    if counts.len() == 0 {
        0
    } else {
        total(counts.drop_last()) + counts.last()
    }
}

/// What slot `slot` of a table of `psize` slots holds: the number of piles of
/// `slot + 1` reads, and nothing in the last slot.
pub open spec fn table_entry(piles: Seq<usize>, psize: int, slot: int) -> nat {
    if slot + 1 < psize {
        piles_of(piles, slot + 1)
    } else {
        0
    }
}

/// The sum of the slots of a table up to and including slot `place`.
pub open spec fn cumulative_entry(piles: Seq<usize>, psize: int, place: int) -> nat
    decreases place + 1,
{
    if place < 0 {
        0
    } else {
        cumulative_entry(piles, psize, place - 1) + table_entry(piles, psize, place)
    }
}

/// Whether `counts` is the table of `psize` slots of the piles.
pub open spec fn is_table(piles: Seq<usize>, psize: int, counts: Seq<u64>) -> bool {
    &&& counts.len() == psize
    &&& forall|slot: int|
        0 <= slot < psize ==> #[trigger] counts[slot] == table_entry(piles, psize, slot)
}

/// Whether `sums` holds the running sums of `counts`: each entry is the sum
/// of the counts up to and including its own place.
pub open spec fn is_cumsum(counts: Seq<u64>, sums: Seq<u64>) -> bool {
    &&& sums.len() == counts.len()
    &&& forall|place: int|
        0 <= place < counts.len() ==> #[trigger] sums[place] == total(counts.take(place + 1))
}

/// Raising one count by one raises the sum by one.
proof fn lemma_total_raised(counts: Seq<u64>, slot: int, raised: u64)
    requires
        0 <= slot < counts.len(),
        raised == counts[slot] + 1,
    ensures
        total(counts.update(slot, raised)) == total(counts) + 1,
    decreases counts.len(),
{
    let after = counts.update(slot, raised);
    if slot == counts.len() - 1 {
        assert(after.drop_last() =~= counts.drop_last());
    } else {
        assert(after.drop_last() =~= counts.drop_last().update(slot, raised));
        lemma_total_raised(counts.drop_last(), slot, raised);
    }
}

/// A sequence of zeros sums to zero.
proof fn lemma_total_of_zeros(counts: Seq<u64>)
    requires
        forall|slot: int| 0 <= slot < counts.len() ==> counts[slot] == 0,
    ensures
        total(counts) == 0,
    decreases counts.len(),
{
    if counts.len() > 0 {
        lemma_total_of_zeros(counts.drop_last());
    }
}

/// The sum of the first counts is at most the sum of all of them.
proof fn lemma_total_grows(counts: Seq<u64>, place: int)
    requires
        0 <= place <= counts.len(),
    ensures
        0 <= total(counts.take(place)) <= total(counts),
    decreases counts.len() - place,
{
    if place == counts.len() {
        assert(counts.take(place) =~= counts);
        lemma_total_grows_from_zero(counts);
    } else {
        lemma_total_grows(counts, place + 1);
        assert(counts.take(place + 1).drop_last() =~= counts.take(place));
        lemma_total_grows_from_zero(counts.take(place));
    }
}

/// A sum of counts is not negative.
proof fn lemma_total_grows_from_zero(counts: Seq<u64>)
    ensures
        0 <= total(counts),
    decreases counts.len(),
{
    if counts.len() > 0 {
        lemma_total_grows_from_zero(counts.drop_last());
    }
}

/// Tabulates piles of reads by their size. Slot `k - 1` of the table holds
/// the number of piles of exactly `k` reads, for every `k` from 1 below
/// `psize`; the last of the `psize` slots stays empty, and piles of no reads
/// or of `psize` reads and more are not counted. The counts add up to at most
/// the number of piles.
pub fn table(piles: &Vec<usize>, psize: usize) -> (counts: Vec<u64>)
    ensures
        is_table(piles@, psize as int, counts@),
        total(counts@) <= piles@.len(),
{
    let mut counts: Vec<u64> = Vec::new();
    let mut slot: usize = 0;
    while slot < psize
        invariant
            slot <= psize,
            counts@.len() == slot,
            forall|k: int| 0 <= k < slot ==> counts@[k] == 0,
        decreases psize - slot,
    {
        counts.push(0);
        slot += 1;
    }
    proof {
        lemma_total_of_zeros(counts@);
    }
    let mut i: usize = 0;
    while i < piles.len()
        invariant
            i <= piles.len(),
            is_table(piles@.take(i as int), psize as int, counts@),
            total(counts@) <= i,
        decreases piles.len() - i,
    {
        let size = piles[i];
        let ghost before = counts@;
        assert(piles@.take(i + 1).drop_last() =~= piles@.take(i as int));
        if 0 < size && size < psize {
            let counted = counts[size - 1];
            proof {
                lemma_total_grows(before, size as int);
                assert(before.take(size as int).drop_last() =~= before.take(size - 1));
                lemma_total_grows_from_zero(before.take(size - 1));
                lemma_total_raised(before, size - 1, (counted + 1) as u64);
            }
            counts.set(size - 1, counted + 1);
        }
        i += 1;
    }
    assert(piles@.take(i as int) =~= piles@);
    counts
}

/// Replaces each count by the sum of the counts up to and including it.
pub fn cumsum(cum_vec: Vec<u64>) -> (sums: Vec<u64>)
    requires
        total(cum_vec@) <= u64::MAX,
    ensures
        is_cumsum(cum_vec@, sums@),
{
    let mut sums = cum_vec;
    let mut cumulus: u64 = 0;
    let mut place: usize = 0;
    while place < sums.len()
        invariant
            place <= sums@.len(),
            sums@.len() == cum_vec@.len(),
            total(cum_vec@) <= u64::MAX,
            cumulus == total(cum_vec@.take(place as int)),
            forall|k: int| 0 <= k < place ==> #[trigger] sums@[k] == total(cum_vec@.take(k + 1)),
            forall|k: int| place <= k < sums@.len() ==> sums@[k] == cum_vec@[k],
        decreases sums@.len() - place,
    {
        proof {
            lemma_total_grows(cum_vec@, place + 1);
            assert(cum_vec@.take(place + 1).drop_last() =~= cum_vec@.take(place as int));
        }
        cumulus = cumulus + sums[place];
        sums.set(place, cumulus);
        place += 1;
    }
    sums
}

/// The running sums of a table are the cumulative entries of the piles.
proof fn lemma_cumulative(piles: Seq<usize>, psize: int, counts: Seq<u64>, place: int)
    requires
        is_table(piles, psize, counts),
        -1 <= place < psize,
    ensures
        total(counts.take(place + 1)) == cumulative_entry(piles, psize, place),
    decreases place + 1,
{
    if place >= 0 {
        lemma_cumulative(piles, psize, counts, place - 1);
        assert(counts.take(place + 1).drop_last() =~= counts.take(place));
    }
}

/// For each size below `psize`, the number of piles that the [`table`] of
/// the piles counts up to that size: the running sums of the table.
pub fn cumulative_table(piles: &Vec<usize>, psize: usize) -> (sums: Vec<u64>)
    ensures
        sums@.len() == psize,
        forall|place: int|
            0 <= place < psize ==> #[trigger] sums@[place] == cumulative_entry(
                piles@,
                psize as int,
                place,
            ),
{
    let counts = table(piles, psize);
    assert(piles@.len() == piles.len() <= u64::MAX);
    let sums = cumsum(counts);
    assert forall|place: int| 0 <= place < psize implies #[trigger] sums@[place]
        == cumulative_entry(piles@, psize as int, place) by {
        lemma_cumulative(piles@, psize as int, counts@, place);
    }
    sums
}

} // verus!
