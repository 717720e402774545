use vstd::prelude::*;
use crate::config::Config;
use crate::functions::flag_interpretor::{is_bit_set, is_set};
use crate::structures::chr_anchor::ChrAnchor;
use crate::structures::me_anchor::REVERSE_STRAND_BIT;
use crate::structures::sv_chimeric_pair::SVChimericPair;
use crate::structures::sv_type::SVType;

verus! {

/// The flag bit that says that a read is unmapped.
pub const READ_UNMAPPED_BIT: usize = 3;

/// The distance between the positions of two anchors.
pub open spec fn distance(anchor1: ChrAnchor, anchor2: ChrAnchor) -> int {
    if anchor1.position >= anchor2.position {
        anchor1.position - anchor2.position
    } else {
        anchor2.position - anchor1.position
    }
}

/// Whether a read lies on the reverse strand.
pub open spec fn on_reverse_strand(anchor: ChrAnchor) -> bool {
    is_bit_set(anchor.flag, REVERSE_STRAND_BIT as int)
}

/// Whether a read is unmapped.
pub open spec fn unmapped(anchor: ChrAnchor) -> bool {
    is_bit_set(anchor.flag, READ_UNMAPPED_BIT as int)
}

/// Deletion: the anchors lie at least the expected template length apart.
pub open spec fn is_deletion(anchor1: ChrAnchor, anchor2: ChrAnchor, expected_tlen: i32) -> bool {
    distance(anchor1, anchor2) >= expected_tlen
}

/// Duplication: the first read has a positive template length and neither
/// read lies on the reverse strand.
pub open spec fn is_duplication(anchor1: ChrAnchor, anchor2: ChrAnchor) -> bool {
    anchor1.template_length > 0 && !on_reverse_strand(anchor1) && !on_reverse_strand(anchor2)
}

/// Inversion: both reads lie on the same strand of the same chromosome.
pub open spec fn is_inversion(anchor1: ChrAnchor, anchor2: ChrAnchor) -> bool {
    on_reverse_strand(anchor1) == on_reverse_strand(anchor2) && anchor1.chromosome@
        == anchor2.chromosome@
}

/// Insertion: one of the reads is unmapped.
pub open spec fn is_insertion(anchor1: ChrAnchor, anchor2: ChrAnchor) -> bool {
    unmapped(anchor1) || unmapped(anchor2)
}

/// Translocation: the anchors lie further apart than the translocation
/// distance, or on different chromosomes.
pub open spec fn is_translocation(anchor1: ChrAnchor, anchor2: ChrAnchor, config: Config) -> bool {
    distance(anchor1, anchor2) > config.translocation_distance || anchor1.chromosome@
        != anchor2.chromosome@
}

/// Whether the rule for `sv_type` holds of the two anchors. No rule stands
/// for `Unclassified`.
pub open spec fn matches_rule(
    sv_type: SVType,
    anchor1: ChrAnchor,
    anchor2: ChrAnchor,
    expected_tlen: i32,
    config: Config,
) -> bool {
    match sv_type {
        SVType::Deletion => is_deletion(anchor1, anchor2, expected_tlen),
        SVType::Duplication => is_duplication(anchor1, anchor2),
        SVType::Inversion => is_inversion(anchor1, anchor2),
        SVType::Insertion => is_insertion(anchor1, anchor2),
        SVType::Translocation => is_translocation(anchor1, anchor2, config),
        SVType::Unclassified => false,
    }
}

/// Whether any of the five rules holds of the two anchors.
pub open spec fn any_match(
    anchor1: ChrAnchor,
    anchor2: ChrAnchor,
    expected_tlen: i32,
    config: Config,
) -> bool {
    is_deletion(anchor1, anchor2, expected_tlen) || is_duplication(anchor1, anchor2)
        || is_inversion(anchor1, anchor2) || is_insertion(anchor1, anchor2) || is_translocation(
        anchor1,
        anchor2,
        config,
    )
}

/// The place of a kind of variant in the order in which the rules are
/// evaluated; zero for `Unclassified`, which has no rule.
pub open spec fn evaluation_rank(sv_type: SVType) -> int {
    match sv_type {
        SVType::Unclassified => 0,
        SVType::Deletion => 1,
        SVType::Duplication => 2,
        SVType::Inversion => 3,
        SVType::Insertion => 4,
        SVType::Translocation => 5,
    }
}

/// The tag of a pair after the rules have been evaluated in their order:
/// deletion, duplication, inversion, insertion, translocation. The rules do
/// not exclude one another. Each rule that holds replaces the tag, so the
/// last rule that holds decides, and the tag stays `before` where none holds.
pub open spec fn tag_after(
    before: SVType,
    anchor1: ChrAnchor,
    anchor2: ChrAnchor,
    expected_tlen: i32,
    config: Config,
) -> SVType {
    if is_translocation(anchor1, anchor2, config) {
        SVType::Translocation
    } else if is_insertion(anchor1, anchor2) {
        SVType::Insertion
    } else if is_inversion(anchor1, anchor2) {
        SVType::Inversion
    } else if is_duplication(anchor1, anchor2) {
        SVType::Duplication
    } else if is_deletion(anchor1, anchor2, expected_tlen) {
        SVType::Deletion
    } else {
        before
    }
}

/// Where a rule holds, the tag of the pair is the kind of a rule that holds,
/// and no rule that is evaluated later holds. So anchors that lie at least the
/// expected template length apart are tagged `Deletion` unless a later rule
/// holds as well, and the tag is then the kind of that later rule.
pub proof fn lemma_last_match_decides(
    before: SVType,
    anchor1: ChrAnchor,
    anchor2: ChrAnchor,
    expected_tlen: i32,
    config: Config,
)
    requires
        any_match(anchor1, anchor2, expected_tlen, config),
    ensures
        matches_rule(
            tag_after(before, anchor1, anchor2, expected_tlen, config),
            anchor1,
            anchor2,
            expected_tlen,
            config,
        ),
        forall|later: SVType|
            evaluation_rank(later) > evaluation_rank(
                tag_after(before, anchor1, anchor2, expected_tlen, config),
            ) ==> !#[trigger] matches_rule(later, anchor1, anchor2, expected_tlen, config),
        distance(anchor1, anchor2) >= expected_tlen ==> evaluation_rank(
            tag_after(before, anchor1, anchor2, expected_tlen, config),
        ) >= evaluation_rank(SVType::Deletion),
{
}

/// Reads on different chromosomes are tagged `Translocation`, whatever other
/// rule holds of them.
pub proof fn lemma_different_chromosomes(
    before: SVType,
    anchor1: ChrAnchor,
    anchor2: ChrAnchor,
    expected_tlen: i32,
    config: Config,
)
    requires
        anchor1.chromosome@ != anchor2.chromosome@,
    ensures
        tag_after(before, anchor1, anchor2, expected_tlen, config) == SVType::Translocation,
        any_match(anchor1, anchor2, expected_tlen, config),
{
}

/// The distance between the positions of two anchors.
fn position_distance(anchor1: &ChrAnchor, anchor2: &ChrAnchor) -> (apart: i64)
    ensures
        apart == distance(*anchor1, *anchor2),
{
    let difference: i64 = anchor1.position as i64 - anchor2.position as i64;
    if difference >= 0 {
        difference
    } else {
        -difference
    }
}

/// Tags the pair `Deletion` where the deletion rule holds of its primary anchors.
fn sv_deletion(pair: &mut SVChimericPair, expected_tlen: i32) -> (found: bool)
    requires
        old(pair).anchored(),
    ensures
        found == is_deletion(
            old(pair).read1.chr_read@[0],
            old(pair).read2.chr_read@[0],
            expected_tlen,
        ),
        *final(pair) == (SVChimericPair {
            sv_tag: if found { SVType::Deletion } else { old(pair).sv_tag },
            ..*old(pair)
        }),
{
    if position_distance(&pair.read1.chr_read[0], &pair.read2.chr_read[0]) >= expected_tlen as i64 {
        pair.sv_tag = SVType::Deletion;
        true
    } else {
        false
    }
}

/// Tags the pair `Duplication` where the duplication rule holds of its primary anchors.
fn sv_duplication(pair: &mut SVChimericPair) -> (found: bool)
    requires
        old(pair).anchored(),
    ensures
        found == is_duplication(old(pair).read1.chr_read@[0], old(pair).read2.chr_read@[0]),
        *final(pair) == (SVChimericPair {
            sv_tag: if found { SVType::Duplication } else { old(pair).sv_tag },
            ..*old(pair)
        }),
{
    if pair.read1.chr_read[0].template_length > 0 && !is_set(
        pair.read1.chr_read[0].flag,
        REVERSE_STRAND_BIT,
    ) && !is_set(pair.read2.chr_read[0].flag, REVERSE_STRAND_BIT) {
        pair.sv_tag = SVType::Duplication;
        true
    } else {
        false
    }
}

/// Tags the pair `Inversion` where the inversion rule holds of its primary anchors.
fn sv_inversion(pair: &mut SVChimericPair) -> (found: bool)
    requires
        old(pair).anchored(),
    ensures
        found == is_inversion(old(pair).read1.chr_read@[0], old(pair).read2.chr_read@[0]),
        *final(pair) == (SVChimericPair {
            sv_tag: if found { SVType::Inversion } else { old(pair).sv_tag },
            ..*old(pair)
        }),
{
    if is_set(pair.read1.chr_read[0].flag, REVERSE_STRAND_BIT) == is_set(
        pair.read2.chr_read[0].flag,
        REVERSE_STRAND_BIT,
    ) && pair.read1.chr_read[0].chromosome == pair.read2.chr_read[0].chromosome {
        pair.sv_tag = SVType::Inversion;
        true
    } else {
        false
    }
}

/// Tags the pair `Insertion` where the insertion rule holds of its primary anchors.
fn sv_insertion(pair: &mut SVChimericPair) -> (found: bool)
    requires
        old(pair).anchored(),
    ensures
        found == is_insertion(old(pair).read1.chr_read@[0], old(pair).read2.chr_read@[0]),
        *final(pair) == (SVChimericPair {
            sv_tag: if found { SVType::Insertion } else { old(pair).sv_tag },
            ..*old(pair)
        }),
{
    if is_set(pair.read1.chr_read[0].flag, READ_UNMAPPED_BIT) || is_set(
        pair.read2.chr_read[0].flag,
        READ_UNMAPPED_BIT,
    ) {
        pair.sv_tag = SVType::Insertion;
        true
    } else {
        false
    }
}

/// Tags the pair `Translocation` where the translocation rule holds of its primary anchors.
fn sv_translocation(pair: &mut SVChimericPair, config: &Config) -> (found: bool)
    requires
        old(pair).anchored(),
    ensures
        found == is_translocation(
            old(pair).read1.chr_read@[0],
            old(pair).read2.chr_read@[0],
            *config,
        ),
        *final(pair) == (SVChimericPair {
            sv_tag: if found { SVType::Translocation } else { old(pair).sv_tag },
            ..*old(pair)
        }),
{
    if position_distance(&pair.read1.chr_read[0], &pair.read2.chr_read[0])
        > config.translocation_distance as i64 || !(pair.read1.chr_read[0].chromosome
        == pair.read2.chr_read[0].chromosome) {
        pair.sv_tag = SVType::Translocation;
        true
    } else {
        false
    }
}

/// Classifies a pair by the primary chromosomal anchors of its reads, with
/// the thresholds of `config`. The five rules are evaluated in their order and
/// each that holds replaces the tag, as [`tag_after`] says. Returns whether
/// any rule held.
pub fn identify_with(pair: &mut SVChimericPair, expected_tlen: i32, config: &Config) -> (identified:
    bool)
    requires
        old(pair).anchored(),
    ensures
        *final(pair) == (SVChimericPair {
            sv_tag: tag_after(
                old(pair).sv_tag,
                old(pair).read1.chr_read@[0],
                old(pair).read2.chr_read@[0],
                expected_tlen,
                *config,
            ),
            ..*old(pair)
        }),
        identified == any_match(
            old(pair).read1.chr_read@[0],
            old(pair).read2.chr_read@[0],
            expected_tlen,
            *config,
        ),
{
    let deletion = sv_deletion(pair, expected_tlen);
    let duplication = sv_duplication(pair);
    let inversion = sv_inversion(pair);
    let insertion = sv_insertion(pair);
    let translocation = sv_translocation(pair, config);
    deletion || duplication || inversion || insertion || translocation
}

/// Classifies a pair by the primary chromosomal anchors of its reads, with
/// the standard thresholds.
pub fn identify(pair: &mut SVChimericPair, expected_tlen: i32) -> (identified: bool)
    requires
        old(pair).anchored(),
    ensures
        *final(pair) == (SVChimericPair {
            sv_tag: tag_after(
                old(pair).sv_tag,
                old(pair).read1.chr_read@[0],
                old(pair).read2.chr_read@[0],
                expected_tlen,
                Config::standard(),
            ),
            ..*old(pair)
        }),
        identified == any_match(
            old(pair).read1.chr_read@[0],
            old(pair).read2.chr_read@[0],
            expected_tlen,
            Config::standard(),
        ),
{
    let config = Config::new();
    identify_with(pair, expected_tlen, &config)
}

/// Records that can be classified as a kind of structural variant.
pub trait SVIdentify: Sized {
    /// Whether the record holds what the rules read.
    spec fn classifiable(&self) -> bool;

    /// The record after classification.
    spec fn classified(self, expected_tlen: i32) -> Self;

    /// Whether any rule holds of the record.
    spec fn matched(&self, expected_tlen: i32) -> bool;

    /// Classifies the record and says whether any rule held.
    fn identify(&mut self, expected_tlen: i32) -> (identified: bool)
        requires
            old(self).classifiable(),
        ensures
            *final(self) == old(self).classified(expected_tlen),
            identified == old(self).matched(expected_tlen),
    ;
}

impl SVIdentify for SVChimericPair {
    open spec fn classifiable(&self) -> bool {
        self.anchored()
    }

    open spec fn classified(self, expected_tlen: i32) -> Self {
        SVChimericPair {
            sv_tag: tag_after(
                self.sv_tag,
                self.read1.chr_read@[0],
                self.read2.chr_read@[0],
                expected_tlen,
                Config::standard(),
            ),
            ..self
        }
    }

    open spec fn matched(&self, expected_tlen: i32) -> bool {
        any_match(self.read1.chr_read@[0], self.read2.chr_read@[0], expected_tlen, Config::standard())
    }

    fn identify(&mut self, expected_tlen: i32) -> (identified: bool) {
        identify(self, expected_tlen)
    }
}

} // verus!
