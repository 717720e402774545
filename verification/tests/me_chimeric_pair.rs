use genomic_structures::ChrAnchorEnum::{Read1, Read2, Unresolved};
use genomic_structures::OrientationEnum::{Downstream, Palindromic, Untagged, Upstream};
use genomic_structures::{
    resolve, ChrAnchorEnum, MEAnchor, MEChimericPair, MEChimericRead, OrientationEnum,
};

fn anchor(position: i32, orientation: OrientationEnum) -> MEAnchor {
    let mut me_anchor = MEAnchor::new();
    me_anchor.orientation = orientation;
    match orientation {
        Upstream => me_anchor.cigar.left_boundary = position,
        Downstream => me_anchor.cigar.right_boundary = position,
        _ => (),
    }
    me_anchor
}

fn pair(
    read1: &[(i32, OrientationEnum)],
    read2: &[(i32, OrientationEnum)],
) -> MEChimericPair {
    let mut me_chimeric_pair = MEChimericPair::new();
    for (position, orientation) in read1 {
        me_chimeric_pair.read1.me_read.push(anchor(*position, *orientation));
    }
    for (position, orientation) in read2 {
        me_chimeric_pair.read2.me_read.push(anchor(*position, *orientation));
    }
    me_chimeric_pair
}

fn tagged(
    read1: &[(i32, OrientationEnum)],
    read2: &[(i32, OrientationEnum)],
) -> ChrAnchorEnum {
    let mut me_chimeric_pair = pair(read1, read2);
    me_chimeric_pair.tag();
    me_chimeric_pair.chosen_anchor
}

fn retrieved(sequence: &str) -> String {
    let mut me_chimeric_pair = MEChimericPair::new();
    me_chimeric_pair.read1.sequence = sequence.to_string();
    me_chimeric_pair.get_chr_anchor().sequence.clone()
}

#[test]
fn chimeric_pair_get01() {
    assert_eq!(retrieved("AAAAAAA"), "AAAAAAA");
}

#[test]
fn chimeric_pair_get02() {
    assert_eq!(retrieved("MACTHAA"), "MACTHAA");
}

#[test]
fn chimeric_pair_get03() {
    assert_eq!(retrieved("CAAGAAC"), "CAAGAAC");
}

#[test]
fn chimeric_pair_get04() {
    assert_eq!(retrieved("GATTACA"), "GATTACA");
}

#[test]
fn chimeric_pair_get_the_chosen_read() {
    let mut me_chimeric_pair = MEChimericPair::new();
    me_chimeric_pair.read1.sequence = "GATTACA".to_string();
    me_chimeric_pair.read2.sequence = "TGTAATC".to_string();
    assert_eq!(me_chimeric_pair.get_chr_anchor().sequence, "GATTACA");
    me_chimeric_pair.chosen_anchor = Read1;
    assert_eq!(me_chimeric_pair.get_chr_anchor().sequence, "GATTACA");
    me_chimeric_pair.chosen_anchor = Read2;
    assert_eq!(me_chimeric_pair.get_chr_anchor().sequence, "TGTAATC");
}

#[test]
fn chimeric_pair_load() {
    let me_anchor = anchor(50, Upstream);
    let loaded = MEChimericPair::load(me_anchor.clone());
    let manual = MEChimericPair {
        read1: MEChimericRead::load(me_anchor),
        read2: MEChimericRead::new(),
        chosen_anchor: Unresolved,
    };
    assert_eq!(loaded, manual);
}

#[test]
fn chimeric_pair_tag00() {
    assert_eq!(tagged(&[(0, Untagged), (0, Untagged)], &[(0, Untagged), (0, Untagged)]), Unresolved);
}

#[test]
fn chimeric_pair_tag01() {
    assert_eq!(tagged(&[(50, Upstream), (75, Upstream)], &[(1000, Downstream)]), Unresolved);
}

#[test]
fn chimeric_pair_tag02() {
    assert_eq!(
        tagged(&[(0, Untagged), (75, Upstream)], &[(1050, Downstream), (75, Upstream)]),
        Unresolved
    );
}

#[test]
fn chimeric_pair_tag03() {
    assert_eq!(
        tagged(&[(50, Downstream), (75, Upstream)], &[(50, Upstream), (75, Upstream)]),
        Unresolved
    );
}

#[test]
fn chimeric_pair_tag10() {
    assert_eq!(
        tagged(&[(100, Upstream), (50, Upstream)], &[(50, Upstream), (75, Upstream)]),
        Unresolved
    );
}

#[test]
fn chimeric_pair_tag11() {
    assert_eq!(
        tagged(&[(100, Upstream), (50, Upstream)], &[(150, Upstream), (75, Upstream)]),
        Read1
    );
}

#[test]
fn chimeric_pair_tag12() {
    assert_eq!(
        tagged(&[(100, Upstream), (150, Upstream)], &[(150, Upstream), (75, Upstream)]),
        Read2
    );
}

#[test]
fn chimeric_pair_tag13() {
    assert_eq!(
        tagged(
            &[(100, Upstream), (50, Upstream), (10000, Downstream)],
            &[(150, Upstream), (75, Upstream), (0, Untagged)]
        ),
        Read1
    );
}

#[test]
fn chimeric_pair_tag14() {
    assert_eq!(
        tagged(
            &[(100, Upstream), (150, Upstream), (0, Untagged), (0, Palindromic)],
            &[(150, Upstream), (75, Upstream), (75, Upstream)]
        ),
        Read2
    );
}

#[test]
fn chimeric_pair_tag15() {
    assert_eq!(
        tagged(
            &[(150, Upstream), (75, Upstream), (75, Upstream)],
            &[(0, Untagged), (0, Untagged)]
        ),
        Read2
    );
}

#[test]
fn chimeric_pair_tag16() {
    assert_eq!(
        tagged(
            &[(0, Untagged), (0, Untagged)],
            &[(150, Upstream), (75, Upstream), (75, Upstream)]
        ),
        Read1
    );
}

#[test]
fn chimeric_pair_tag20() {
    assert_eq!(
        tagged(
            &[(10100, Downstream), (10050, Downstream)],
            &[(10100, Downstream), (10075, Downstream)]
        ),
        Unresolved
    );
}

#[test]
fn chimeric_pair_tag21() {
    assert_eq!(
        tagged(
            &[(10150, Downstream), (10075, Downstream)],
            &[(10100, Downstream), (10050, Downstream)]
        ),
        Read1
    );
}

#[test]
fn chimeric_pair_tag22() {
    assert_eq!(
        tagged(
            &[(10150, Downstream), (10075, Downstream)],
            &[(10100, Downstream), (10250, Downstream)]
        ),
        Read2
    );
}

#[test]
fn chimeric_pair_tag23() {
    assert_eq!(
        tagged(
            &[(10150, Downstream), (10075, Downstream), (0, Untagged)],
            &[(10100, Downstream), (10050, Downstream), (100, Upstream)]
        ),
        Read1
    );
}

#[test]
fn chimeric_pair_tag24() {
    assert_eq!(
        tagged(
            &[(10100, Downstream), (10050, Downstream), (0, Untagged), (0, Palindromic)],
            &[(10150, Downstream), (10075, Downstream), (10075, Downstream)]
        ),
        Read2
    );
}

#[test]
fn chimeric_pair_tag25() {
    assert_eq!(
        tagged(
            &[(10150, Downstream), (1075, Downstream), (1075, Downstream)],
            &[(0, Untagged), (0, Untagged)]
        ),
        Read2
    );
}

#[test]
fn chimeric_pair_tag26() {
    assert_eq!(
        tagged(
            &[(0, Untagged), (0, Untagged)],
            &[(10150, Downstream), (1075, Downstream), (1075, Downstream)]
        ),
        Read1
    );
}

#[test]
fn chimeric_pair_tag_sets_both_reads() {
    let mut me_chimeric_pair = pair(
        &[(100, Upstream), (50, Upstream)],
        &[(10150, Downstream), (75, Upstream), (10075, Downstream)],
    );
    me_chimeric_pair.read1.orientation = Downstream;
    let mut manual = me_chimeric_pair.clone();
    me_chimeric_pair.tag();
    manual.read1.orientation = Upstream;
    manual.read2.orientation = Downstream;
    manual.chosen_anchor = Unresolved;
    assert_eq!(me_chimeric_pair, manual);
}

#[test]
fn resolve_both_untagged() {
    assert_eq!(resolve(Untagged, 0, Untagged, 0), Unresolved);
    assert_eq!(resolve(Untagged, 50, Untagged, 150), Unresolved);
}

#[test]
fn resolve_both_upstream() {
    assert_eq!(resolve(Upstream, 50, Upstream, 150), Read1);
    assert_eq!(resolve(Upstream, 150, Upstream, 50), Read2);
    assert_eq!(resolve(Upstream, 50, Upstream, 50), Unresolved);
    assert_eq!(resolve(Upstream, i32::MIN, Upstream, i32::MAX), Read1);
}

#[test]
fn resolve_both_downstream() {
    assert_eq!(resolve(Downstream, 50, Downstream, 150), Read2);
    assert_eq!(resolve(Downstream, 150, Downstream, 50), Read1);
    assert_eq!(resolve(Downstream, 50, Downstream, 50), Unresolved);
    assert_eq!(resolve(Downstream, i32::MIN, Downstream, i32::MAX), Read2);
}

#[test]
fn resolve_one_read_tagged() {
    assert_eq!(resolve(Upstream, 50, Untagged, 0), Read2);
    assert_eq!(resolve(Untagged, 0, Upstream, 50), Read1);
    assert_eq!(resolve(Downstream, 50, Untagged, 0), Read2);
    assert_eq!(resolve(Untagged, 0, Downstream, 50), Read1);
}

#[test]
fn resolve_table() {
    let orientations = [Upstream, Downstream, Palindromic, Untagged];
    for orientation1 in orientations {
        for orientation2 in orientations {
            for (edge1, edge2) in [(50, 150), (150, 50), (50, 50)] {
                let expected = match (orientation1, orientation2) {
                    (Upstream, Upstream) if edge1 < edge2 => Read1,
                    (Upstream, Upstream) if edge1 > edge2 => Read2,
                    (Downstream, Downstream) if edge1 < edge2 => Read2,
                    (Downstream, Downstream) if edge1 > edge2 => Read1,
                    (Upstream, Untagged) | (Downstream, Untagged) => Read2,
                    (Untagged, Upstream) | (Untagged, Downstream) => Read1,
                    _ => Unresolved,
                };
                assert_eq!(resolve(orientation1, edge1, orientation2, edge2), expected);
            }
        }
    }
}

#[test]
fn resolve_exchanged_reads() {
    let orientations = [Upstream, Downstream, Palindromic, Untagged];
    for orientation1 in orientations {
        for orientation2 in orientations {
            for (edge1, edge2) in [(50, 150), (150, 50), (50, 50)] {
                let mate = match resolve(orientation1, edge1, orientation2, edge2) {
                    Read1 => Read2,
                    Read2 => Read1,
                    Unresolved => Unresolved,
                };
                assert_eq!(resolve(orientation2, edge2, orientation1, edge1), mate);
            }
        }
    }
}
