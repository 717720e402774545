use genomic_structures::{
    BreakPoint, ChrAnchor, CommonError, ExtraValuesEnum, MEAnchor, MEChimericRead,
    OrientationEnum, RawValues, CIGAR,
};
use genomic_structures::OrientationEnum::{Downstream, Palindromic, Untagged, Upstream};

fn anchor(position: i32, orientation: OrientationEnum) -> MEAnchor {
    let mut me_anchor = MEAnchor::new();
    me_anchor.orientation = orientation;
    match orientation {
        Upstream => me_anchor.cigar.left_boundary = position,
        Downstream => me_anchor.cigar.right_boundary = position,
        _ => (),
    }
    me_anchor
}

fn read(anchors: &[(i32, OrientationEnum)]) -> MEChimericRead {
    let mut me_chimeric_read = MEChimericRead::new();
    for (position, orientation) in anchors {
        me_chimeric_read.me_read.push(anchor(*position, *orientation));
    }
    me_chimeric_read
}

fn tagged(orientations: &[OrientationEnum]) -> OrientationEnum {
    let mut me_chimeric_read = MEChimericRead::new();
    for orientation in orientations {
        me_chimeric_read.me_read.push(anchor(0, *orientation));
    }
    me_chimeric_read.tag();
    me_chimeric_read.orientation
}

fn edge(anchors: &[(i32, OrientationEnum)]) -> i32 {
    let mut me_chimeric_read = read(anchors);
    me_chimeric_read.tag();
    me_chimeric_read.edge()
}

fn count(orientation: OrientationEnum, orientations: &[OrientationEnum]) -> usize {
    let mut me_chimeric_read = MEChimericRead::new();
    for each in orientations {
        me_chimeric_read.me_read.push(anchor(0, *each));
    }
    me_chimeric_read.anchor_count(orientation)
}

#[test]
fn chimeric_read_load() {
    let me_anchor = anchor(50, Upstream);
    let loaded = MEChimericRead::load(me_anchor.clone());
    let mut manual = MEChimericRead::new();
    manual.me_read.push(me_anchor);
    assert_eq!(loaded, manual);
    assert_eq!(manual.orientation, Untagged);
    assert_eq!(manual.quality, 0);
    assert_eq!(manual.sequence, "");
    assert!(manual.chr_read.is_empty());
}

#[test]
fn chimeric_read_tag00() {
    assert_eq!(tagged(&[Untagged]), Untagged);
}

#[test]
fn chimeric_read_tag01() {
    assert_eq!(tagged(&[Upstream]), Upstream);
}

#[test]
fn chimeric_read_tag02() {
    assert_eq!(tagged(&[Downstream]), Downstream);
}

#[test]
fn chimeric_read_tag03() {
    assert_eq!(tagged(&[Upstream, Downstream]), Palindromic);
}

#[test]
fn chimeric_read_tag04() {
    assert_eq!(tagged(&[Upstream, Downstream, Upstream]), Upstream);
}

#[test]
fn chimeric_read_tag05() {
    assert_eq!(tagged(&[Upstream, Downstream, Downstream]), Downstream);
}

#[test]
fn chimeric_read_tag06() {
    assert_eq!(tagged(&[Upstream, Downstream, Downstream, Upstream]), Palindromic);
}

#[test]
fn chimeric_read_tag_of_a_tie() {
    assert_eq!(tagged(&[Upstream, Untagged, Downstream]), Palindromic);
    assert_eq!(tagged(&[Untagged, Untagged]), Untagged);
    assert_eq!(tagged(&[Palindromic, Palindromic]), Untagged);
    assert_eq!(tagged(&[]), Untagged);
}

#[test]
fn chimeric_read_tag_ignores_the_orientation_it_had() {
    let mut me_chimeric_read = read(&[(10, Downstream)]);
    me_chimeric_read.orientation = Upstream;
    me_chimeric_read.quality = 60;
    me_chimeric_read.sequence = "GATTACA".to_string();
    let mut manual = me_chimeric_read.clone();
    me_chimeric_read.tag();
    manual.orientation = Downstream;
    assert_eq!(me_chimeric_read, manual);
}

#[test]
fn chimeric_read_edge00() {
    assert_eq!(edge(&[(0, Untagged), (0, Untagged)]), 0);
}

#[test]
fn chimeric_read_edge01() {
    assert_eq!(edge(&[(100, Upstream)]), 100);
}

#[test]
fn chimeric_read_edge02() {
    assert_eq!(edge(&[(50, Upstream), (75, Upstream)]), 50);
}

#[test]
fn chimeric_read_edge03() {
    assert_eq!(edge(&[(10000, Downstream)]), 10000);
}

#[test]
fn chimeric_read_edge04() {
    assert_eq!(edge(&[(10050, Downstream), (10075, Downstream)]), 10075);
}

#[test]
fn chimeric_read_edge05() {
    assert_eq!(edge(&[(50, Downstream), (75, Upstream)]), 0);
}

#[test]
fn chimeric_read_edge_reads_anchors_of_its_orientation_only() {
    assert_eq!(edge(&[(75, Upstream), (10, Downstream), (90, Upstream)]), 75);
    assert_eq!(edge(&[(75, Downstream), (10, Upstream), (60, Downstream)]), 75);
    assert_eq!(edge(&[(-75, Upstream), (-80, Upstream), (5, Untagged)]), -80);
    assert_eq!(edge(&[(-75, Downstream), (-80, Downstream)]), -75);
    assert_eq!(edge(&[(i32::MAX, Upstream), (i32::MIN, Upstream)]), i32::MIN);
}

#[test]
fn chimeric_read_edge_without_anchor_of_its_orientation() {
    let mut me_chimeric_read = read(&[(75, Downstream)]);
    me_chimeric_read.orientation = Upstream;
    assert_eq!(me_chimeric_read.edge(), 0);
    me_chimeric_read.orientation = Palindromic;
    assert_eq!(me_chimeric_read.edge(), 0);
    me_chimeric_read.orientation = Downstream;
    assert_eq!(me_chimeric_read.edge(), 75);
}

#[test]
fn anchor_count_none00() {
    assert_eq!(count(Untagged, &[Downstream]), 0);
}

#[test]
fn anchor_count_none01() {
    assert_eq!(count(Untagged, &[Upstream, Untagged, Downstream]), 1);
}

#[test]
fn anchor_count_upstream00() {
    assert_eq!(count(Upstream, &[Downstream]), 0);
}

#[test]
fn anchor_count_upstream01() {
    assert_eq!(count(Upstream, &[Upstream, Untagged, Downstream]), 1);
}

#[test]
fn anchor_count_upstream02() {
    assert_eq!(count(Upstream, &[Upstream, Untagged, Downstream, Upstream, Untagged]), 2);
}

#[test]
fn anchor_count_downstream00() {
    assert_eq!(count(Downstream, &[Upstream]), 0);
}

#[test]
fn anchor_count_downstream01() {
    assert_eq!(count(Downstream, &[Upstream, Untagged, Downstream, Upstream]), 1);
}

#[test]
fn anchor_count_downstream02() {
    assert_eq!(count(Downstream, &[Downstream, Downstream, Untagged, Upstream]), 2);
}

fn record(flag: &str, scaffold: &str, position: &str, cigar: &str, sequence: &str) -> RawValues {
    RawValues::load(vec!["ID", flag, scaffold, position, "60", cigar, "", "", "100", sequence, ""])
        .expect("RawValues loading failed!")
}

#[test]
fn chimeric_read_loads_a_mobile_element() {
    let mut values = record("83", "mobel77", "1", "15S15M", "MMMM0987654321B1234567890OOOOO");
    values.extra = ExtraValuesEnum::MobelSize(11000);
    let mut me_chimeric_read = MEChimericRead::new();
    assert_eq!(me_chimeric_read.load_mobile_element(&values), Ok(()));
    let mut manual = MEChimericRead::new();
    manual.sequence = "MMMM0987654321B1234567890OOOOO".to_string();
    manual.me_read.push(MEAnchor {
        breakpoint: BreakPoint { sequence: "MMMM0987654321B1234567890".to_string(), coordinate: 15 },
        cigar: CIGAR::load("15S15M", 1).expect("CIGAR loading failed!"),
        flag: 83,
        element_id: "mobel77".to_string(),
        orientation: Upstream,
        position: 1,
        element_size: 11000,
    });
    assert_eq!(me_chimeric_read, manual);
}

#[test]
fn chimeric_read_keeps_its_sequence_for_a_secondary_alignment() {
    let mut primary = record("83", "mobel77", "1", "15S15M", "MMMM0987654321B1234567890OOOOO");
    primary.extra = ExtraValuesEnum::MobelSize(11000);
    let mut secondary = record("339", "mobel12", "1", "1S15M", "*");
    secondary.extra = ExtraValuesEnum::MobelSize(500);
    let mut me_chimeric_read = MEChimericRead::new();
    assert_eq!(me_chimeric_read.load_mobile_element(&primary), Ok(()));
    assert_eq!(me_chimeric_read.load_mobile_element(&secondary), Ok(()));
    assert_eq!(me_chimeric_read.sequence, "MMMM0987654321B1234567890OOOOO");
    assert_eq!(me_chimeric_read.me_read.len(), 2);
    assert_eq!(me_chimeric_read.me_read[1].element_id, "mobel12");
    assert_eq!(me_chimeric_read.me_read[1].orientation, Upstream);
    assert_eq!(
        me_chimeric_read.me_read[1].breakpoint,
        BreakPoint { sequence: "MMMM0987654".to_string(), coordinate: 1 }
    );
    let mut flag_at_the_limit = record("255", "mobel12", "300", "15M", "ACGT");
    flag_at_the_limit.extra = ExtraValuesEnum::MobelSize(500);
    assert_eq!(me_chimeric_read.load_mobile_element(&flag_at_the_limit), Ok(()));
    assert_eq!(me_chimeric_read.sequence, "ACGT");
    assert_eq!(me_chimeric_read.me_read[2].orientation, Untagged);
    let mut flag_beyond_the_limit = record("256", "mobel12", "300", "15M", "TTTT");
    flag_beyond_the_limit.extra = ExtraValuesEnum::MobelSize(500);
    assert_eq!(me_chimeric_read.load_mobile_element(&flag_beyond_the_limit), Ok(()));
    assert_eq!(me_chimeric_read.sequence, "ACGT");
    assert_eq!(me_chimeric_read.me_read[3].orientation, Downstream);
    assert_eq!(me_chimeric_read.me_read[3].breakpoint, BreakPoint::new());
}

#[test]
fn chimeric_read_reports_a_window_beyond_the_read() {
    let mut values = record("83", "mobel77", "1", "15S15M", "SHORT");
    values.extra = ExtraValuesEnum::MobelSize(11000);
    let mut me_chimeric_read = MEChimericRead::new();
    assert_eq!(me_chimeric_read.load_mobile_element(&values), Err(CommonError::BreakpointWindow));
    assert_eq!(me_chimeric_read.sequence, "SHORT");
    assert_eq!(me_chimeric_read.me_read.len(), 1);
    assert_eq!(me_chimeric_read.me_read[0].orientation, Upstream);
    assert_eq!(me_chimeric_read.me_read[0].breakpoint, BreakPoint::new());
}

#[test]
fn chimeric_read_loads_a_chromosomal_alignment() {
    let values = record("16", "chr7", "2099", "100M", "GATTACA");
    let mut me_chimeric_read = MEChimericRead::new();
    me_chimeric_read.sequence = "GATTACA".to_string();
    assert!(me_chimeric_read.load_chromosomal(&values));
    let mut manual = MEChimericRead::new();
    manual.sequence = "GATTACA".to_string();
    manual.quality = 60;
    manual.chr_read.push(ChrAnchor::load(
        CIGAR::load("100M", 2099).expect("CIGAR loading failed!"),
        "chr7".to_string(),
        16,
        60,
        2099,
        100,
    ));
    assert_eq!(me_chimeric_read, manual);
}

#[test]
fn chimeric_read_loads_a_reversed_chromosomal_alignment() {
    let values = record("16", "chr7", "2099", "100M", "TGTAATC");
    let mut me_chimeric_read = MEChimericRead::new();
    me_chimeric_read.sequence = "GATTACA".to_string();
    assert!(me_chimeric_read.load_chromosomal(&values));
    assert_eq!(me_chimeric_read.chr_read.len(), 1);
    assert_eq!(me_chimeric_read.quality, 60);
    assert_eq!(me_chimeric_read.sequence, "GATTACA");
}

#[test]
fn chimeric_read_skips_the_alignment_of_another_read() {
    let values = record("16", "chr7", "2099", "100M", "GATTACC");
    let mut me_chimeric_read = MEChimericRead::new();
    me_chimeric_read.sequence = "GATTACA".to_string();
    let before = me_chimeric_read.clone();
    assert!(!me_chimeric_read.load_chromosomal(&values));
    assert_eq!(me_chimeric_read, before);
}
