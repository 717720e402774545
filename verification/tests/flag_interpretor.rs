use genomic_structures::functions::flag_interpretor::is_set;
use genomic_structures::{interpret, ChrAnchor, CommonError, MEAnchor, RawValues, SamFlag};

fn check(cases: &[(i32, usize, bool)]) {
    for (flag, digit, expected) in cases {
        assert_eq!(interpret(*flag, *digit), Ok(*expected), "flag {} digit {}", flag, digit);
    }
}

#[test]
fn interpret_examples() {
    assert_eq!(interpret(177, 1), Ok(true));
    assert_eq!(interpret(177, 2), Ok(false));
    assert_eq!(interpret(2165, 3), Ok(true));
    assert_eq!(interpret(133, 7), Ok(false));
    assert_eq!(interpret(157, 5), Ok(true));
}

#[test]
fn interpret_read_pair() {
    check(&[(72, 1, false), (1, 1, true), (177, 1, true)]);
}

#[test]
fn interpret_mate_pair() {
    check(&[(177, 2, false), (2, 2, true), (135, 2, true)]);
}

#[test]
fn interpret_read_unmapped() {
    check(&[(121, 3, false), (4, 3, true), (2165, 3, true)]);
}

#[test]
fn interpret_mate_unmapped() {
    check(&[(177, 4, false), (8, 4, true), (185, 4, true)]);
}

#[test]
fn interpret_read_reverse_strand() {
    check(&[(169, 5, false), (16, 5, true), (157, 5, true)]);
}

#[test]
fn interpret_mate_reverse_strand() {
    check(&[(147, 6, false), (32, 6, true), (99, 6, true)]);
}

#[test]
fn interpret_first_in_pair() {
    check(&[(133, 7, false), (64, 7, true), (73, 7, true)]);
}

#[test]
fn interpret_second_in_pair() {
    check(&[(73, 8, false), (128, 8, true), (457, 8, true)]);
}

#[test]
fn interpret_not_primary() {
    check(&[(133, 9, false), (256, 9, true), (389, 9, true)]);
}

#[test]
fn interpret_fails_quality() {
    check(&[(329, 10, false), (512, 10, true), (901, 10, true)]);
}

#[test]
fn interpret_duplicate() {
    check(&[(133, 11, false), (1024, 11, true), (1157, 11, true)]);
}

#[test]
fn interpret_supplementary() {
    check(&[(99, 12, false), (2048, 12, true), (3095, 12, true)]);
}

#[test]
fn interpret_every_bit_of_every_flag() {
    for flag in 0..4096 {
        for digit in 1..=12usize {
            let expected = (flag >> (digit - 1)) & 1 == 1;
            assert_eq!(interpret(flag, digit), Ok(expected));
            assert_eq!(is_set(flag, digit), expected);
        }
    }
}

#[test]
fn interpret_rejects_positions_outside_one_to_twelve() {
    for digit in [0usize, 13, 14, 32, 64, usize::MAX] {
        assert_eq!(interpret(177, digit), Err(CommonError::InvalidBitPosition));
    }
}

#[test]
fn interpret_flags_beyond_twelve_bits() {
    assert_eq!(interpret(4096, 1), Ok(false));
    assert_eq!(interpret(4096 + 16, 5), Ok(true));
    assert_eq!(interpret(i32::MAX, 12), Ok(true));
    assert_eq!(interpret(-1, 1), Ok(true));
    assert_eq!(interpret(-1, 12), Ok(true));
    assert_eq!(interpret(-2, 1), Ok(false));
    assert_eq!(interpret(-17, 5), Ok(false));
    assert_eq!(interpret(i32::MIN, 12), Ok(false));
    for flag in [-4097, -4096, -2049, -2048, -17, -16, -3, -1, i32::MIN, i32::MIN + 5] {
        for digit in 1..=12usize {
            assert_eq!(interpret(flag, digit), Ok((flag >> (digit - 1)) & 1 == 1));
        }
    }
}

#[test]
fn interpret_through_records() {
    let mut chr_anchor = ChrAnchor::new();
    chr_anchor.flag = 157;
    assert_eq!(chr_anchor.get_flag(), 157);
    assert_eq!(chr_anchor.interpret(5), Ok(true));
    assert_eq!(chr_anchor.interpret(2), Ok(false));
    assert_eq!(chr_anchor.interpret(13), Err(CommonError::InvalidBitPosition));
    let mut me_anchor = MEAnchor::new();
    me_anchor.flag = 2165;
    assert_eq!(me_anchor.get_flag(), 2165);
    assert_eq!(me_anchor.interpret(3), Ok(true));
    let mut record = RawValues::new();
    record.flag = 133;
    assert_eq!(record.get_flag(), 133);
    assert_eq!(record.interpret(7), Ok(false));
    assert_eq!(record.interpret(8), Ok(true));
}
