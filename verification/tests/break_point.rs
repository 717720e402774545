use genomic_structures::{BreakPoint, CommonError};

fn expect(sequence: &str, coordinate: i64) -> BreakPoint {
    BreakPoint { sequence: sequence.to_string(), coordinate }
}

#[test]
fn break_point_test01() {
    assert_eq!(BreakPoint::load("B1234567890OOOOO", 0), Ok(expect("B1234567890", 1)));
}

#[test]
fn break_point_test02() {
    assert_eq!(BreakPoint::load("OOOOO0987654321B", 1), Ok(expect("0987654321B", 0)));
}

#[test]
fn break_point_test03() {
    assert_eq!(
        BreakPoint::load("MMMMMMMMM0987654321B1234567890OOOOO", -19),
        Ok(expect("MMMMMMMMM0987654321B1234567890", 20))
    );
}

#[test]
fn break_point_test04() {
    assert_eq!(
        BreakPoint::load("OOOOO0987654321B1234567890MMMMMMMMM", 20),
        Ok(expect("0987654321B1234567890MMMMMMMMM", -19))
    );
}

#[test]
fn break_point_fail01() {
    assert_ne!(BreakPoint::load("MRRRRRRRRRROOOOO", 0), Ok(expect("MRRRRRRRRRROOOOO", 1)));
}

#[test]
fn break_point_fail02() {
    assert_ne!(
        BreakPoint::load("OOOOO0987654321B1234567890MMMMMMMMM", 20),
        Ok(expect("OOOOO0987654321B1234567890MMMMMMMMM", -19))
    );
}

#[test]
fn break_point_whole_read() {
    assert_eq!(BreakPoint::load("GATTACAAAAA", 0), Ok(expect("GATTACAAAAA", 1)));
    assert_eq!(BreakPoint::load("GATTACAAAAA", 1), Ok(expect("GATTACAAAAA", 0)));
}

#[test]
fn break_point_update_replaces() {
    let mut breakpoint = BreakPoint::new();
    assert_eq!(breakpoint, expect("", 0));
    assert_eq!(breakpoint.update("GATTACAAAAA", 0), Ok(()));
    assert_eq!(breakpoint, expect("GATTACAAAAA", 1));
    assert_eq!(breakpoint.update("OOOOO0987654321B", 1), Ok(()));
    assert_eq!(breakpoint, expect("0987654321B", 0));
}

#[test]
fn break_point_window_beyond_the_read() {
    assert_eq!(BreakPoint::load("GATTACAAAA", 0), Err(CommonError::BreakpointWindow));
    assert_eq!(BreakPoint::load("GATTACAAAA", 1), Err(CommonError::BreakpointWindow));
    assert_eq!(BreakPoint::load("", 0), Err(CommonError::BreakpointWindow));
    assert_eq!(BreakPoint::load("", 5), Err(CommonError::BreakpointWindow));
    assert_eq!(BreakPoint::load("GATTACAAAAA", -1), Err(CommonError::BreakpointWindow));
    assert_eq!(BreakPoint::load("GATTACAAAAA", 2), Err(CommonError::BreakpointWindow));
    assert_eq!(BreakPoint::load("GATTACA", i32::MIN), Err(CommonError::BreakpointWindow));
    assert_eq!(BreakPoint::load("GATTACA", i32::MAX), Err(CommonError::BreakpointWindow));
}

#[test]
fn break_point_failed_update_changes_nothing() {
    let mut breakpoint = BreakPoint::load("B1234567890OOOOO", 0).expect("window fits");
    assert_eq!(breakpoint.update("short", 0), Err(CommonError::BreakpointWindow));
    assert_eq!(breakpoint, expect("B1234567890", 1));
    assert_eq!(breakpoint.update("short", 3), Err(CommonError::BreakpointWindow));
    assert_eq!(breakpoint, expect("B1234567890", 1));
}

#[test]
fn break_point_counts_characters() {
    assert_eq!(BreakPoint::load("é1234567890OOOOO", 0), Ok(expect("é1234567890", 1)));
    assert_eq!(BreakPoint::load("OOOOO0987654321é", 1), Ok(expect("0987654321é", 0)));
    assert_eq!(BreakPoint::load("éééééééééé", 0), Err(CommonError::BreakpointWindow));
}
