use tabcheck::location::{col_to_char, col_to_string, Location};

#[test]
fn t0() {
    assert_eq!(Location { row: 0, col: 0 }.to_string(), "A1");
}

#[test]
fn t1() {
    assert_eq!(Location { row: 99, col: 1 }.to_string(), "B100");
}

#[test]
fn t_last() {
    assert_eq!(Location { row: 0, col: 25 }.to_string(), "Z1");
}

#[test]
fn t_wrap() {
    assert_eq!(Location { row: 0, col: 26 }.to_string(), "AA1");
}

#[test]
fn t_correct_order_of_digits() {
    assert_eq!(Location { row: 0, col: 27 }.to_string(), "AB1");
}

#[test]
fn t_last_2() {
    assert_eq!(Location { row: 0, col: 51 }.to_string(), "AZ1");
}

#[test]
fn t_wrap_2() {
    assert_eq!(Location { row: 0, col: 52 }.to_string(), "BA1");
}

#[test]
fn t_1022() {
    assert_eq!(Location { row: 0, col: 1022 }.to_string(), "AMI1");
}

#[test]
fn location_two_letter_end_and_three_letter_start() {
    assert_eq!(col_to_string(701), "ZZ");
    assert_eq!(col_to_string(702), "AAA");
    assert_eq!(col_to_string(676), "ZA");
}

#[test]
fn location_largest_row() {
    let loc = Location { row: u64::MAX, col: 0 };
    assert_eq!(loc.to_string(), "A18446744073709551616");
}

#[test]
fn location_col_to_char() {
    assert_eq!(col_to_char(0), 'A');
    assert_eq!(col_to_char(25), 'Z');
}

#[test]
fn location_rendering_is_stable() {
    let loc = Location { row: 41, col: 3 };
    assert_eq!(loc.to_string(), loc.to_string());
    assert_eq!(loc.to_string(), "D42");
}
