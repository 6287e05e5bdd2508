use pushshift_importer::radix::{encode_base36, parse_radix};

#[test]
fn parse_base36_values() {
    assert_eq!(parse_radix("1a", 36), Some(46));
    assert_eq!(parse_radix("0", 36), Some(0));
    assert_eq!(parse_radix("z", 36), Some(35));
    assert_eq!(parse_radix("Z", 36), Some(35));
    assert_eq!(parse_radix("10", 36), Some(36));
    assert_eq!(parse_radix("kxmi7jz", 36), Some(45568831679));
    assert_eq!(parse_radix("+1a", 36), Some(46));
    assert_eq!(parse_radix("-1a", 36), Some(-46));
    assert_eq!(parse_radix("-0", 36), Some(0));
    assert_eq!(parse_radix("0001a", 36), Some(46));
}

#[test]
fn parse_refuses_what_is_no_number() {
    assert_eq!(parse_radix("", 36), None);
    assert_eq!(parse_radix("+", 36), None);
    assert_eq!(parse_radix("-", 36), None);
    assert_eq!(parse_radix("invalid!@#", 36), None);
    assert_eq!(parse_radix("1a ", 36), None);
    assert_eq!(parse_radix(" 1a", 36), None);
    assert_eq!(parse_radix("1_a", 36), None);
    assert_eq!(parse_radix("--1", 36), None);
    assert_eq!(parse_radix("1+", 36), None);
    assert_eq!(parse_radix("\u{e9}", 36), None);
}

#[test]
fn parse_respects_the_radix() {
    assert_eq!(parse_radix("9", 10), Some(9));
    assert_eq!(parse_radix("a", 10), None);
    assert_eq!(parse_radix("p", 26), Some(25));
    assert_eq!(parse_radix("q", 26), None);
    assert_eq!(parse_radix("1a", 26), Some(36));
    assert_eq!(parse_radix("101", 2), Some(5));
    assert_eq!(parse_radix("102", 2), None);
}

#[test]
fn parse_respects_the_range() {
    assert_eq!(parse_radix("9223372036854775807", 10), Some(i64::MAX));
    assert_eq!(parse_radix("9223372036854775808", 10), None);
    assert_eq!(parse_radix("-9223372036854775808", 10), Some(i64::MIN));
    assert_eq!(parse_radix("-9223372036854775809", 10), None);
    assert_eq!(parse_radix("1y2p0ij32e8e7", 36), Some(i64::MAX));
    assert_eq!(parse_radix("1y2p0ij32e8e8", 36), None);
}

#[test]
fn encode_base36_values() {
    assert_eq!(encode_base36(0), "0");
    assert_eq!(encode_base36(35), "z");
    assert_eq!(encode_base36(36), "10");
    assert_eq!(encode_base36(46), "1a");
    assert_eq!(encode_base36(45568804275), "kxmhmer");
    assert_eq!(encode_base36(i64::MAX), "1y2p0ij32e8e7");
}

#[test]
fn encode_base36_of_a_negative_is_its_bit_pattern() {
    assert_eq!(encode_base36(-1), "3w5e11264sgsf");
    assert_eq!(encode_base36(i64::MIN), "1y2p0ij32e8e8");
}

#[test]
fn base36_round_trip() {
    for value in [0i64, 1, 35, 36, 46, 1295, 1296, 45568804275, i64::MAX] {
        assert_eq!(parse_radix(encode_base36(value).as_str(), 36), Some(value));
    }
}
