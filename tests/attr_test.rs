use radius_virtual::attr::{decode_attr, decode_attrs, encode_attr, parse_attr, AttrFormatError};
use radius_virtual::hex::{decode_base16, encode_base16, HexFormatError};

#[test]
fn parses_vendor_and_subtype() {
    assert_eq!(parse_attr("1.1"), Some((1, 1)));
    assert_eq!(parse_attr("4294967295.255"), Some((4294967295, 255)));
    assert_eq!(parse_attr("+12.+3"), Some((12, 3)));
}

#[test]
fn refuses_malformed_attributes() {
    assert_eq!(parse_attr(""), None);
    assert_eq!(parse_attr("1"), None);
    assert_eq!(parse_attr("1.2.3"), None);
    assert_eq!(parse_attr("a.1"), None);
    assert_eq!(parse_attr("1."), None);
    assert_eq!(parse_attr(".1"), None);
    assert_eq!(parse_attr("4294967296.1"), None);
    assert_eq!(parse_attr("1.256"), None);
    assert_eq!(parse_attr("-1.1"), None);
    assert_eq!(parse_attr("+.1"), None);
}

#[test]
fn decode_attr_reports_format_error() {
    assert_eq!(decode_attr("26.9"), Ok((26, 9)));
    assert_eq!(decode_attr("26-9"), Err(AttrFormatError));
}

#[test]
fn decode_attrs_skips_invalid_entries() {
    let texts = vec!["1.1".to_string(), "bad".to_string(), "9.9".to_string(), "1.300".to_string()];
    assert_eq!(decode_attrs(&texts), Some(vec![(1, 1), (9, 9)]));
    assert_eq!(decode_attrs(&vec![]), Some(vec![]));
}

#[test]
fn encode_attr_writes_decimal() {
    assert_eq!(encode_attr((1, 1)), "1.1");
    assert_eq!(encode_attr((311, 25)), "311.25");
    assert_eq!(encode_attr((0, 0)), "0.0");
    let text = encode_attr((4294967295, 255));
    assert_eq!(parse_attr(&text), Some((4294967295, 255)));
}

#[test]
fn base16_round_trip() {
    assert_eq!(encode_base16(&vec![0xAA, 0x01, 0xff]), "AA01FF");
    assert_eq!(encode_base16(&vec![]), "");
    assert_eq!(decode_base16("AA01ff"), Ok(vec![0xAA, 0x01, 0xFF]));
    assert_eq!(decode_base16("A"), Err(HexFormatError));
    assert_eq!(decode_base16("GG"), Err(HexFormatError));
}
