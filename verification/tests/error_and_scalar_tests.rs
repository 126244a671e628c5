//! The error surface and the scalar conversions.

use mws::Event;
use mws::EventKind;
use mws::decode::DecodeError;
use mws::decode::Stream;
use mws::decode::characters_bool;
use mws::decode::open_element;
use mws::decode::start_document;
use mws::fulfillment_outbound::DestinationAddress;
use mws::fulfillment_outbound::FulfillmentOrder;
use mws::fulfillment_outbound::types::parse_fulfillment_policy;
use mws::fulfillment_outbound::types::FulfillmentPolicy;
use mws::samples::Sample;
use mws::strutil::i32_to_string;
use mws::strutil::parse_bool;
use mws::strutil::parse_i32;
use mws::strutil::u64_to_string;

#[test]
fn malformed_xml_reports_io() {
    let err = Stream::from_xml_text("<a>").unwrap_err();
    assert!(matches!(err, DecodeError::Io { .. }));
}

#[test]
fn text_at_top_level_is_an_unexpected_event() {
    let mut s = Stream::new(vec![
        Event::StartDocument,
        Event::Text {
            content: "junk".to_owned(),
        },
    ]);
    let err = start_document(&mut s).unwrap_err();
    assert_eq!(
        err,
        DecodeError::UnexpectedEvent {
            expected: EventKind::StartElement,
            found: EventKind::Text,
        }
    );
}

#[test]
fn truncated_stream_is_an_unexpected_end_of_document() {
    let mut s = Stream::new(vec![Event::StartElement {
        name: "orphan".to_owned(),
        attrs: vec![],
        ns: vec![],
    }]);
    let err = DestinationAddress::from_xml(&mut s).unwrap_err();
    assert_eq!(err, DecodeError::UnexpectedEndOfDocument);
}

#[test]
fn bad_integer_text_is_a_parse_value_error() {
    let xml = "<test><b>abc</b></test>";
    let mut s = Stream::from_xml_text(xml).unwrap();
    start_document(&mut s).unwrap();
    open_element(&mut s, &vec!["test"]).unwrap();
    let err = Sample::from_xml(&mut s).unwrap_err();
    assert_eq!(
        err,
        DecodeError::ParseValue {
            field: "b".to_owned(),
            raw: "abc".to_owned(),
            target: "i32".to_owned(),
        }
    );
}

#[test]
fn bad_timestamp_text_is_a_parse_value_error() {
    let xml = "<test><date>not-a-date</date></test>";
    let mut s = Stream::from_xml_text(xml).unwrap();
    start_document(&mut s).unwrap();
    open_element(&mut s, &vec!["test"]).unwrap();
    let err = Sample::from_xml(&mut s).unwrap_err();
    assert_eq!(
        err,
        DecodeError::ParseValue {
            field: "date".to_owned(),
            raw: "not-a-date".to_owned(),
            target: "timestamp".to_owned(),
        }
    );
}

#[test]
fn bad_enum_text_is_a_parse_value_error() {
    let xml = "<test><FulfillmentPolicy>FillSome</FulfillmentPolicy></test>";
    let mut s = Stream::from_xml_text(xml).unwrap();
    start_document(&mut s).unwrap();
    open_element(&mut s, &vec!["test"]).unwrap();
    let err = FulfillmentOrder::from_xml(&mut s).unwrap_err();
    assert_eq!(
        err,
        DecodeError::ParseValue {
            field: "FulfillmentPolicy".to_owned(),
            raw: "FillSome".to_owned(),
            target: "FulfillmentPolicy".to_owned(),
        }
    );
}

#[test]
fn integer_parsing_covers_signs_and_bounds() {
    assert_eq!(parse_i32("777"), Some(777));
    assert_eq!(parse_i32("+777"), Some(777));
    assert_eq!(parse_i32("-777"), Some(-777));
    assert_eq!(parse_i32("0"), Some(0));
    assert_eq!(parse_i32("2147483647"), Some(i32::MAX));
    assert_eq!(parse_i32("-2147483648"), Some(i32::MIN));
    assert_eq!(parse_i32("2147483648"), None);
    assert_eq!(parse_i32("-2147483649"), None);
    assert_eq!(parse_i32(""), None);
    assert_eq!(parse_i32("-"), None);
    assert_eq!(parse_i32("12a"), None);
    assert_eq!(parse_i32(" 1"), None);
}

#[test]
fn integer_printing_is_exact() {
    assert_eq!(i32_to_string(0), "0");
    assert_eq!(i32_to_string(777), "777");
    assert_eq!(i32_to_string(-42), "-42");
    assert_eq!(i32_to_string(i32::MIN), "-2147483648");
    assert_eq!(i32_to_string(i32::MAX), "2147483647");
    assert_eq!(u64_to_string(0), "0");
    assert_eq!(u64_to_string(18446744073709551615), "18446744073709551615");
}

#[test]
fn boolean_literals_are_canonical() {
    assert_eq!(parse_bool("true"), Some(true));
    assert_eq!(parse_bool("false"), Some(false));
    assert_eq!(parse_bool("True"), None);
    assert_eq!(parse_bool("1"), None);
    assert_eq!(parse_bool(""), None);
}

#[test]
fn enum_names_parse_exactly() {
    assert_eq!(parse_fulfillment_policy("FillOrKill"), Some(FulfillmentPolicy::FillOrKill));
    assert_eq!(parse_fulfillment_policy("FillAll"), Some(FulfillmentPolicy::FillAll));
    assert_eq!(
        parse_fulfillment_policy("FillAllAvailable"),
        Some(FulfillmentPolicy::FillAllAvailable)
    );
    assert_eq!(parse_fulfillment_policy("fillorkill"), None);
}

#[test]
fn empty_string_element_decodes_to_empty_string() {
    let xml = "<test><a></a><b>1</b></test>";
    let mut s = Stream::from_xml_text(xml).unwrap();
    start_document(&mut s).unwrap();
    open_element(&mut s, &vec!["test"]).unwrap();
    let v = Sample::from_xml(&mut s).unwrap();
    assert_eq!(v.a, "");
    assert_eq!(v.b, 1);
}

#[test]
fn cursor_primitives_walk_the_stream() {
    let mut s = Stream::from_xml_text("<a><b>x</b><c/></a>").unwrap();
    assert_eq!(s.peek_kind(), Some(EventKind::StartDocument));
    s.next();
    assert_eq!(s.peek_kind(), Some(EventKind::StartElement));
    assert_eq!(s.local_name(), Some("a".to_owned()));
    s.next();
    assert_eq!(s.local_name(), Some("b".to_owned()));
    s.skip_subtree().unwrap();
    assert_eq!(s.peek_kind(), Some(EventKind::StartElement));
    assert_eq!(s.local_name(), Some("c".to_owned()));
    s.skip_subtree().unwrap();
    assert_eq!(s.peek_kind(), Some(EventKind::EndElement));
    assert_eq!(s.local_name(), Some("a".to_owned()));
}

#[test]
fn characters_bool_reads_canonical_literals() {
    let mut s = Stream::new(vec![
        Event::Text {
            content: "true".to_owned(),
        },
        Event::EndElement {
            name: "flag".to_owned(),
        },
    ]);
    assert_eq!(characters_bool(&mut s, &"flag".to_owned()), Ok(true));

    let mut bad = Stream::new(vec![
        Event::Text {
            content: "yes".to_owned(),
        },
        Event::EndElement {
            name: "flag".to_owned(),
        },
    ]);
    assert_eq!(
        characters_bool(&mut bad, &"flag".to_owned()),
        Err(DecodeError::ParseValue {
            field: "flag".to_owned(),
            raw: "yes".to_owned(),
            target: "bool".to_owned(),
        })
    );
}
