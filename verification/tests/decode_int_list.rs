//! Decoding a record holding a sequence of integers.

use mws::decode::Stream;
use mws::decode::open_element;
use mws::decode::start_document;
use mws::samples::IntListRecord as S;

fn decode_list(fragment: &str) -> S {
    let xml = format!("<test>{}</test>", fragment);
    let mut s = Stream::from_xml_text(&xml).unwrap();
    start_document(&mut s).unwrap();
    open_element(&mut s, &vec!["test"]).unwrap();
    S::from_xml(&mut s).unwrap()
}

#[test]
fn derive_vec() {
    let decoded = decode_list(
        r#"
      <items>
        <value>1</value>
        <value>3</value>
        <value>5</value>
        <value>7</value>
      </items>
    "#,
    );
    assert_eq!(decoded, S { items: vec![1, 3, 5, 7] });
}

#[test]
fn two_values_in_document_order() {
    let decoded = decode_list("<items><value>1</value><value>3</value></items>");
    assert_eq!(decoded, S { items: vec![1, 3] });
}

#[test]
fn empty_wrapper_decodes_to_empty_sequence() {
    let decoded = decode_list("<items></items>");
    assert_eq!(decoded, S { items: vec![] });
    let self_closing = decode_list("<items/>");
    assert_eq!(self_closing, S { items: vec![] });
}
