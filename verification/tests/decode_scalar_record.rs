//! Decoding a record of scalars and an optional timestamp.

use mws::decode::Stream;
use mws::decode::open_element;
use mws::decode::start_document;
use mws::samples::Sample as S;
use mws::timestamp::Timestamp;

fn decode_sample(fragment: &str) -> S {
    let xml = format!("<test>{}</test>", fragment);
    let mut s = Stream::from_xml_text(&xml).unwrap();
    start_document(&mut s).unwrap();
    open_element(&mut s, &vec!["test"]).unwrap();
    S::from_xml(&mut s).unwrap()
}

#[test]
fn derive_struct() {
    let decoded = decode_sample(
        r#"
      <a>AAA</a>
      <b>777</b>
      <date>2016-11-03T00:09:40Z</date>
    "#,
    );
    assert_eq!(
        decoded,
        S {
            a: "AAA".to_owned(),
            b: 777,
            date: Some(Timestamp::new(2016, 11, 3, 0, 9, 40)),
        }
    );
}

#[test]
fn unknown_elements_are_tolerated() {
    let with_extras = decode_sample(
        r#"
      <zzz>ignored</zzz>
      <a>AAA</a>
      <unknown><nested>deep</nested></unknown>
      <b>777</b>
    "#,
    );
    let without_extras = decode_sample(
        r#"
      <a>AAA</a>
      <b>777</b>
    "#,
    );
    assert_eq!(with_extras, without_extras);
    assert_eq!(
        without_extras,
        S { a: "AAA".to_owned(), b: 777, date: None }
    );
}

#[test]
fn absent_fields_keep_defaults() {
    let decoded = decode_sample("<b>5</b>");
    assert_eq!(decoded, S { a: String::new(), b: 5, date: None });
}
