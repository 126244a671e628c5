//! Decoding a record holding a sequence of nested records.

use mws::decode::Stream;
use mws::decode::open_element;
use mws::decode::start_document;
use mws::samples::Item;
use mws::samples::ItemListRecord as S;

fn decode_items(fragment: &str) -> S {
    let xml = format!("<test>{}</test>", fragment);
    let mut s = Stream::from_xml_text(&xml).unwrap();
    start_document(&mut s).unwrap();
    open_element(&mut s, &vec!["test"]).unwrap();
    S::from_xml(&mut s).unwrap()
}

#[test]
fn derive_struct_vec() {
    let decoded = decode_items(
        r#"
      <items>
        <item>
          <a>AAA</a>
          <b>777</b>
        </item>
        <item>
          <a>BBB</a>
          <b>888</b>
        </item>
      </items>
    "#,
    );
    assert_eq!(
        decoded,
        S {
            items: vec![
                Item {
                    a: "AAA".to_string(),
                    b: 777,
                },
                Item {
                    a: "BBB".to_string(),
                    b: 888,
                },
            ],
        }
    );
}
