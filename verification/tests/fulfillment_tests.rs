//! Decoding the outbound fulfillment records and responses.

use mws::decode::DecodeError;
use mws::decode::Stream;
use mws::decode::open_element;
use mws::decode::start_document;
use mws::fulfillment_outbound::DestinationAddress;
use mws::fulfillment_outbound::FulfillmentOrder;
use mws::fulfillment_outbound::FulfillmentOrderStatus;
use mws::fulfillment_outbound::FulfillmentPolicy;
use mws::fulfillment_outbound::FulfillmentShipmentItem;
use mws::fulfillment_outbound::FulfillmentShipmentPackage;
use mws::fulfillment_outbound::GetFulfillmentOrderResponse;
use mws::fulfillment_outbound::ListAllFulfillmentOrdersResponse;
use mws::fulfillment_outbound::PackageStatus;
use mws::fulfillment_outbound::PackageTrackingDetails;
use mws::fulfillment_outbound::TrackingAddress;
use mws::fulfillment_outbound::TrackingEvent;
use mws::timestamp::Timestamp;

fn open_fragment(fragment: &str) -> Stream {
    let xml = format!("<test>{}</test>", fragment);
    let mut s = Stream::from_xml_text(&xml).unwrap();
    start_document(&mut s).unwrap();
    open_element(&mut s, &vec!["test"]).unwrap();
    s
}

#[test]
fn test_decode_destination_address() {
    let mut s = open_fragment(
        r#"
        <PhoneNumber>(111) 222-3333</PhoneNumber>
        <City>DORADO</City>
        <CountryCode>US</CountryCode>
        <PostalCode>888888</PostalCode>
        <Name>Foo Bar</Name>
        <StateOrProvinceCode>CA</StateOrProvinceCode>
        <Line3/>
        <Line2/>
        <DistrictOrCounty/>
        <Line1>1818 DRIFTWOOD CIRCLE</Line1>
      "#,
    );
    let decoded = DestinationAddress::from_xml(&mut s).unwrap();
    assert_eq!(
        decoded,
        DestinationAddress {
            PhoneNumber: "(111) 222-3333".to_owned(),
            City: "DORADO".to_owned(),
            CountryCode: "US".to_owned(),
            PostalCode: "888888".to_owned(),
            Name: "Foo Bar".to_owned(),
            StateOrProvinceCode: "CA".to_owned(),
            DistrictOrCounty: "".to_owned(),
            Line1: "1818 DRIFTWOOD CIRCLE".to_owned(),
            Line2: "".to_owned(),
            Line3: "".to_owned(),
        }
    );
}

#[test]
fn test_fulfillment_order() {
    let mut s = open_fragment(
        r#"
        <SellerFulfillmentOrderId>11111111</SellerFulfillmentOrderId>
        <DestinationAddress>
          <PhoneNumber>22222222</PhoneNumber>
          <City>City Name</City>
          <CountryCode>US</CountryCode>
          <PostalCode>333333</PostalCode>
          <Name>Foo Bar</Name>
          <StateOrProvinceCode>TX</StateOrProvinceCode>
          <Line3/>
          <DistrictOrCounty/>
          <Line2/>
          <Line1>2907 Switch Case St</Line1>
        </DestinationAddress>
        <DisplayableOrderDateTime>2017-12-11T08:00:00Z</DisplayableOrderDateTime>
        <ShippingSpeedCategory>Expedited</ShippingSpeedCategory>
        <FulfillmentMethod>Consumer</FulfillmentMethod>
        <FulfillmentOrderStatus>COMPLETE</FulfillmentOrderStatus>
        <FulfillmentPolicy>FillOrKill</FulfillmentPolicy>
        <StatusUpdatedDateTime>2017-12-12T10:27:43Z</StatusUpdatedDateTime>
        <MarketplaceId>ATVPDKIKX0DER</MarketplaceId>
        <ReceivedDateTime>2017-12-13T10:27:43Z</ReceivedDateTime>
        <FulfillmentAction>Ship</FulfillmentAction>
        <NotificationEmailList>
          <member>hello@ventmere.com</member>
        </NotificationEmailList>
        <DisplayableOrderId>55555555</DisplayableOrderId>
        <DisplayableOrderComment>Thank you for your order!</DisplayableOrderComment>
      "#,
    );
    let decoded = FulfillmentOrder::from_xml(&mut s).unwrap();
    assert_eq!(
        decoded,
        FulfillmentOrder {
            SellerFulfillmentOrderId: "11111111".to_owned(),
            DestinationAddress: DestinationAddress {
                PhoneNumber: "22222222".to_owned(),
                City: "City Name".to_owned(),
                CountryCode: "US".to_owned(),
                PostalCode: "333333".to_owned(),
                Name: "Foo Bar".to_owned(),
                StateOrProvinceCode: "TX".to_owned(),
                DistrictOrCounty: "".to_owned(),
                Line1: "2907 Switch Case St".to_owned(),
                Line2: "".to_owned(),
                Line3: "".to_owned(),
            },
            DisplayableOrderDateTime: Some(Timestamp::new(2017, 12, 11, 8, 0, 0)),
            ShippingSpeedCategory: "Expedited".to_owned(),
            FulfillmentMethod: "Consumer".to_owned(),
            FulfillmentOrderStatus: FulfillmentOrderStatus::COMPLETE,
            StatusUpdatedDateTime: Some(Timestamp::new(2017, 12, 12, 10, 27, 43)),
            FulfillmentPolicy: FulfillmentPolicy::FillOrKill,
            ReceivedDateTime: Some(Timestamp::new(2017, 12, 13, 10, 27, 43)),
            DisplayableOrderId: "55555555".to_owned(),
            DisplayableOrderComment: "Thank you for your order!".to_owned(),
            MarketplaceId: Some("ATVPDKIKX0DER".to_owned()),
            FulfillmentAction: Some("Ship".to_owned()),
            NotificationEmailList: vec!["hello@ventmere.com".to_owned()],
        }
    );
}

#[test]
fn test_fulfillment_shipment_item() {
    let mut s = open_fragment(
        r#"
        <SellerFulfillmentOrderItemId>e-1111</SellerFulfillmentOrderItemId>
        <Quantity>1</Quantity>
        <SellerSKU>e-1111</SellerSKU>
        <PackageNumber>1899999</PackageNumber>
      "#,
    );
    let decoded = FulfillmentShipmentItem::from_xml(&mut s).unwrap();
    assert_eq!(
        decoded,
        FulfillmentShipmentItem {
            SellerFulfillmentOrderItemId: "e-1111".to_owned(),
            Quantity: 1,
            SellerSKU: Some("e-1111".to_owned()),
            PackageNumber: Some("1899999".to_owned()),
        }
    );
}

#[test]
fn test_fulfillment_shipment_package() {
    let mut s = open_fragment(
        r#"
        <EstimatedArrivalDateTime>2017-12-03T04:00:00Z</EstimatedArrivalDateTime>
        <TrackingNumber>7777777777</TrackingNumber>
        <CarrierCode>USPS</CarrierCode>
        <PackageNumber>185528000</PackageNumber>
      "#,
    );
    let decoded = FulfillmentShipmentPackage::from_xml(&mut s).unwrap();
    assert_eq!(
        decoded,
        FulfillmentShipmentPackage {
            EstimatedArrivalDateTime: Some(Timestamp::new(2017, 12, 3, 4, 0, 0)),
            TrackingNumber: Some("7777777777".to_owned()),
            CarrierCode: "USPS".to_owned(),
            PackageNumber: "185528000".to_owned(),
        }
    );
}

#[test]
fn test_package_tracking_details() {
    let mut s = open_fragment(
        r#"
        <ShipToAddress/>
        <AdditionalLocationInfo/>
        <CurrentStatus>IN_TRANSIT</CurrentStatus>
        <SignedForBy/>
        <ShipDate>2018-01-30T23:38:45Z</ShipDate>
        <PackageNumber>7777777777</PackageNumber>
        <CarrierCode>USPS</CarrierCode>
        <EstimatedArrivalDate>2018-02-01T08:00:00Z</EstimatedArrivalDate>
        <TrackingEvents>
          <member>
            <EventCode>EVENT_201</EventCode>
            <EventAddress>
              <Country>US</Country>
              <State>CALIFORNIA</State>
              <City>Newark</City>
            </EventAddress>
            <EventDate>2018-01-31T17:20:58Z</EventDate>
          </member>
          <member>
            <EventCode>EVENT_101</EventCode>
            <EventDate>2018-01-30T23:38:45Z</EventDate>
          </member>
        </TrackingEvents>
        <TrackingNumber>1818181818181818188181</TrackingNumber>
      "#,
    );
    let decoded = PackageTrackingDetails::from_xml(&mut s).unwrap();
    assert_eq!(
        decoded,
        PackageTrackingDetails {
            PackageNumber: "7777777777".to_owned(),
            TrackingNumber: Some("1818181818181818188181".to_owned()),
            CarrierCode: Some("USPS".to_owned()),
            CarrierPhoneNumber: None,
            CarrierURL: None,
            ShipDate: Some(Timestamp::new(2018, 1, 30, 23, 38, 45)),
            ShipToAddress: Some(Default::default()),
            CurrentStatus: PackageStatus::IN_TRANSIT,
            SignedForBy: Some(String::default()),
            EstimatedArrivalDate: Some(Timestamp::new(2018, 2, 1, 8, 0, 0)),
            TrackingEvents: vec![
                TrackingEvent {
                    EventCode: "EVENT_201".to_owned(),
                    EventDate: Some(Timestamp::new(2018, 1, 31, 17, 20, 58)),
                    EventAddress: Some(TrackingAddress {
                        Country: "US".to_owned(),
                        State: "CALIFORNIA".to_owned(),
                        City: "Newark".to_owned(),
                    }),
                },
                TrackingEvent {
                    EventCode: "EVENT_101".to_owned(),
                    EventDate: Some(Timestamp::new(2018, 1, 30, 23, 38, 45)),
                    EventAddress: None,
                },
            ],
            AdditionalLocationInfo: Some(String::default()),
        }
    );
}

#[test]
fn event_description_maps_known_codes() {
    let known = TrackingEvent {
        EventCode: "EVENT_201".to_owned(),
        EventDate: None,
        EventAddress: None,
    };
    assert_eq!(known.event_description(), Some("Arrival scan."));
    let unknown = TrackingEvent {
        EventCode: "EVENT_999".to_owned(),
        EventDate: None,
        EventAddress: None,
    };
    assert_eq!(unknown.event_description(), None);
}

fn list_orders_doc(root: &str) -> String {
    format!(
        r#"<{root}>
  <ListAllFulfillmentOrdersResult>
    <FulfillmentOrders>
      <member>
        <SellerFulfillmentOrderId>o-1</SellerFulfillmentOrderId>
        <DisplayableOrderId>d-1</DisplayableOrderId>
      </member>
      <member>
        <SellerFulfillmentOrderId>o-2</SellerFulfillmentOrderId>
        <DisplayableOrderId>d-2</DisplayableOrderId>
      </member>
    </FulfillmentOrders>
    <NextToken>tok-123</NextToken>
  </ListAllFulfillmentOrdersResult>
  <ResponseMetadata>
    <RequestId>req-1</RequestId>
  </ResponseMetadata>
</{root}>"#,
        root = root
    )
}

#[test]
fn list_orders_accepts_either_root_name() {
    for root in [
        "ListAllFulfillmentOrdersResponse",
        "ListAllFulfillmentOrdersByNextTokenResponse",
    ] {
        let xml = list_orders_doc(root);
        let mut s = Stream::from_xml_text(&xml).unwrap();
        let resp = ListAllFulfillmentOrdersResponse::from_xml(&mut s).unwrap();
        assert_eq!(resp.request_id, "req-1");
        assert_eq!(resp.next_token, Some("tok-123".to_owned()));
        assert_eq!(resp.fulfillment_orders.len(), 2);
        assert_eq!(resp.fulfillment_orders[0].SellerFulfillmentOrderId, "o-1");
        assert_eq!(resp.fulfillment_orders[1].SellerFulfillmentOrderId, "o-2");
    }
}

#[test]
fn list_orders_rejects_a_third_root_name() {
    let xml = list_orders_doc("SomeOtherResponse");
    let mut s = Stream::from_xml_text(&xml).unwrap();
    let err = ListAllFulfillmentOrdersResponse::from_xml(&mut s).unwrap_err();
    assert_eq!(
        err,
        DecodeError::UnexpectedElement {
            expected: vec![
                "ListAllFulfillmentOrdersResponse".to_owned(),
                "ListAllFulfillmentOrdersByNextTokenResponse".to_owned(),
            ],
            found: "SomeOtherResponse".to_owned(),
        }
    );
}

#[test]
fn empty_element_differs_from_absent_element() {
    let mut present = open_fragment("<SellerSKU/><Quantity>2</Quantity>");
    let with_empty = FulfillmentShipmentItem::from_xml(&mut present).unwrap();
    assert_eq!(with_empty.SellerSKU, Some(String::new()));

    let mut absent = open_fragment("<Quantity>2</Quantity>");
    let without = FulfillmentShipmentItem::from_xml(&mut absent).unwrap();
    assert_eq!(without.SellerSKU, None);
    assert_ne!(with_empty, without);
}

#[test]
fn get_fulfillment_order_decodes() {
    let xml = r#"<GetFulfillmentOrderResponse>
  <GetFulfillmentOrderResult>
    <FulfillmentOrder>
      <SellerFulfillmentOrderId>o-9</SellerFulfillmentOrderId>
      <DisplayableOrderId>d-9</DisplayableOrderId>
    </FulfillmentOrder>
    <FulfillmentOrderItem>
      <member>
        <SellerSKU>sku-1</SellerSKU>
        <Quantity>4</Quantity>
      </member>
    </FulfillmentOrderItem>
    <FulfillmentShipment>
      <member>
        <AmazonShipmentId>ship-1</AmazonShipmentId>
        <FulfillmentShipmentStatus>SHIPPED</FulfillmentShipmentStatus>
        <FulfillmentShipmentItem>
          <member>
            <SellerFulfillmentOrderItemId>i-1</SellerFulfillmentOrderItemId>
            <Quantity>4</Quantity>
          </member>
        </FulfillmentShipmentItem>
      </member>
    </FulfillmentShipment>
  </GetFulfillmentOrderResult>
  <ResponseMetadata>
    <RequestId>req-9</RequestId>
  </ResponseMetadata>
</GetFulfillmentOrderResponse>"#;
    let mut s = Stream::from_xml_text(xml).unwrap();
    let resp = GetFulfillmentOrderResponse::from_xml(&mut s).unwrap();
    assert_eq!(resp.request_id, "req-9");
    assert_eq!(resp.fulfillment_order.SellerFulfillmentOrderId, "o-9");
    assert_eq!(resp.fulfillment_order_items.len(), 1);
    assert_eq!(resp.fulfillment_order_items[0].SellerSKU, "sku-1");
    assert_eq!(resp.fulfillment_order_items[0].Quantity, 4);
    assert_eq!(resp.fulfillment_shipments.len(), 1);
    assert_eq!(resp.fulfillment_shipments[0].AmazonShipmentId, "ship-1");
    assert_eq!(
        resp.fulfillment_shipments[0].FulfillmentShipmentStatus,
        mws::fulfillment_outbound::FulfillmentShipmentStatus::SHIPPED
    );
    assert_eq!(resp.fulfillment_shipments[0].FulfillmentShipmentItem.len(), 1);
    assert!(resp.return_item_list.is_empty());
    assert!(resp.return_authorization_list.is_empty());
}
