//! The outbound fulfillment responses: typed decodes of the service's
//! XML replies.

use vstd::prelude::*;
use vstd::string::*;

use crate::decode::DecodeError;
use crate::decode::ErrModel;
use crate::decode::FoldAccumulator;
use crate::decode::Stream;
use crate::decode::characters;
use crate::decode::close_element;
use crate::decode::doc_start;
use crate::decode::element_chars;
use crate::decode::element_text;
use crate::decode::fold_elements;
use crate::decode::fold_spec;
use crate::decode::names_view;
use crate::decode::next_node;
use crate::decode::open_element;
use crate::decode::open_result;
use crate::decode::start_document;
use crate::decode::chars_result;
use crate::events::Ev;
use crate::strutil::str_eq;

pub mod types;

pub use types::Currency;
pub use types::DestinationAddress;
pub use types::FulfillmentOrder;
pub use types::FulfillmentOrderItem;
pub use types::FulfillmentOrderItemList;
pub use types::FulfillmentOrderList;
pub use types::FulfillmentOrderStatus;
pub use types::FulfillmentPolicy;
pub use types::FulfillmentShipment;
pub use types::FulfillmentShipmentItem;
pub use types::FulfillmentShipmentItemList;
pub use types::FulfillmentShipmentList;
pub use types::FulfillmentShipmentPackage;
pub use types::FulfillmentShipmentPackageList;
pub use types::FulfillmentShipmentStatus;
pub use types::PackageStatus;
pub use types::PackageTrackingDetails;
pub use types::ReturnAuthorizationList;
pub use types::ReturnItemList;
pub use types::TrackingAddress;
pub use types::TrackingEvent;
pub use types::TrackingEventList;

verus! {

/// The interior of a `ListAllFulfillmentOrdersResult` element: the
/// fulfillment orders and the continuation token, where present.
#[derive(Debug, PartialEq)]
pub struct ListAllFulfillmentOrdersResult {
    pub fulfillment_orders: Vec<FulfillmentOrder>,
    pub next_token: Option<String>,
}

/// The mathematical view of a [`ListAllFulfillmentOrdersResult`].
#[verifier::ext_equal]
pub struct ListAllFulfillmentOrdersResultV {
    pub fulfillment_orders: Seq<types::FulfillmentOrderV>,
    pub next_token: Option<Seq<char>>,
}

impl View for ListAllFulfillmentOrdersResult {
    type V = ListAllFulfillmentOrdersResultV;

    open spec fn view(&self) -> ListAllFulfillmentOrdersResultV {
        ListAllFulfillmentOrdersResultV {
            fulfillment_orders: types::fulfillment_order_seq(self.fulfillment_orders@),
            next_token: (match self.next_token {
                Some(t) => Some(t@),
                None => None,
            }),
        }
    }
}

impl FoldAccumulator for ListAllFulfillmentOrdersResult {
    open spec fn step_spec(evs: Seq<Ev>, pos: int, acc: ListAllFulfillmentOrdersResultV) -> Result<
        ListAllFulfillmentOrdersResultV,
        ErrModel,
    > {
        match evs[pos] {
            Ev::StartElement { name, .. } => {
                if name == "FulfillmentOrders"@ {
                    match fold_spec::<FulfillmentOrderList>(evs, pos + 1, Seq::empty()) {
                        Ok(p) => Ok(
                            ListAllFulfillmentOrdersResultV { fulfillment_orders: p.0, ..acc },
                        ),
                        Err(e) => Err(e),
                    }
                } else if name == "NextToken"@ {
                    match chars_result(evs, pos + 1) {
                        Ok(p) => Ok(ListAllFulfillmentOrdersResultV { next_token: Some(p.0), ..acc }),
                        Err(e) => Err(e),
                    }
                } else {
                    Ok(acc)
                }
            },
            _ => Ok(acc),
        }
    }

    fn step(&mut self, s: &mut Stream, name: &String) -> (r: Result<(), DecodeError>) {
        if str_eq(name.as_str(), "FulfillmentOrders") {
            let acc0 = FulfillmentOrderList(Vec::new());
            proof {
                assert(acc0@ =~= Seq::<types::FulfillmentOrderV>::empty());
            }
            match fold_elements(s, acc0) {
                Ok(l) => {
                    self.fulfillment_orders = l.0;
                    Ok(())
                },
                Err(e) => Err(e),
            }
        } else if str_eq(name.as_str(), "NextToken") {
            match characters(s) {
                Ok(t) => {
                    self.next_token = Some(t);
                    Ok(())
                },
                Err(e) => Err(e),
            }
        } else {
            Ok(())
        }
    }
}

/// The typed decode of a list-all-fulfillment-orders response document,
/// whether it arrived as a first page or as a next-token page.
#[derive(Debug, PartialEq)]
pub struct ListAllFulfillmentOrdersResponse {
    pub request_id: String,
    pub fulfillment_orders: Vec<FulfillmentOrder>,
    pub next_token: Option<String>,
}

/// The mathematical view of a [`ListAllFulfillmentOrdersResponse`].
#[verifier::ext_equal]
pub struct ListAllFulfillmentOrdersResponseV {
    pub request_id: Seq<char>,
    pub fulfillment_orders: Seq<types::FulfillmentOrderV>,
    pub next_token: Option<Seq<char>>,
}

impl View for ListAllFulfillmentOrdersResponse {
    type V = ListAllFulfillmentOrdersResponseV;

    open spec fn view(&self) -> ListAllFulfillmentOrdersResponseV {
        ListAllFulfillmentOrdersResponseV {
            request_id: self.request_id@,
            fulfillment_orders: types::fulfillment_order_seq(self.fulfillment_orders@),
            next_token: (match self.next_token {
                Some(t) => Some(t@),
                None => None,
            }),
        }
    }
}

impl Default for ListAllFulfillmentOrdersResponse {
    fn default() -> (r: Self)
        ensures
            r@ == ListAllFulfillmentOrdersResponse::default_v(),
    {
        ListAllFulfillmentOrdersResponse {
            request_id: String::new(),
            fulfillment_orders: Vec::new(),
            next_token: None,
        }
    }
}

impl FoldAccumulator for ListAllFulfillmentOrdersResponse {
    open spec fn step_spec(evs: Seq<Ev>, pos: int, acc: ListAllFulfillmentOrdersResponseV) -> Result<
        ListAllFulfillmentOrdersResponseV,
        ErrModel,
    > {
        match evs[pos] {
            Ev::StartElement { name, .. } => {
                if name == "ListAllFulfillmentOrdersResult"@ || name
                    == "ListAllFulfillmentOrdersByNextTokenResult"@ {
                    match fold_spec::<ListAllFulfillmentOrdersResult>(
                        evs,
                        pos + 1,
                        ListAllFulfillmentOrdersResultV {
                            fulfillment_orders: acc.fulfillment_orders,
                            next_token: acc.next_token,
                        },
                    ) {
                        Ok(p) => Ok(
                            ListAllFulfillmentOrdersResponseV {
                                fulfillment_orders: p.0.fulfillment_orders,
                                next_token: p.0.next_token,
                                ..acc
                            },
                        ),
                        Err(e) => Err(e),
                    }
                } else if name == "ResponseMetadata"@ {
                    match element_chars(evs, pos + 1, seq!["RequestId"@]) {
                        Ok(t) => Ok(ListAllFulfillmentOrdersResponseV { request_id: t, ..acc }),
                        Err(e) => Err(e),
                    }
                } else {
                    Ok(acc)
                }
            },
            _ => Ok(acc),
        }
    }

    fn step(&mut self, s: &mut Stream, name: &String) -> (r: Result<(), DecodeError>) {
        if str_eq(name.as_str(), "ListAllFulfillmentOrdersResult") || str_eq(
            name.as_str(),
            "ListAllFulfillmentOrdersByNextTokenResult",
        ) {
            let mut orders: Vec<FulfillmentOrder> = Vec::new();
            core::mem::swap(&mut orders, &mut self.fulfillment_orders);
            let mut token: Option<String> = None;
            core::mem::swap(&mut token, &mut self.next_token);
            let init = ListAllFulfillmentOrdersResult {
                fulfillment_orders: orders,
                next_token: token,
            };
            match fold_elements(s, init) {
                Ok(res) => {
                    let ListAllFulfillmentOrdersResult { fulfillment_orders, next_token } = res;
                    self.fulfillment_orders = fulfillment_orders;
                    self.next_token = next_token;
                    Ok(())
                },
                Err(e) => Err(e),
            }
        } else if str_eq(name.as_str(), "ResponseMetadata") {
            let names: Vec<&str> = vec!["RequestId"];
            proof {
                assert(names_view(names@) =~= seq!["RequestId"@]);
            }
            match element_text(s, &names) {
                Ok(t) => {
                    self.request_id = t;
                    Ok(())
                },
                Err(e) => Err(e),
            }
        } else {
            Ok(())
        }
    }
}

impl ListAllFulfillmentOrdersResponse {
    /// The value every field starts from before decoding.
    pub open spec fn default_v() -> ListAllFulfillmentOrdersResponseV {
        ListAllFulfillmentOrdersResponseV {
            request_id: Seq::empty(),
            fulfillment_orders: Seq::empty(),
            next_token: None,
        }
    }

    /// What decoding a whole list-all-fulfillment-orders response
    /// document yields: the leading non-content events, a root that may
    /// carry either the first-page or the next-token-page name, and the
    /// fold over its children.
    pub open spec fn document_spec(evs: Seq<Ev>, pos: int) -> Result<
        ListAllFulfillmentOrdersResponseV,
        ErrModel,
    > {
        match doc_start(evs, pos) {
            Err(e) => Err(e),
            Ok(p) => match open_result(
                evs,
                p,
                seq![
                    "ListAllFulfillmentOrdersResponse"@,
                    "ListAllFulfillmentOrdersByNextTokenResponse"@,
                ],
            ) {
                Err(e) => Err(e),
                Ok(q) => match fold_spec::<ListAllFulfillmentOrdersResponse>(
                    evs,
                    q + 1,
                    ListAllFulfillmentOrdersResponse::default_v(),
                ) {
                    Err(e) => Err(e),
                    Ok(p2) => Ok(p2.0),
                },
            },
        }
    }

    /// Decode a whole list-all-fulfillment-orders response document.
    pub fn from_xml(s: &mut Stream) -> (r: Result<ListAllFulfillmentOrdersResponse, DecodeError>)
        requires
            old(s).wf(),
        ensures
            final(s).wf(),
            final(s).evs() == old(s).evs(),
            old(s).at() <= final(s).at() <= old(s).evs().len(),
            match r {
                Ok(resp) => Self::document_spec(old(s).evs(), old(s).at()) == Ok::<
                    ListAllFulfillmentOrdersResponseV,
                    ErrModel,
                >(resp@),
                Err(e) => Self::document_spec(old(s).evs(), old(s).at()) == Err::<
                    ListAllFulfillmentOrdersResponseV,
                    ErrModel,
                >(e@),
            },
    {
        match start_document(s) {
            Err(e) => {
                return Err(e);
            },
            Ok(()) => {},
        }
        let names: Vec<&str> = vec![
            "ListAllFulfillmentOrdersResponse",
            "ListAllFulfillmentOrdersByNextTokenResponse",
        ];
        proof {
            assert(names_view(names@) =~= seq![
                "ListAllFulfillmentOrdersResponse"@,
                "ListAllFulfillmentOrdersByNextTokenResponse"@,
            ]);
        }
        match open_element(s, &names) {
            Err(e) => {
                return Err(e);
            },
            Ok(()) => {},
        }
        let resp = match fold_elements(s, ListAllFulfillmentOrdersResponse::default()) {
            Err(e) => {
                return Err(e);
            },
            Ok(x) => x,
        };
        match close_element(s) {
            Err(e) => {
                proof {
                    assert(false);
                }
                return Err(e);
            },
            Ok(()) => {},
        }
        Ok(resp)
    }
}


/// The interior of a `GetFulfillmentOrderResult` element: the order,
/// its shipments and its items.
#[derive(Debug, PartialEq)]
pub struct GetFulfillmentOrderResult {
    pub fulfillment_shipments: Vec<FulfillmentShipment>,
    pub fulfillment_order: FulfillmentOrder,
    pub fulfillment_order_items: Vec<FulfillmentOrderItem>,
}

/// The mathematical view of a [`GetFulfillmentOrderResult`].
#[verifier::ext_equal]
pub struct GetFulfillmentOrderResultV {
    pub fulfillment_shipments: Seq<types::FulfillmentShipmentV>,
    pub fulfillment_order: types::FulfillmentOrderV,
    pub fulfillment_order_items: Seq<types::FulfillmentOrderItemV>,
}

impl View for GetFulfillmentOrderResult {
    type V = GetFulfillmentOrderResultV;

    open spec fn view(&self) -> GetFulfillmentOrderResultV {
        GetFulfillmentOrderResultV {
            fulfillment_shipments: types::fulfillment_shipment_seq(self.fulfillment_shipments@),
            fulfillment_order: self.fulfillment_order@,
            fulfillment_order_items: types::fulfillment_order_item_seq(
                self.fulfillment_order_items@,
            ),
        }
    }
}

impl FoldAccumulator for GetFulfillmentOrderResult {
    open spec fn step_spec(evs: Seq<Ev>, pos: int, acc: GetFulfillmentOrderResultV) -> Result<
        GetFulfillmentOrderResultV,
        ErrModel,
    > {
        match evs[pos] {
            Ev::StartElement { name, .. } => {
                if name == "FulfillmentShipment"@ {
                    match fold_spec::<FulfillmentShipmentList>(evs, pos + 1, Seq::empty()) {
                        Ok(p) => Ok(
                            GetFulfillmentOrderResultV { fulfillment_shipments: p.0, ..acc },
                        ),
                        Err(e) => Err(e),
                    }
                } else if name == "FulfillmentOrder"@ {
                    match FulfillmentOrder::decode_spec(evs, pos + 1) {
                        Ok(p) => Ok(GetFulfillmentOrderResultV { fulfillment_order: p.0, ..acc }),
                        Err(e) => Err(e),
                    }
                } else if name == "FulfillmentOrderItem"@ {
                    match fold_spec::<FulfillmentOrderItemList>(evs, pos + 1, Seq::empty()) {
                        Ok(p) => Ok(
                            GetFulfillmentOrderResultV { fulfillment_order_items: p.0, ..acc },
                        ),
                        Err(e) => Err(e),
                    }
                } else {
                    Ok(acc)
                }
            },
            _ => Ok(acc),
        }
    }

    fn step(&mut self, s: &mut Stream, name: &String) -> (r: Result<(), DecodeError>) {
        if str_eq(name.as_str(), "FulfillmentShipment") {
            let acc0 = FulfillmentShipmentList(Vec::new());
            proof {
                assert(acc0@ =~= Seq::<types::FulfillmentShipmentV>::empty());
            }
            match fold_elements(s, acc0) {
                Ok(l) => {
                    self.fulfillment_shipments = l.0;
                    Ok(())
                },
                Err(e) => Err(e),
            }
        } else if str_eq(name.as_str(), "FulfillmentOrder") {
            match FulfillmentOrder::from_xml(s) {
                Ok(v) => {
                    self.fulfillment_order = v;
                    Ok(())
                },
                Err(e) => Err(e),
            }
        } else if str_eq(name.as_str(), "FulfillmentOrderItem") {
            let acc0 = FulfillmentOrderItemList(Vec::new());
            proof {
                assert(acc0@ =~= Seq::<types::FulfillmentOrderItemV>::empty());
            }
            match fold_elements(s, acc0) {
                Ok(l) => {
                    self.fulfillment_order_items = l.0;
                    Ok(())
                },
                Err(e) => Err(e),
            }
        } else {
            Ok(())
        }
    }
}

/// The typed decode of a get-fulfillment-order response document.
#[derive(Debug, PartialEq)]
pub struct GetFulfillmentOrderResponse {
    pub fulfillment_shipments: Vec<FulfillmentShipment>,
    pub return_item_list: Vec<ReturnItemList>,
    pub return_authorization_list: Vec<ReturnAuthorizationList>,
    pub fulfillment_order: FulfillmentOrder,
    pub fulfillment_order_items: Vec<FulfillmentOrderItem>,
    pub request_id: String,
}

/// The mathematical view of a [`GetFulfillmentOrderResponse`].
#[verifier::ext_equal]
pub struct GetFulfillmentOrderResponseV {
    pub fulfillment_shipments: Seq<types::FulfillmentShipmentV>,
    pub return_item_list: Seq<ReturnItemList>,
    pub return_authorization_list: Seq<ReturnAuthorizationList>,
    pub fulfillment_order: types::FulfillmentOrderV,
    pub fulfillment_order_items: Seq<types::FulfillmentOrderItemV>,
    pub request_id: Seq<char>,
}

impl View for GetFulfillmentOrderResponse {
    type V = GetFulfillmentOrderResponseV;

    open spec fn view(&self) -> GetFulfillmentOrderResponseV {
        GetFulfillmentOrderResponseV {
            fulfillment_shipments: types::fulfillment_shipment_seq(self.fulfillment_shipments@),
            return_item_list: self.return_item_list@,
            return_authorization_list: self.return_authorization_list@,
            fulfillment_order: self.fulfillment_order@,
            fulfillment_order_items: types::fulfillment_order_item_seq(
                self.fulfillment_order_items@,
            ),
            request_id: self.request_id@,
        }
    }
}

impl Default for GetFulfillmentOrderResponse {
    fn default() -> (r: Self)
        ensures
            r@ == GetFulfillmentOrderResponse::default_v(),
    {
        GetFulfillmentOrderResponse {
            fulfillment_shipments: Vec::new(),
            return_item_list: Vec::new(),
            return_authorization_list: Vec::new(),
            fulfillment_order: FulfillmentOrder::default(),
            fulfillment_order_items: Vec::new(),
            request_id: String::new(),
        }
    }
}

impl FoldAccumulator for GetFulfillmentOrderResponse {
    open spec fn step_spec(evs: Seq<Ev>, pos: int, acc: GetFulfillmentOrderResponseV) -> Result<
        GetFulfillmentOrderResponseV,
        ErrModel,
    > {
        match evs[pos] {
            Ev::StartElement { name, .. } => {
                if name == "GetFulfillmentOrderResult"@ {
                    match fold_spec::<GetFulfillmentOrderResult>(
                        evs,
                        pos + 1,
                        GetFulfillmentOrderResultV {
                            fulfillment_shipments: acc.fulfillment_shipments,
                            fulfillment_order: acc.fulfillment_order,
                            fulfillment_order_items: acc.fulfillment_order_items,
                        },
                    ) {
                        Ok(p) => Ok(
                            GetFulfillmentOrderResponseV {
                                fulfillment_shipments: p.0.fulfillment_shipments,
                                fulfillment_order: p.0.fulfillment_order,
                                fulfillment_order_items: p.0.fulfillment_order_items,
                                ..acc
                            },
                        ),
                        Err(e) => Err(e),
                    }
                } else if name == "ResponseMetadata"@ {
                    match element_chars(evs, pos + 1, seq!["RequestId"@]) {
                        Ok(t) => Ok(GetFulfillmentOrderResponseV { request_id: t, ..acc }),
                        Err(e) => Err(e),
                    }
                } else {
                    Ok(acc)
                }
            },
            _ => Ok(acc),
        }
    }

    fn step(&mut self, s: &mut Stream, name: &String) -> (r: Result<(), DecodeError>) {
        if str_eq(name.as_str(), "GetFulfillmentOrderResult") {
            let mut shipments: Vec<FulfillmentShipment> = Vec::new();
            core::mem::swap(&mut shipments, &mut self.fulfillment_shipments);
            let mut order = FulfillmentOrder::default();
            core::mem::swap(&mut order, &mut self.fulfillment_order);
            let mut items: Vec<FulfillmentOrderItem> = Vec::new();
            core::mem::swap(&mut items, &mut self.fulfillment_order_items);
            let init = GetFulfillmentOrderResult {
                fulfillment_shipments: shipments,
                fulfillment_order: order,
                fulfillment_order_items: items,
            };
            match fold_elements(s, init) {
                Ok(res) => {
                    let GetFulfillmentOrderResult {
                        fulfillment_shipments,
                        fulfillment_order,
                        fulfillment_order_items,
                    } = res;
                    self.fulfillment_shipments = fulfillment_shipments;
                    self.fulfillment_order = fulfillment_order;
                    self.fulfillment_order_items = fulfillment_order_items;
                    Ok(())
                },
                Err(e) => Err(e),
            }
        } else if str_eq(name.as_str(), "ResponseMetadata") {
            let names: Vec<&str> = vec!["RequestId"];
            proof {
                assert(names_view(names@) =~= seq!["RequestId"@]);
            }
            match element_text(s, &names) {
                Ok(t) => {
                    self.request_id = t;
                    Ok(())
                },
                Err(e) => Err(e),
            }
        } else {
            Ok(())
        }
    }
}

impl GetFulfillmentOrderResponse {
    /// The value every field starts from before decoding.
    pub open spec fn default_v() -> GetFulfillmentOrderResponseV {
        GetFulfillmentOrderResponseV {
            fulfillment_shipments: Seq::empty(),
            return_item_list: Seq::empty(),
            return_authorization_list: Seq::empty(),
            fulfillment_order: FulfillmentOrder::default_v(),
            fulfillment_order_items: Seq::empty(),
            request_id: Seq::empty(),
        }
    }

    /// What decoding a whole get-fulfillment-order response document
    /// yields.
    pub open spec fn document_spec(evs: Seq<Ev>, pos: int) -> Result<
        GetFulfillmentOrderResponseV,
        ErrModel,
    > {
        match doc_start(evs, pos) {
            Err(e) => Err(e),
            Ok(p) => match open_result(evs, p, seq!["GetFulfillmentOrderResponse"@]) {
                Err(e) => Err(e),
                Ok(q) => match fold_spec::<GetFulfillmentOrderResponse>(
                    evs,
                    q + 1,
                    GetFulfillmentOrderResponse::default_v(),
                ) {
                    Err(e) => Err(e),
                    Ok(p2) => Ok(p2.0),
                },
            },
        }
    }

    /// Decode a whole get-fulfillment-order response document.
    pub fn from_xml(s: &mut Stream) -> (r: Result<GetFulfillmentOrderResponse, DecodeError>)
        requires
            old(s).wf(),
        ensures
            final(s).wf(),
            final(s).evs() == old(s).evs(),
            old(s).at() <= final(s).at() <= old(s).evs().len(),
            match r {
                Ok(resp) => Self::document_spec(old(s).evs(), old(s).at()) == Ok::<
                    GetFulfillmentOrderResponseV,
                    ErrModel,
                >(resp@),
                Err(e) => Self::document_spec(old(s).evs(), old(s).at()) == Err::<
                    GetFulfillmentOrderResponseV,
                    ErrModel,
                >(e@),
            },
    {
        match start_document(s) {
            Err(e) => {
                return Err(e);
            },
            Ok(()) => {},
        }
        let names: Vec<&str> = vec!["GetFulfillmentOrderResponse"];
        proof {
            assert(names_view(names@) =~= seq!["GetFulfillmentOrderResponse"@]);
        }
        match open_element(s, &names) {
            Err(e) => {
                return Err(e);
            },
            Ok(()) => {},
        }
        let resp = match fold_elements(s, GetFulfillmentOrderResponse::default()) {
            Err(e) => {
                return Err(e);
            },
            Ok(x) => x,
        };
        match close_element(s) {
            Err(e) => {
                proof {
                    assert(false);
                }
                return Err(e);
            },
            Ok(()) => {},
        }
        Ok(resp)
    }
}


/// Alternative root names: a list-all-fulfillment-orders document whose
/// root start tag carries either accepted name opens successfully, and
/// any third name is refused with the accepted alternatives and the
/// name found.
pub proof fn lemma_alternative_root_names(evs: Seq<Ev>, pos: int, name: Seq<char>)
    requires
        0 <= pos <= evs.len(),
        ({
            let p = next_node(evs, pos);
            p < evs.len() && (evs[p] matches Ev::StartElement { name: n, .. } && n == name)
        }),
    ensures
        ({
            let alts = seq![
                "ListAllFulfillmentOrdersResponse"@,
                "ListAllFulfillmentOrdersByNextTokenResponse"@,
            ];
            ((name == alts[0] || name == alts[1]) ==> open_result(evs, pos, alts) == Ok::<
                int,
                ErrModel,
            >(next_node(evs, pos))) && (!(name == alts[0] || name == alts[1])
                ==> open_result(evs, pos, alts) == Err::<int, ErrModel>(
                ErrModel::UnexpectedElement { expected: alts, found: name },
            ))
        }),
{
    let alts = seq![
        "ListAllFulfillmentOrdersResponse"@,
        "ListAllFulfillmentOrdersByNextTokenResponse"@,
    ];
    if name == alts[0] || name == alts[1] {
        assert(alts.contains(name));
    } else {
        assert(!alts.contains(name)) by {
            if alts.contains(name) {
                let i = choose|i: int| 0 <= i < alts.len() && alts[i] == name;
                assert(i == 0 || i == 1);
            }
        }
    }
}

} // verus!

