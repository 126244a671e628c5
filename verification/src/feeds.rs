//! The feed envelope: typed records submitted as XML documents.
//!
//! An [`Envelope`] collects messages of one type and encodes them as a
//! single `AmazonEnvelope` document, in insertion order, through the
//! encode protocol.  [`SubmitFeedResponse`] is the typed decode of the
//! service's reply.

use vstd::prelude::*;
use vstd::string::*;

use crate::decode::DecodeError;
use crate::decode::ErrModel;
use crate::decode::FoldAccumulator;
use crate::decode::Stream;
use crate::decode::characters;
use crate::decode::close_element;
use crate::decode::characters_i32;
use crate::decode::characters_timestamp;
use crate::decode::chars_i32_result;
use crate::decode::chars_result;
use crate::decode::chars_timestamp_result;
use crate::decode::doc_start;
use crate::decode::element_chars;
use crate::decode::element_text;
use crate::decode::fold_elements;
use crate::decode::fold_spec;
use crate::decode::names_view;
use crate::decode::open_element;
use crate::decode::open_result;
use crate::decode::start_document;
use crate::encode::EncodeError;
use crate::encode::Writer;
use crate::encode::XmlWrite;
use crate::encode::end_el;
use crate::encode::start_el;
use crate::encode::text_el;
use crate::encode::write_doc_start;
use crate::encode::write_end;
use crate::encode::write_start;
use crate::encode::write_start_full;
use crate::encode::write_text_element;
use crate::events::Ev;
use crate::events::close_pos;
use crate::events::pairs_view;
use crate::strutil::dec_digits;
use crate::strutil::i32_dec;
use crate::strutil::i32_to_string;
use crate::strutil::str_eq;
use crate::strutil::u64_to_string;
use crate::timestamp::Timestamp;

verus! {

/// The type of operation to be performed on the data of one message.
#[derive(Debug, Clone, Copy, PartialEq, Eq, Structural)]
pub enum OperationType {
    /// All specified information overwrites any existing information;
    /// unspecified information is erased.
    Update,
    /// All information is removed.
    Delete,
    /// All specified information overwrites any existing information;
    /// unspecified information is unaffected.
    PartialUpdate,
}

/// A message type that an [`Envelope`] can carry: it names itself and
/// writes one `Message` element per record.
pub trait Message: Sized {
    /// The message type name, as the `MessageType` element carries it.
    spec fn spec_message_type() -> Seq<char>;

    /// The message type name.
    fn get_message_type() -> (r: &'static str)
        ensures
            r@ == Self::spec_message_type(),
    ;

    /// The events of this record's `Message` element.
    spec fn body_evs(&self) -> Seq<Ev>;

    /// Write this record's `Message` element.
    fn write_body(&self, w: &mut Writer) -> (r: Result<(), EncodeError>)
        ensures
            r is Ok ==> final(w)@ == old(w)@ + self.body_evs() && (old(w).ok() ==> final(w).ok()),
    ;
}

/// One message of an envelope: the record and its optional operation
/// type.
#[allow(non_snake_case)]
#[derive(Debug, PartialEq)]
pub struct EnvelopeMessage<M: Message> {
    pub data: M,
    pub operation_type: Option<OperationType>,
}

/// A feed envelope: the merchant identifier and the messages added so
/// far, in insertion order.
#[allow(non_snake_case)]
#[derive(Debug, PartialEq)]
pub struct Envelope<M: Message> {
    pub MerchantIdentifier: String,
    pub messages: Vec<EnvelopeMessage<M>>,
}

impl<M: Message> View for Envelope<M> {
    type V = Seq<EnvelopeMessage<M>>;

    /// The messages added so far, in insertion order.
    open spec fn view(&self) -> Seq<EnvelopeMessage<M>> {
        self.messages@
    }
}

/// The `Message` elements of a sequence of envelope messages, one event
/// sequence per message, in order.
pub open spec fn bodies_of<M: Message>(msgs: Seq<EnvelopeMessage<M>>) -> Seq<Seq<Ev>> {
    msgs.map_values(|em: EnvelopeMessage<M>| em.data.body_evs())
}

/// The full event sequence of an envelope document: the declaration, the
/// `AmazonEnvelope` root with its schema attribute and `xsi` namespace,
/// the header, the message type, and the messages in insertion order.
pub open spec fn envelope_evs<M: Message>(mid: Seq<char>, msgs: Seq<EnvelopeMessage<M>>) -> Seq<
    Ev,
> {
    seq![
        Ev::StartDocument,
        Ev::StartElement {
            name: "AmazonEnvelope"@,
            attrs: seq![("xsi:noNamespaceSchemaLocation"@, "amznenvelope.xsd"@)],
            ns: seq![("xsi"@, "http://www.w3.org/2001/XMLSchema-instance"@)],
        },
        start_el("Header"@),
    ] + text_el("DocumentVersion"@, "1.01"@) + text_el("MerchantIdentifier"@, mid) + seq![
        end_el("Header"@),
    ] + text_el("MessageType"@, M::spec_message_type()) + seq![start_el("Messages"@)] + bodies_of(
        msgs,
    ).flatten() + seq![end_el("Messages"@), end_el("AmazonEnvelope"@)]
}

impl<M: Message> Envelope<M> {
    /// An empty envelope for the given merchant.
    pub fn new(merchant_identifier: String) -> (r: Self)
        ensures
            r.MerchantIdentifier == merchant_identifier,
            r@ == Seq::<EnvelopeMessage<M>>::empty(),
    {
        Envelope { MerchantIdentifier: merchant_identifier, messages: Vec::new() }
    }

    /// Append one message, keeping insertion order.
    pub fn add_message(&mut self, m: M, operation_type: Option<OperationType>)
        ensures
            final(self).MerchantIdentifier == old(self).MerchantIdentifier,
            final(self)@ == old(self)@.push(
                EnvelopeMessage { data: m, operation_type },
            ),
    {
        self.messages.push(EnvelopeMessage { data: m, operation_type });
    }

    /// Write the whole envelope document: declaration, root element,
    /// header, message type, and every message in insertion order.
    pub fn write_envelope_xml(&self, w: &mut Writer) -> (r: Result<(), EncodeError>)
        ensures
            r is Ok ==> final(w)@ == old(w)@ + envelope_evs::<M>(
                self.MerchantIdentifier@,
                self@,
            ) && (old(w).ok() ==> final(w).ok()),
    {
        let ghost w0 = w@;
        match write_doc_start(w) {
            Ok(()) => {},
            Err(e) => {
                return Err(e);
            },
        }
        let mut attrs: Vec<(String, String)> = Vec::new();
        attrs.push(
            (
                String::from_str("xsi:noNamespaceSchemaLocation"),
                String::from_str("amznenvelope.xsd"),
            ),
        );
        let mut ns: Vec<(String, String)> = Vec::new();
        ns.push(
            (String::from_str("xsi"), String::from_str("http://www.w3.org/2001/XMLSchema-instance")),
        );
        proof {
            assert(pairs_view(attrs@) =~= seq![
                ("xsi:noNamespaceSchemaLocation"@, "amznenvelope.xsd"@),
            ]);
            assert(pairs_view(ns@) =~= seq![("xsi"@, "http://www.w3.org/2001/XMLSchema-instance"@)]);
            assert(attrs@.map_values(|p: (String, String)| (p.0@, p.1@)) == pairs_view(attrs@));
            assert(ns@.map_values(|p: (String, String)| (p.0@, p.1@)) == pairs_view(ns@));
        }
        match write_start_full(w, "AmazonEnvelope", attrs, ns) {
            Ok(()) => {},
            Err(e) => {
                return Err(e);
            },
        }
        match write_start(w, "Header") {
            Ok(()) => {},
            Err(e) => {
                return Err(e);
            },
        }
        match write_text_element(w, "DocumentVersion", "1.01") {
            Ok(()) => {},
            Err(e) => {
                return Err(e);
            },
        }
        match write_text_element(w, "MerchantIdentifier", self.MerchantIdentifier.as_str()) {
            Ok(()) => {},
            Err(e) => {
                return Err(e);
            },
        }
        match write_end(w, "Header") {
            Ok(()) => {},
            Err(e) => {
                return Err(e);
            },
        }
        match write_text_element(w, "MessageType", M::get_message_type()) {
            Ok(()) => {},
            Err(e) => {
                return Err(e);
            },
        }
        match write_start(w, "Messages") {
            Ok(()) => {},
            Err(e) => {
                return Err(e);
            },
        }
        let ghost prefix = w@;
        proof {
            assert(bodies_of(self.messages@.subrange(0, 0)).flatten() =~= Seq::<Ev>::empty());
            assert(w@ =~= prefix + bodies_of(self.messages@.subrange(0, 0)).flatten());
        }
        let mut i: usize = 0;
        let n = self.messages.len();
        while i < n
            invariant
                i <= n,
                n == self.messages@.len(),
                w@ == prefix + bodies_of(self.messages@.subrange(0, i as int)).flatten(),
                old(w).ok() ==> w.ok(),
            decreases n - i,
        {
            let ghost before = w@;
            match self.messages[i].data.write_body(w) {
                Ok(()) => {},
                Err(e) => {
                    return Err(e);
                },
            }
            proof {
                let sub1 = self.messages@.subrange(0, i + 1 as int);
                let sub0 = self.messages@.subrange(0, i as int);
                assert(bodies_of(sub1) =~= bodies_of(sub0).push(
                    self.messages@[i as int].data.body_evs(),
                ));
                bodies_of(sub0).lemma_flatten_push(self.messages@[i as int].data.body_evs());
                assert(w@ =~= prefix + bodies_of(sub1).flatten());
            }
            i += 1;
        }
        proof {
            assert(self.messages@.subrange(0, n as int) =~= self.messages@);
        }
        match write_end(w, "Messages") {
            Ok(()) => {},
            Err(e) => {
                return Err(e);
            },
        }
        match write_end(w, "AmazonEnvelope") {
            Ok(()) => {},
            Err(e) => {
                return Err(e);
            },
        }
        proof {
            assert(w@ =~= w0 + envelope_evs::<M>(
                self.MerchantIdentifier@,
                self@,
            ));
        }
        Ok(())
    }
}

impl XmlWrite for Envelope<InventoryMessage> {
    open spec fn xml_evs(&self) -> Seq<Ev> {
        envelope_evs::<InventoryMessage>(self.MerchantIdentifier@, self@)
    }

    fn write_xml(&self, w: &mut Writer) -> (r: Result<(), EncodeError>) {
        self.write_envelope_xml(w)
    }
}

/// An inventory availability message: one SKU's quantity and fulfillment
/// latency.
#[allow(non_snake_case)]
#[derive(Debug, PartialEq)]
pub struct InventoryMessage {
    pub SKU: String,
    pub Quantity: i32,
    pub FulfillmentLatency: i32,
}

/// The mathematical view of an [`InventoryMessage`].
#[verifier::ext_equal]
pub struct InventoryMessageV {
    pub SKU: Seq<char>,
    pub Quantity: i32,
    pub FulfillmentLatency: i32,
}

impl View for InventoryMessage {
    type V = InventoryMessageV;

    open spec fn view(&self) -> InventoryMessageV {
        InventoryMessageV {
            SKU: self.SKU@,
            Quantity: self.Quantity,
            FulfillmentLatency: self.FulfillmentLatency,
        }
    }
}

impl InventoryMessage {
    /// The value every field starts from before decoding.
    pub open spec fn default_v() -> InventoryMessageV {
        InventoryMessageV { SKU: Seq::empty(), Quantity: 0, FulfillmentLatency: 0 }
    }

    /// What decoding the interior of one `Message` element yields.
    pub open spec fn decode_spec(evs: Seq<Ev>, pos: int) -> Result<
        (InventoryMessageV, int),
        ErrModel,
    > {
        fold_spec::<InventoryMessage>(evs, pos, InventoryMessage::default_v())
    }

    /// Decode the interior of one `Message` element: fields in any
    /// order, unknown children ignored, absent fields left at their
    /// defaults.
    pub fn from_xml(s: &mut Stream) -> (r: Result<InventoryMessage, DecodeError>)
        requires
            old(s).wf(),
        ensures
            final(s).wf(),
            final(s).evs() == old(s).evs(),
            old(s).at() <= final(s).at() <= old(s).evs().len(),
            match r {
                Ok(m) => Self::decode_spec(old(s).evs(), old(s).at()) == Ok::<
                    (InventoryMessageV, int),
                    ErrModel,
                >((m@, final(s).at())),
                Err(e) => Self::decode_spec(old(s).evs(), old(s).at()) == Err::<
                    (InventoryMessageV, int),
                    ErrModel,
                >(e@),
            },
    {
        fold_elements(s, InventoryMessage::default())
    }
}

impl Default for InventoryMessage {
    fn default() -> (r: Self)
        ensures
            r@ == InventoryMessage::default_v(),
    {
        InventoryMessage { SKU: String::new(), Quantity: 0, FulfillmentLatency: 0 }
    }
}

impl Message for InventoryMessage {
    open spec fn spec_message_type() -> Seq<char> {
        "Inventory"@
    }

    fn get_message_type() -> (r: &'static str) {
        "Inventory"
    }

    open spec fn body_evs(&self) -> Seq<Ev> {
        seq![start_el("Message"@)] + text_el("SKU"@, self.SKU@) + text_el(
            "Quantity"@,
            i32_dec(self.Quantity as int),
        ) + text_el("FulfillmentLatency"@, i32_dec(self.FulfillmentLatency as int)) + seq![
            end_el("Message"@),
        ]
    }

    fn write_body(&self, w: &mut Writer) -> (r: Result<(), EncodeError>) {
        let ghost w0 = w@;
        match write_start(w, "Message") {
            Ok(()) => {},
            Err(e) => {
                return Err(e);
            },
        }
        match write_text_element(w, "SKU", self.SKU.as_str()) {
            Ok(()) => {},
            Err(e) => {
                return Err(e);
            },
        }
        let quantity = i32_to_string(self.Quantity);
        match write_text_element(w, "Quantity", quantity.as_str()) {
            Ok(()) => {},
            Err(e) => {
                return Err(e);
            },
        }
        let latency = i32_to_string(self.FulfillmentLatency);
        match write_text_element(w, "FulfillmentLatency", latency.as_str()) {
            Ok(()) => {},
            Err(e) => {
                return Err(e);
            },
        }
        match write_end(w, "Message") {
            Ok(()) => {},
            Err(e) => {
                return Err(e);
            },
        }
        proof {
            assert(w@ =~= w0 + self.body_evs());
        }
        Ok(())
    }
}

impl FoldAccumulator for InventoryMessage {
    open spec fn step_spec(evs: Seq<Ev>, pos: int, acc: InventoryMessageV) -> Result<
        InventoryMessageV,
        ErrModel,
    > {
        match evs[pos] {
            Ev::StartElement { name, .. } => {
                if name == "SKU"@ {
                    match chars_result(evs, pos + 1) {
                        Ok(p) => Ok(InventoryMessageV { SKU: p.0, ..acc }),
                        Err(e) => Err(e),
                    }
                } else if name == "Quantity"@ {
                    match chars_i32_result(evs, pos + 1, name) {
                        Ok(p) => Ok(InventoryMessageV { Quantity: p.0, ..acc }),
                        Err(e) => Err(e),
                    }
                } else if name == "FulfillmentLatency"@ {
                    match chars_i32_result(evs, pos + 1, name) {
                        Ok(p) => Ok(InventoryMessageV { FulfillmentLatency: p.0, ..acc }),
                        Err(e) => Err(e),
                    }
                } else {
                    Ok(acc)
                }
            },
            _ => Ok(acc),
        }
    }

    fn step(&mut self, s: &mut Stream, name: &String) -> (r: Result<(), DecodeError>) {
        if str_eq(name.as_str(), "SKU") {
            match characters(s) {
                Ok(t) => {
                    self.SKU = t;
                    Ok(())
                },
                Err(e) => Err(e),
            }
        } else if str_eq(name.as_str(), "Quantity") {
            match characters_i32(s, name) {
                Ok(n) => {
                    self.Quantity = n;
                    Ok(())
                },
                Err(e) => Err(e),
            }
        } else if str_eq(name.as_str(), "FulfillmentLatency") {
            match characters_i32(s, name) {
                Ok(n) => {
                    self.FulfillmentLatency = n;
                    Ok(())
                },
                Err(e) => Err(e),
            }
        } else {
            Ok(())
        }
    }
}

/// The query parameters for one marketplace identifier list, numbered
/// from one.
pub open spec fn id_params(ids: Seq<Seq<char>>) -> Seq<(Seq<char>, Seq<char>)> {
    Seq::new(ids.len(), |i: int| ("MarketplaceIdList.Id."@ + dec_digits((i + 1) as nat), ids[i]))
}

/// The query parameters of a feed submission: the feed type, one
/// numbered parameter per marketplace identifier, and the purge flag as
/// a canonical boolean literal, each only when present.
pub open spec fn submit_feed_params(
    feed_type: Seq<char>,
    ids: Option<Seq<Seq<char>>>,
    purge: Option<bool>,
) -> Seq<(Seq<char>, Seq<char>)> {
    seq![("FeedType"@, feed_type)] + (match ids {
        Some(list) => id_params(list),
        None => Seq::empty(),
    }) + (match purge {
        Some(v) => seq![("PurgeAndReplace"@, if v { "true"@ } else { "false"@ })],
        None => Seq::empty(),
    })
}

/// The parameters of a feed submission request.
#[allow(non_snake_case)]
#[derive(Debug)]
pub struct SubmitFeedParameters {
    pub FeedType: String,
    pub MarketplaceIdList: Option<Vec<String>>,
    pub PurgeAndReplace: Option<bool>,
}

impl Default for SubmitFeedParameters {
    fn default() -> (r: Self)
        ensures
            r.FeedType@ == Seq::<char>::empty(),
            r.MarketplaceIdList is None,
            r.PurgeAndReplace is None,
    {
        SubmitFeedParameters {
            FeedType: String::new(),
            MarketplaceIdList: None,
            PurgeAndReplace: None,
        }
    }
}

impl SubmitFeedParameters {
    /// The marketplace identifier list as character sequences.
    pub open spec fn ids_view(&self) -> Option<Seq<Seq<char>>> {
        match self.MarketplaceIdList {
            Some(list) => Some(list@.map_values(|s: String| s@)),
            None => None,
        }
    }

    /// Turn the parameters into query pairs, in declaration order.
    pub fn into_params(self) -> (r: Vec<(String, String)>)
        ensures
            pairs_view(r@) == submit_feed_params(
                self.FeedType@,
                self.ids_view(),
                self.PurgeAndReplace,
            ),
    {
        let ghost ftv = self.FeedType@;
        let ghost idsv = self.ids_view();
        let ghost purge = self.PurgeAndReplace;
        let SubmitFeedParameters { FeedType, MarketplaceIdList, PurgeAndReplace } = self;
        let mut r: Vec<(String, String)> = Vec::new();
        r.push((String::from_str("FeedType"), FeedType));
        proof {
            assert(pairs_view(r@) =~= seq![("FeedType"@, ftv)]);
        }
        let ghost base = seq![("FeedType"@, ftv)];
        if let Some(list) = MarketplaceIdList {
            let ghost lv = list@.map_values(|s: String| s@);
            let mut i: usize = 0;
            let n = list.len();
            while i < n
                invariant
                    i <= n,
                    n == list@.len(),
                    lv == list@.map_values(|s: String| s@),
                    pairs_view(r@) == base + id_params(lv.subrange(0, i as int)),
                decreases n - i,
            {
                let mut key = String::from_str("MarketplaceIdList.Id.");
                let num = u64_to_string((i as u64) + 1);
                key.append(num.as_str());
                let id = list[i].clone();
                proof {
                    assert(lv[i as int] == list@[i as int]@);
                }
                let ghost r0 = r@;
                let ghost kv = key@;
                let ghost idv = id@;
                r.push((key, id));
                proof {
                    assert(id_params(lv.subrange(0, i + 1 as int)) =~= id_params(
                        lv.subrange(0, i as int),
                    ).push(("MarketplaceIdList.Id."@ + dec_digits((i + 1) as nat), lv[i as int])));
                    assert(pairs_view(r@) =~= pairs_view(r0).push((kv, idv)));
                    assert(pairs_view(r@) =~= base + id_params(lv.subrange(0, i + 1 as int)));
                }
                i += 1;
            }
            proof {
                assert(lv.subrange(0, n as int) =~= lv);
            }
        }
        if let Some(v) = PurgeAndReplace {
            let flag = if v {
                String::from_str("true")
            } else {
                String::from_str("false")
            };
            r.push((String::from_str("PurgeAndReplace"), flag));
        }
        proof {
            assert(pairs_view(r@) =~= submit_feed_params(ftv, idsv, purge));
        }
        r
    }
}

/// The interior of the `FeedSubmissionInfo` element of a feed submission
/// response.
#[allow(non_snake_case)]
#[derive(Debug, PartialEq)]
pub struct FeedSubmissionInfo {
    pub FeedSubmissionId: String,
    pub FeedType: String,
    pub SubmittedDate: Option<Timestamp>,
    pub FeedProcessingStatus: String,
}

/// The mathematical view of a [`FeedSubmissionInfo`].
#[verifier::ext_equal]
pub struct FeedSubmissionInfoV {
    pub FeedSubmissionId: Seq<char>,
    pub FeedType: Seq<char>,
    pub SubmittedDate: Option<Timestamp>,
    pub FeedProcessingStatus: Seq<char>,
}

impl View for FeedSubmissionInfo {
    type V = FeedSubmissionInfoV;

    open spec fn view(&self) -> FeedSubmissionInfoV {
        FeedSubmissionInfoV {
            FeedSubmissionId: self.FeedSubmissionId@,
            FeedType: self.FeedType@,
            SubmittedDate: self.SubmittedDate,
            FeedProcessingStatus: self.FeedProcessingStatus@,
        }
    }
}

impl FoldAccumulator for FeedSubmissionInfo {
    open spec fn step_spec(evs: Seq<Ev>, pos: int, acc: FeedSubmissionInfoV) -> Result<
        FeedSubmissionInfoV,
        ErrModel,
    > {
        match evs[pos] {
            Ev::StartElement { name, .. } => {
                if name == "FeedSubmissionId"@ {
                    match chars_result(evs, pos + 1) {
                        Ok(p) => Ok(FeedSubmissionInfoV { FeedSubmissionId: p.0, ..acc }),
                        Err(e) => Err(e),
                    }
                } else if name == "FeedType"@ {
                    match chars_result(evs, pos + 1) {
                        Ok(p) => Ok(FeedSubmissionInfoV { FeedType: p.0, ..acc }),
                        Err(e) => Err(e),
                    }
                } else if name == "SubmittedDate"@ {
                    match chars_timestamp_result(evs, pos + 1, name) {
                        Ok(p) => Ok(FeedSubmissionInfoV { SubmittedDate: Some(p.0), ..acc }),
                        Err(e) => Err(e),
                    }
                } else if name == "FeedProcessingStatus"@ {
                    match chars_result(evs, pos + 1) {
                        Ok(p) => Ok(FeedSubmissionInfoV { FeedProcessingStatus: p.0, ..acc }),
                        Err(e) => Err(e),
                    }
                } else {
                    Ok(acc)
                }
            },
            _ => Ok(acc),
        }
    }

    fn step(&mut self, s: &mut Stream, name: &String) -> (r: Result<(), DecodeError>) {
        if str_eq(name.as_str(), "FeedSubmissionId") {
            match characters(s) {
                Ok(t) => {
                    self.FeedSubmissionId = t;
                    Ok(())
                },
                Err(e) => Err(e),
            }
        } else if str_eq(name.as_str(), "FeedType") {
            match characters(s) {
                Ok(t) => {
                    self.FeedType = t;
                    Ok(())
                },
                Err(e) => Err(e),
            }
        } else if str_eq(name.as_str(), "SubmittedDate") {
            match characters_timestamp(s, name) {
                Ok(ts) => {
                    self.SubmittedDate = Some(ts);
                    Ok(())
                },
                Err(e) => Err(e),
            }
        } else if str_eq(name.as_str(), "FeedProcessingStatus") {
            match characters(s) {
                Ok(t) => {
                    self.FeedProcessingStatus = t;
                    Ok(())
                },
                Err(e) => Err(e),
            }
        } else {
            Ok(())
        }
    }
}

/// The typed decode of a feed submission response document.
#[allow(non_snake_case)]
#[derive(Debug, PartialEq)]
pub struct SubmitFeedResponse {
    pub RequestId: String,
    pub FeedType: String,
    pub FeedSubmissionId: String,
    pub SubmittedDate: Option<Timestamp>,
    pub FeedProcessingStatus: String,
}

/// The mathematical view of a [`SubmitFeedResponse`].
#[verifier::ext_equal]
pub struct SubmitFeedResponseV {
    pub RequestId: Seq<char>,
    pub FeedType: Seq<char>,
    pub FeedSubmissionId: Seq<char>,
    pub SubmittedDate: Option<Timestamp>,
    pub FeedProcessingStatus: Seq<char>,
}

impl View for SubmitFeedResponse {
    type V = SubmitFeedResponseV;

    open spec fn view(&self) -> SubmitFeedResponseV {
        SubmitFeedResponseV {
            RequestId: self.RequestId@,
            FeedType: self.FeedType@,
            FeedSubmissionId: self.FeedSubmissionId@,
            SubmittedDate: self.SubmittedDate,
            FeedProcessingStatus: self.FeedProcessingStatus@,
        }
    }
}

impl Default for SubmitFeedResponse {
    fn default() -> (r: Self)
        ensures
            r@ == SubmitFeedResponse::default_v(),
    {
        SubmitFeedResponse {
            RequestId: String::new(),
            FeedType: String::new(),
            FeedSubmissionId: String::new(),
            SubmittedDate: None,
            FeedProcessingStatus: String::new(),
        }
    }
}

impl FoldAccumulator for SubmitFeedResponse {
    open spec fn step_spec(evs: Seq<Ev>, pos: int, acc: SubmitFeedResponseV) -> Result<
        SubmitFeedResponseV,
        ErrModel,
    > {
        match evs[pos] {
            Ev::StartElement { name, .. } => {
                if name == "FeedSubmissionInfo"@ {
                    match fold_spec::<FeedSubmissionInfo>(
                        evs,
                        pos + 1,
                        FeedSubmissionInfoV {
                            FeedSubmissionId: acc.FeedSubmissionId,
                            FeedType: acc.FeedType,
                            SubmittedDate: acc.SubmittedDate,
                            FeedProcessingStatus: acc.FeedProcessingStatus,
                        },
                    ) {
                        Ok(p) => Ok(
                            SubmitFeedResponseV {
                                FeedSubmissionId: p.0.FeedSubmissionId,
                                FeedType: p.0.FeedType,
                                SubmittedDate: p.0.SubmittedDate,
                                FeedProcessingStatus: p.0.FeedProcessingStatus,
                                ..acc
                            },
                        ),
                        Err(e) => Err(e),
                    }
                } else if name == "ResponseMetadata"@ {
                    match element_chars(evs, pos + 1, seq!["RequestId"@]) {
                        Ok(t) => Ok(SubmitFeedResponseV { RequestId: t, ..acc }),
                        Err(e) => Err(e),
                    }
                } else {
                    Ok(acc)
                }
            },
            _ => Ok(acc),
        }
    }

    fn step(&mut self, s: &mut Stream, name: &String) -> (r: Result<(), DecodeError>) {
        if str_eq(name.as_str(), "FeedSubmissionInfo") {
            let init = FeedSubmissionInfo {
                FeedSubmissionId: self.FeedSubmissionId.clone(),
                FeedType: self.FeedType.clone(),
                SubmittedDate: self.SubmittedDate,
                FeedProcessingStatus: self.FeedProcessingStatus.clone(),
            };
            match fold_elements(s, init) {
                Ok(info) => {
                    let FeedSubmissionInfo {
                        FeedSubmissionId,
                        FeedType,
                        SubmittedDate,
                        FeedProcessingStatus,
                    } = info;
                    self.FeedSubmissionId = FeedSubmissionId;
                    self.FeedType = FeedType;
                    self.SubmittedDate = SubmittedDate;
                    self.FeedProcessingStatus = FeedProcessingStatus;
                    Ok(())
                },
                Err(e) => Err(e),
            }
        } else if str_eq(name.as_str(), "ResponseMetadata") {
            let names: Vec<&str> = vec!["RequestId"];
            proof {
                assert(names_view(names@) =~= seq!["RequestId"@]);
            }
            match element_text(s, &names) {
                Ok(t) => {
                    self.RequestId = t;
                    Ok(())
                },
                Err(e) => Err(e),
            }
        } else {
            Ok(())
        }
    }
}

impl SubmitFeedResponse {
    /// The value every field starts from before decoding.
    pub open spec fn default_v() -> SubmitFeedResponseV {
        SubmitFeedResponseV {
            RequestId: Seq::empty(),
            FeedType: Seq::empty(),
            FeedSubmissionId: Seq::empty(),
            SubmittedDate: None,
            FeedProcessingStatus: Seq::empty(),
        }
    }

    /// What decoding a whole feed submission response document yields:
    /// the leading non-content events, the `SubmitFeedResponse` root,
    /// and the fold over its children.
    pub open spec fn document_spec(evs: Seq<Ev>, pos: int) -> Result<
        SubmitFeedResponseV,
        ErrModel,
    > {
        match doc_start(evs, pos) {
            Err(e) => Err(e),
            Ok(p) => match open_result(evs, p, seq!["SubmitFeedResponse"@]) {
                Err(e) => Err(e),
                Ok(q) => match fold_spec::<SubmitFeedResponse>(
                    evs,
                    q + 1,
                    SubmitFeedResponse::default_v(),
                ) {
                    Err(e) => Err(e),
                    Ok(p2) => Ok(p2.0),
                },
            },
        }
    }

    /// Decode a whole feed submission response document.
    pub fn from_xml(s: &mut Stream) -> (r: Result<SubmitFeedResponse, DecodeError>)
        requires
            old(s).wf(),
        ensures
            final(s).wf(),
            final(s).evs() == old(s).evs(),
            old(s).at() <= final(s).at() <= old(s).evs().len(),
            match r {
                Ok(resp) => Self::document_spec(old(s).evs(), old(s).at()) == Ok::<
                    SubmitFeedResponseV,
                    ErrModel,
                >(resp@),
                Err(e) => Self::document_spec(old(s).evs(), old(s).at()) == Err::<
                    SubmitFeedResponseV,
                    ErrModel,
                >(e@),
            },
    {
        match start_document(s) {
            Err(e) => {
                return Err(e);
            },
            Ok(()) => {},
        }
        let names: Vec<&str> = vec!["SubmitFeedResponse"];
        proof {
            assert(names_view(names@) =~= seq!["SubmitFeedResponse"@]);
        }
        match open_element(s, &names) {
            Err(e) => {
                return Err(e);
            },
            Ok(()) => {},
        }
        let resp = match fold_elements(s, SubmitFeedResponse::default()) {
            Err(e) => {
                return Err(e);
            },
            Ok(x) => x,
        };
        match close_element(s) {
            Err(e) => {
                proof {
                    assert(false);
                }
                return Err(e);
            },
            Ok(()) => {},
        }
        Ok(resp)
    }
}

/// Round trip: decoding the `Message` element that the encode protocol
/// writes for an inventory record gives that record back, field for
/// field.
pub proof fn lemma_inventory_message_round_trip(m: InventoryMessage)
    ensures
        InventoryMessage::decode_spec(m.body_evs(), 1) == Ok::<(InventoryMessageV, int), ErrModel>(
            (m@, m.body_evs().len() - 1),
        ),
{
    let evs = m.body_evs();
    let sku = m.SKU@;
    let qd = i32_dec(m.Quantity as int);
    let ld = i32_dec(m.FulfillmentLatency as int);
    assert(evs.len() == 11);
    assert(evs[1] == start_el("SKU"@));
    assert(evs[2] == Ev::Text { content: sku });
    assert(evs[3] == end_el("SKU"@));
    assert(evs[4] == start_el("Quantity"@));
    assert(evs[5] == Ev::Text { content: qd });
    assert(evs[6] == end_el("Quantity"@));
    assert(evs[7] == start_el("FulfillmentLatency"@));
    assert(evs[8] == Ev::Text { content: ld });
    assert(evs[9] == end_el("FulfillmentLatency"@));
    assert(evs[10] == end_el("Message"@));
    reveal_strlit("SKU");
    reveal_strlit("Quantity");
    reveal_strlit("FulfillmentLatency");
    broadcast use vstd::string::group_string_axioms;

    assert(("SKU"@).len() == 3);
    assert(("Quantity"@).len() == 8);
    assert(("FulfillmentLatency"@).len() == 18);
    assert("Quantity"@ != "SKU"@);
    assert("FulfillmentLatency"@ != "SKU"@);
    assert("FulfillmentLatency"@ != "Quantity"@);
    crate::strutil::lemma_i32_round_trip(m.Quantity);
    crate::strutil::lemma_i32_round_trip(m.FulfillmentLatency);
    let d0 = InventoryMessage::default_v();
    assert(chars_result(evs, 3) == Ok::<(Seq<char>, int), ErrModel>((Seq::empty(), 3)));
    assert(sku + Seq::<char>::empty() =~= sku);
    assert(chars_result(evs, 2) == Ok::<(Seq<char>, int), ErrModel>((sku, 3)));
    let d1 = InventoryMessageV { SKU: sku, ..d0 };
    assert(InventoryMessage::step_spec(evs, 1, d0) == Ok::<InventoryMessageV, ErrModel>(d1));
    assert(close_pos(evs, 3, 0) == 3);
    assert(close_pos(evs, 2, 0) == 3);
    assert(fold_spec::<InventoryMessage>(evs, 1, d0) == fold_spec::<InventoryMessage>(evs, 4, d1));
    assert(chars_result(evs, 6) == Ok::<(Seq<char>, int), ErrModel>((Seq::empty(), 6)));
    assert(qd + Seq::<char>::empty() =~= qd);
    assert(chars_result(evs, 5) == Ok::<(Seq<char>, int), ErrModel>((qd, 6)));
    let d2 = InventoryMessageV { Quantity: m.Quantity, ..d1 };
    assert(InventoryMessage::step_spec(evs, 4, d1) == Ok::<InventoryMessageV, ErrModel>(d2));
    assert(close_pos(evs, 6, 0) == 6);
    assert(close_pos(evs, 5, 0) == 6);
    assert(fold_spec::<InventoryMessage>(evs, 4, d1) == fold_spec::<InventoryMessage>(evs, 7, d2));
    assert(chars_result(evs, 9) == Ok::<(Seq<char>, int), ErrModel>((Seq::empty(), 9)));
    assert(ld + Seq::<char>::empty() =~= ld);
    assert(chars_result(evs, 8) == Ok::<(Seq<char>, int), ErrModel>((ld, 9)));
    let d3 = InventoryMessageV { FulfillmentLatency: m.FulfillmentLatency, ..d2 };
    assert(InventoryMessage::step_spec(evs, 7, d2) == Ok::<InventoryMessageV, ErrModel>(d3));
    assert(close_pos(evs, 9, 0) == 9);
    assert(close_pos(evs, 8, 0) == 9);
    assert(fold_spec::<InventoryMessage>(evs, 7, d2) == fold_spec::<InventoryMessage>(
        evs,
        10,
        d3,
    ));
    assert(fold_spec::<InventoryMessage>(evs, 10, d3) == Ok::<(InventoryMessageV, int), ErrModel>(
        (d3, 10),
    ));
    assert(d3 =~= m@);
}

} // verus!
