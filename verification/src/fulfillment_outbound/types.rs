//! The typed records of the outbound fulfillment responses.
//!
//! Each record implements the typed decode protocol by hand: its
//! dispatch table maps a child element's local name to a
//! decode-and-assign action, unknown children are ignored, absent
//! fields keep their defaults, and sequence fields accumulate one item
//! per child of their wrapper element, in document order.

use vstd::prelude::*;
use vstd::string::*;

use crate::decode::DecodeError;
use crate::decode::ErrModel;
use crate::decode::FoldAccumulator;
use crate::decode::Stream;
use crate::decode::StringList;
use crate::decode::characters;
use crate::decode::characters_i32;
use crate::decode::characters_timestamp;
use crate::decode::chars_i32_result;
use crate::decode::chars_result;
use crate::decode::chars_timestamp_result;
use crate::decode::fold_elements;
use crate::decode::fold_spec;
use crate::decode::strings_seq;
use crate::events::Ev;
use crate::events::close_pos;
use crate::strutil::str_eq;
use crate::timestamp::Timestamp;

verus! {


/// The fulfillment policy chosen when the fulfillment order was created.
#[allow(non_camel_case_types)]
#[derive(Debug, Clone, Copy, PartialEq, Eq, Structural)]
pub enum FulfillmentPolicy {
    FillOrKill,
    FillAll,
    FillAllAvailable,
}

/// What parsing a text as a [`FulfillmentPolicy`] yields: exactly one of its names.
pub open spec fn fulfillment_policy_of(s: Seq<char>) -> Option<FulfillmentPolicy> {
    if s == "FillOrKill"@ {
        Some(FulfillmentPolicy::FillOrKill)
    } else if s == "FillAll"@ {
        Some(FulfillmentPolicy::FillAll)
    } else if s == "FillAllAvailable"@ {
        Some(FulfillmentPolicy::FillAllAvailable)
    } else {
        None
    }
}

/// Parse a [`FulfillmentPolicy`] from its exact name.
pub fn parse_fulfillment_policy(t: &str) -> (r: Option<FulfillmentPolicy>)
    ensures
        r == fulfillment_policy_of(t@),
{
    if str_eq(t, "FillOrKill") {
        Some(FulfillmentPolicy::FillOrKill)
    } else if str_eq(t, "FillAll") {
        Some(FulfillmentPolicy::FillAll)
    } else if str_eq(t, "FillAllAvailable") {
        Some(FulfillmentPolicy::FillAllAvailable)
    } else {
        None
    }
}

impl Default for FulfillmentPolicy {
    fn default() -> (r: Self)
        ensures
            r == FulfillmentPolicy::FillOrKill,
    {
        FulfillmentPolicy::FillOrKill
    }
}

/// The current status of a fulfillment order.
#[allow(non_camel_case_types)]
#[derive(Debug, Clone, Copy, PartialEq, Eq, Structural)]
pub enum FulfillmentOrderStatus {
    RECEIVED,
    INVALID,
    PLANNING,
    PROCESSING,
    CANCELLED,
    COMPLETE,
    COMPLETE_PARTIALLED,
    UNFULFILLABLE,
}

/// What parsing a text as a [`FulfillmentOrderStatus`] yields: exactly one of its names.
pub open spec fn fulfillment_order_status_of(s: Seq<char>) -> Option<FulfillmentOrderStatus> {
    if s == "RECEIVED"@ {
        Some(FulfillmentOrderStatus::RECEIVED)
    } else if s == "INVALID"@ {
        Some(FulfillmentOrderStatus::INVALID)
    } else if s == "PLANNING"@ {
        Some(FulfillmentOrderStatus::PLANNING)
    } else if s == "PROCESSING"@ {
        Some(FulfillmentOrderStatus::PROCESSING)
    } else if s == "CANCELLED"@ {
        Some(FulfillmentOrderStatus::CANCELLED)
    } else if s == "COMPLETE"@ {
        Some(FulfillmentOrderStatus::COMPLETE)
    } else if s == "COMPLETE_PARTIALLED"@ {
        Some(FulfillmentOrderStatus::COMPLETE_PARTIALLED)
    } else if s == "UNFULFILLABLE"@ {
        Some(FulfillmentOrderStatus::UNFULFILLABLE)
    } else {
        None
    }
}

/// Parse a [`FulfillmentOrderStatus`] from its exact name.
pub fn parse_fulfillment_order_status(t: &str) -> (r: Option<FulfillmentOrderStatus>)
    ensures
        r == fulfillment_order_status_of(t@),
{
    if str_eq(t, "RECEIVED") {
        Some(FulfillmentOrderStatus::RECEIVED)
    } else if str_eq(t, "INVALID") {
        Some(FulfillmentOrderStatus::INVALID)
    } else if str_eq(t, "PLANNING") {
        Some(FulfillmentOrderStatus::PLANNING)
    } else if str_eq(t, "PROCESSING") {
        Some(FulfillmentOrderStatus::PROCESSING)
    } else if str_eq(t, "CANCELLED") {
        Some(FulfillmentOrderStatus::CANCELLED)
    } else if str_eq(t, "COMPLETE") {
        Some(FulfillmentOrderStatus::COMPLETE)
    } else if str_eq(t, "COMPLETE_PARTIALLED") {
        Some(FulfillmentOrderStatus::COMPLETE_PARTIALLED)
    } else if str_eq(t, "UNFULFILLABLE") {
        Some(FulfillmentOrderStatus::UNFULFILLABLE)
    } else {
        None
    }
}

impl Default for FulfillmentOrderStatus {
    fn default() -> (r: Self)
        ensures
            r == FulfillmentOrderStatus::RECEIVED,
    {
        FulfillmentOrderStatus::RECEIVED
    }
}

/// The current status of a shipment.
#[allow(non_camel_case_types)]
#[derive(Debug, Clone, Copy, PartialEq, Eq, Structural)]
pub enum FulfillmentShipmentStatus {
    PENDING,
    SHIPPED,
    CANCELLED_BY_FULFILLER,
    CANCELLED_BY_SELLER,
}

/// What parsing a text as a [`FulfillmentShipmentStatus`] yields: exactly one of its names.
pub open spec fn fulfillment_shipment_status_of(s: Seq<char>) -> Option<FulfillmentShipmentStatus> {
    if s == "PENDING"@ {
        Some(FulfillmentShipmentStatus::PENDING)
    } else if s == "SHIPPED"@ {
        Some(FulfillmentShipmentStatus::SHIPPED)
    } else if s == "CANCELLED_BY_FULFILLER"@ {
        Some(FulfillmentShipmentStatus::CANCELLED_BY_FULFILLER)
    } else if s == "CANCELLED_BY_SELLER"@ {
        Some(FulfillmentShipmentStatus::CANCELLED_BY_SELLER)
    } else {
        None
    }
}

/// Parse a [`FulfillmentShipmentStatus`] from its exact name.
pub fn parse_fulfillment_shipment_status(t: &str) -> (r: Option<FulfillmentShipmentStatus>)
    ensures
        r == fulfillment_shipment_status_of(t@),
{
    if str_eq(t, "PENDING") {
        Some(FulfillmentShipmentStatus::PENDING)
    } else if str_eq(t, "SHIPPED") {
        Some(FulfillmentShipmentStatus::SHIPPED)
    } else if str_eq(t, "CANCELLED_BY_FULFILLER") {
        Some(FulfillmentShipmentStatus::CANCELLED_BY_FULFILLER)
    } else if str_eq(t, "CANCELLED_BY_SELLER") {
        Some(FulfillmentShipmentStatus::CANCELLED_BY_SELLER)
    } else {
        None
    }
}

impl Default for FulfillmentShipmentStatus {
    fn default() -> (r: Self)
        ensures
            r == FulfillmentShipmentStatus::PENDING,
    {
        FulfillmentShipmentStatus::PENDING
    }
}

/// The current delivery status of a package.
#[allow(non_camel_case_types)]
#[derive(Debug, Clone, Copy, PartialEq, Eq, Structural)]
pub enum PackageStatus {
    IN_TRANSIT,
    DELIVERED,
    RETURNING,
    RETURNED,
    UNDELIVERABLE,
    DELAYED,
    AVAILABLE_FOR_PICKUP,
    CUSTOMER_ACTION,
}

/// What parsing a text as a [`PackageStatus`] yields: exactly one of its names.
pub open spec fn package_status_of(s: Seq<char>) -> Option<PackageStatus> {
    if s == "IN_TRANSIT"@ {
        Some(PackageStatus::IN_TRANSIT)
    } else if s == "DELIVERED"@ {
        Some(PackageStatus::DELIVERED)
    } else if s == "RETURNING"@ {
        Some(PackageStatus::RETURNING)
    } else if s == "RETURNED"@ {
        Some(PackageStatus::RETURNED)
    } else if s == "UNDELIVERABLE"@ {
        Some(PackageStatus::UNDELIVERABLE)
    } else if s == "DELAYED"@ {
        Some(PackageStatus::DELAYED)
    } else if s == "AVAILABLE_FOR_PICKUP"@ {
        Some(PackageStatus::AVAILABLE_FOR_PICKUP)
    } else if s == "CUSTOMER_ACTION"@ {
        Some(PackageStatus::CUSTOMER_ACTION)
    } else {
        None
    }
}

/// Parse a [`PackageStatus`] from its exact name.
pub fn parse_package_status(t: &str) -> (r: Option<PackageStatus>)
    ensures
        r == package_status_of(t@),
{
    if str_eq(t, "IN_TRANSIT") {
        Some(PackageStatus::IN_TRANSIT)
    } else if str_eq(t, "DELIVERED") {
        Some(PackageStatus::DELIVERED)
    } else if str_eq(t, "RETURNING") {
        Some(PackageStatus::RETURNING)
    } else if str_eq(t, "RETURNED") {
        Some(PackageStatus::RETURNED)
    } else if str_eq(t, "UNDELIVERABLE") {
        Some(PackageStatus::UNDELIVERABLE)
    } else if str_eq(t, "DELAYED") {
        Some(PackageStatus::DELAYED)
    } else if str_eq(t, "AVAILABLE_FOR_PICKUP") {
        Some(PackageStatus::AVAILABLE_FOR_PICKUP)
    } else if str_eq(t, "CUSTOMER_ACTION") {
        Some(PackageStatus::CUSTOMER_ACTION)
    } else {
        None
    }
}

impl Default for PackageStatus {
    fn default() -> (r: Self)
        ensures
            r == PackageStatus::IN_TRANSIT,
    {
        PackageStatus::IN_TRANSIT
    }
}

/// A monetary amount with its three-digit currency code.
#[allow(non_snake_case)]
#[derive(Debug, PartialEq)]
pub struct Currency {
    pub CurrencyCode: String,
    pub Value: String,
}

/// The mathematical view of a [`Currency`].
#[verifier::ext_equal]
#[allow(non_snake_case)]
pub struct CurrencyV {
    pub CurrencyCode: Seq<char>,
    pub Value: Seq<char>,
}

/// The views of a sequence of [`Currency`] records.
pub open spec fn currency_seq(v: Seq<Currency>) -> Seq<CurrencyV> {
    v.map_values(|x: Currency| x@)
}

impl View for Currency {
    type V = CurrencyV;

    open spec fn view(&self) -> CurrencyV {
        CurrencyV {
            CurrencyCode: (self.CurrencyCode@),
            Value: (self.Value@),
        }
    }
}

impl Currency {
    /// The value every field starts from before decoding.
    pub open spec fn default_v() -> CurrencyV {
        CurrencyV {
            CurrencyCode: Seq::empty(),
            Value: Seq::empty(),
        }
    }

    /// What decoding this record from the current scope yields.
    pub open spec fn decode_spec(evs: Seq<Ev>, pos: int) -> Result<(CurrencyV, int), ErrModel> {
        fold_spec::<Currency>(evs, pos, Currency::default_v())
    }

    /// Decode this record from the children of the current scope:
    /// fields in any order, unknown children ignored, absent fields
    /// left at their defaults.
    pub fn from_xml(s: &mut Stream) -> (r: Result<Currency, DecodeError>)
        requires
            old(s).wf(),
        ensures
            final(s).wf(),
            final(s).evs() == old(s).evs(),
            old(s).at() <= final(s).at() <= old(s).evs().len(),
            match r {
                Ok(v) => Currency::decode_spec(old(s).evs(), old(s).at()) == Ok::<(CurrencyV, int), ErrModel>((v@, final(s).at()))
                    && close_pos(old(s).evs(), old(s).at(), 0) == final(s).at()
                    && close_pos(old(s).evs(), final(s).at(), 0) == final(s).at(),
                Err(e) => Currency::decode_spec(old(s).evs(), old(s).at()) == Err::<(CurrencyV, int), ErrModel>(e@),
            },
    {
        fold_elements(s, Currency::default())
    }
}

impl Default for Currency {
    fn default() -> (r: Self)
        ensures
            r@ == Currency::default_v(),
    {
        Currency {
            CurrencyCode: String::new(),
            Value: String::new(),
        }
    }
}

impl FoldAccumulator for Currency {
    open spec fn step_spec(evs: Seq<Ev>, pos: int, acc: CurrencyV) -> Result<CurrencyV, ErrModel> {
        match evs[pos] {
            Ev::StartElement { name, .. } => {
                if name == "CurrencyCode"@ {
                    match chars_result(evs, pos + 1) {
                        Ok(p) => Ok(CurrencyV { CurrencyCode: p.0, ..acc }),
                        Err(e) => Err(e),
                    }
                } else if name == "Value"@ {
                    match chars_result(evs, pos + 1) {
                        Ok(p) => Ok(CurrencyV { Value: p.0, ..acc }),
                        Err(e) => Err(e),
                    }
                } else {
                    Ok(acc)
                }
            },
            _ => Ok(acc),
        }
    }

    fn step(&mut self, s: &mut Stream, name: &String) -> (r: Result<(), DecodeError>) {
        if str_eq(name.as_str(), "CurrencyCode") {
            match characters(s) {
                Ok(t) => {
                    self.CurrencyCode = t;
                    Ok(())
                },
                Err(e) => Err(e),
            }
        } else if str_eq(name.as_str(), "Value") {
            match characters(s) {
                Ok(t) => {
                    self.Value = t;
                    Ok(())
                },
                Err(e) => Err(e),
            }
        } else {
            Ok(())
        }
    }
}

/// The destination address of a fulfillment order.
#[allow(non_snake_case)]
#[derive(Debug, PartialEq)]
pub struct DestinationAddress {
    pub PhoneNumber: String,
    pub City: String,
    pub CountryCode: String,
    pub PostalCode: String,
    pub Name: String,
    pub StateOrProvinceCode: String,
    pub DistrictOrCounty: String,
    pub Line1: String,
    pub Line2: String,
    pub Line3: String,
}

/// The mathematical view of a [`DestinationAddress`].
#[verifier::ext_equal]
#[allow(non_snake_case)]
pub struct DestinationAddressV {
    pub PhoneNumber: Seq<char>,
    pub City: Seq<char>,
    pub CountryCode: Seq<char>,
    pub PostalCode: Seq<char>,
    pub Name: Seq<char>,
    pub StateOrProvinceCode: Seq<char>,
    pub DistrictOrCounty: Seq<char>,
    pub Line1: Seq<char>,
    pub Line2: Seq<char>,
    pub Line3: Seq<char>,
}

/// The views of a sequence of [`DestinationAddress`] records.
pub open spec fn destination_address_seq(v: Seq<DestinationAddress>) -> Seq<DestinationAddressV> {
    v.map_values(|x: DestinationAddress| x@)
}

impl View for DestinationAddress {
    type V = DestinationAddressV;

    open spec fn view(&self) -> DestinationAddressV {
        DestinationAddressV {
            PhoneNumber: (self.PhoneNumber@),
            City: (self.City@),
            CountryCode: (self.CountryCode@),
            PostalCode: (self.PostalCode@),
            Name: (self.Name@),
            StateOrProvinceCode: (self.StateOrProvinceCode@),
            DistrictOrCounty: (self.DistrictOrCounty@),
            Line1: (self.Line1@),
            Line2: (self.Line2@),
            Line3: (self.Line3@),
        }
    }
}

impl DestinationAddress {
    /// The value every field starts from before decoding.
    pub open spec fn default_v() -> DestinationAddressV {
        DestinationAddressV {
            PhoneNumber: Seq::empty(),
            City: Seq::empty(),
            CountryCode: Seq::empty(),
            PostalCode: Seq::empty(),
            Name: Seq::empty(),
            StateOrProvinceCode: Seq::empty(),
            DistrictOrCounty: Seq::empty(),
            Line1: Seq::empty(),
            Line2: Seq::empty(),
            Line3: Seq::empty(),
        }
    }

    /// What decoding this record from the current scope yields.
    pub open spec fn decode_spec(evs: Seq<Ev>, pos: int) -> Result<(DestinationAddressV, int), ErrModel> {
        fold_spec::<DestinationAddress>(evs, pos, DestinationAddress::default_v())
    }

    /// Decode this record from the children of the current scope:
    /// fields in any order, unknown children ignored, absent fields
    /// left at their defaults.
    pub fn from_xml(s: &mut Stream) -> (r: Result<DestinationAddress, DecodeError>)
        requires
            old(s).wf(),
        ensures
            final(s).wf(),
            final(s).evs() == old(s).evs(),
            old(s).at() <= final(s).at() <= old(s).evs().len(),
            match r {
                Ok(v) => DestinationAddress::decode_spec(old(s).evs(), old(s).at()) == Ok::<(DestinationAddressV, int), ErrModel>((v@, final(s).at()))
                    && close_pos(old(s).evs(), old(s).at(), 0) == final(s).at()
                    && close_pos(old(s).evs(), final(s).at(), 0) == final(s).at(),
                Err(e) => DestinationAddress::decode_spec(old(s).evs(), old(s).at()) == Err::<(DestinationAddressV, int), ErrModel>(e@),
            },
    {
        fold_elements(s, DestinationAddress::default())
    }
}

impl Default for DestinationAddress {
    fn default() -> (r: Self)
        ensures
            r@ == DestinationAddress::default_v(),
    {
        DestinationAddress {
            PhoneNumber: String::new(),
            City: String::new(),
            CountryCode: String::new(),
            PostalCode: String::new(),
            Name: String::new(),
            StateOrProvinceCode: String::new(),
            DistrictOrCounty: String::new(),
            Line1: String::new(),
            Line2: String::new(),
            Line3: String::new(),
        }
    }
}

impl FoldAccumulator for DestinationAddress {
    open spec fn step_spec(evs: Seq<Ev>, pos: int, acc: DestinationAddressV) -> Result<DestinationAddressV, ErrModel> {
        match evs[pos] {
            Ev::StartElement { name, .. } => {
                if name == "PhoneNumber"@ {
                    match chars_result(evs, pos + 1) {
                        Ok(p) => Ok(DestinationAddressV { PhoneNumber: p.0, ..acc }),
                        Err(e) => Err(e),
                    }
                } else if name == "City"@ {
                    match chars_result(evs, pos + 1) {
                        Ok(p) => Ok(DestinationAddressV { City: p.0, ..acc }),
                        Err(e) => Err(e),
                    }
                } else if name == "CountryCode"@ {
                    match chars_result(evs, pos + 1) {
                        Ok(p) => Ok(DestinationAddressV { CountryCode: p.0, ..acc }),
                        Err(e) => Err(e),
                    }
                } else if name == "PostalCode"@ {
                    match chars_result(evs, pos + 1) {
                        Ok(p) => Ok(DestinationAddressV { PostalCode: p.0, ..acc }),
                        Err(e) => Err(e),
                    }
                } else if name == "StateOrProvinceCode"@ {
                    match chars_result(evs, pos + 1) {
                        Ok(p) => Ok(DestinationAddressV { StateOrProvinceCode: p.0, ..acc }),
                        Err(e) => Err(e),
                    }
                } else if name == "DistrictOrCounty"@ {
                    match chars_result(evs, pos + 1) {
                        Ok(p) => Ok(DestinationAddressV { DistrictOrCounty: p.0, ..acc }),
                        Err(e) => Err(e),
                    }
                } else if name == "Name"@ {
                    match chars_result(evs, pos + 1) {
                        Ok(p) => Ok(DestinationAddressV { Name: p.0, ..acc }),
                        Err(e) => Err(e),
                    }
                } else if name == "Line1"@ {
                    match chars_result(evs, pos + 1) {
                        Ok(p) => Ok(DestinationAddressV { Line1: p.0, ..acc }),
                        Err(e) => Err(e),
                    }
                } else if name == "Line2"@ {
                    match chars_result(evs, pos + 1) {
                        Ok(p) => Ok(DestinationAddressV { Line2: p.0, ..acc }),
                        Err(e) => Err(e),
                    }
                } else if name == "Line3"@ {
                    match chars_result(evs, pos + 1) {
                        Ok(p) => Ok(DestinationAddressV { Line3: p.0, ..acc }),
                        Err(e) => Err(e),
                    }
                } else {
                    Ok(acc)
                }
            },
            _ => Ok(acc),
        }
    }

    fn step(&mut self, s: &mut Stream, name: &String) -> (r: Result<(), DecodeError>) {
        if str_eq(name.as_str(), "PhoneNumber") {
            match characters(s) {
                Ok(t) => {
                    self.PhoneNumber = t;
                    Ok(())
                },
                Err(e) => Err(e),
            }
        } else if str_eq(name.as_str(), "City") {
            match characters(s) {
                Ok(t) => {
                    self.City = t;
                    Ok(())
                },
                Err(e) => Err(e),
            }
        } else if str_eq(name.as_str(), "CountryCode") {
            match characters(s) {
                Ok(t) => {
                    self.CountryCode = t;
                    Ok(())
                },
                Err(e) => Err(e),
            }
        } else if str_eq(name.as_str(), "PostalCode") {
            match characters(s) {
                Ok(t) => {
                    self.PostalCode = t;
                    Ok(())
                },
                Err(e) => Err(e),
            }
        } else if str_eq(name.as_str(), "StateOrProvinceCode") {
            match characters(s) {
                Ok(t) => {
                    self.StateOrProvinceCode = t;
                    Ok(())
                },
                Err(e) => Err(e),
            }
        } else if str_eq(name.as_str(), "DistrictOrCounty") {
            match characters(s) {
                Ok(t) => {
                    self.DistrictOrCounty = t;
                    Ok(())
                },
                Err(e) => Err(e),
            }
        } else if str_eq(name.as_str(), "Name") {
            match characters(s) {
                Ok(t) => {
                    self.Name = t;
                    Ok(())
                },
                Err(e) => Err(e),
            }
        } else if str_eq(name.as_str(), "Line1") {
            match characters(s) {
                Ok(t) => {
                    self.Line1 = t;
                    Ok(())
                },
                Err(e) => Err(e),
            }
        } else if str_eq(name.as_str(), "Line2") {
            match characters(s) {
                Ok(t) => {
                    self.Line2 = t;
                    Ok(())
                },
                Err(e) => Err(e),
            }
        } else if str_eq(name.as_str(), "Line3") {
            match characters(s) {
                Ok(t) => {
                    self.Line3 = t;
                    Ok(())
                },
                Err(e) => Err(e),
            }
        } else {
            Ok(())
        }
    }
}

/// The city, state and country of a tracking event.
#[allow(non_snake_case)]
#[derive(Debug, PartialEq)]
pub struct TrackingAddress {
    pub City: String,
    pub State: String,
    pub Country: String,
}

/// The mathematical view of a [`TrackingAddress`].
#[verifier::ext_equal]
#[allow(non_snake_case)]
pub struct TrackingAddressV {
    pub City: Seq<char>,
    pub State: Seq<char>,
    pub Country: Seq<char>,
}

/// The views of a sequence of [`TrackingAddress`] records.
pub open spec fn tracking_address_seq(v: Seq<TrackingAddress>) -> Seq<TrackingAddressV> {
    v.map_values(|x: TrackingAddress| x@)
}

impl View for TrackingAddress {
    type V = TrackingAddressV;

    open spec fn view(&self) -> TrackingAddressV {
        TrackingAddressV {
            City: (self.City@),
            State: (self.State@),
            Country: (self.Country@),
        }
    }
}

impl TrackingAddress {
    /// The value every field starts from before decoding.
    pub open spec fn default_v() -> TrackingAddressV {
        TrackingAddressV {
            City: Seq::empty(),
            State: Seq::empty(),
            Country: Seq::empty(),
        }
    }

    /// What decoding this record from the current scope yields.
    pub open spec fn decode_spec(evs: Seq<Ev>, pos: int) -> Result<(TrackingAddressV, int), ErrModel> {
        fold_spec::<TrackingAddress>(evs, pos, TrackingAddress::default_v())
    }

    /// Decode this record from the children of the current scope:
    /// fields in any order, unknown children ignored, absent fields
    /// left at their defaults.
    pub fn from_xml(s: &mut Stream) -> (r: Result<TrackingAddress, DecodeError>)
        requires
            old(s).wf(),
        ensures
            final(s).wf(),
            final(s).evs() == old(s).evs(),
            old(s).at() <= final(s).at() <= old(s).evs().len(),
            match r {
                Ok(v) => TrackingAddress::decode_spec(old(s).evs(), old(s).at()) == Ok::<(TrackingAddressV, int), ErrModel>((v@, final(s).at()))
                    && close_pos(old(s).evs(), old(s).at(), 0) == final(s).at()
                    && close_pos(old(s).evs(), final(s).at(), 0) == final(s).at(),
                Err(e) => TrackingAddress::decode_spec(old(s).evs(), old(s).at()) == Err::<(TrackingAddressV, int), ErrModel>(e@),
            },
    {
        fold_elements(s, TrackingAddress::default())
    }
}

impl Default for TrackingAddress {
    fn default() -> (r: Self)
        ensures
            r@ == TrackingAddress::default_v(),
    {
        TrackingAddress {
            City: String::new(),
            State: String::new(),
            Country: String::new(),
        }
    }
}

impl FoldAccumulator for TrackingAddress {
    open spec fn step_spec(evs: Seq<Ev>, pos: int, acc: TrackingAddressV) -> Result<TrackingAddressV, ErrModel> {
        match evs[pos] {
            Ev::StartElement { name, .. } => {
                if name == "City"@ {
                    match chars_result(evs, pos + 1) {
                        Ok(p) => Ok(TrackingAddressV { City: p.0, ..acc }),
                        Err(e) => Err(e),
                    }
                } else if name == "State"@ {
                    match chars_result(evs, pos + 1) {
                        Ok(p) => Ok(TrackingAddressV { State: p.0, ..acc }),
                        Err(e) => Err(e),
                    }
                } else if name == "Country"@ {
                    match chars_result(evs, pos + 1) {
                        Ok(p) => Ok(TrackingAddressV { Country: p.0, ..acc }),
                        Err(e) => Err(e),
                    }
                } else {
                    Ok(acc)
                }
            },
            _ => Ok(acc),
        }
    }

    fn step(&mut self, s: &mut Stream, name: &String) -> (r: Result<(), DecodeError>) {
        if str_eq(name.as_str(), "City") {
            match characters(s) {
                Ok(t) => {
                    self.City = t;
                    Ok(())
                },
                Err(e) => Err(e),
            }
        } else if str_eq(name.as_str(), "State") {
            match characters(s) {
                Ok(t) => {
                    self.State = t;
                    Ok(())
                },
                Err(e) => Err(e),
            }
        } else if str_eq(name.as_str(), "Country") {
            match characters(s) {
                Ok(t) => {
                    self.Country = t;
                    Ok(())
                },
                Err(e) => Err(e),
            }
        } else {
            Ok(())
        }
    }
}

/// Item information for a shipment in a fulfillment order.
#[allow(non_snake_case)]
#[derive(Debug, PartialEq)]
pub struct FulfillmentShipmentItem {
    pub SellerSKU: Option<String>,
    pub SellerFulfillmentOrderItemId: String,
    pub Quantity: i32,
    pub PackageNumber: Option<String>,
}

/// The mathematical view of a [`FulfillmentShipmentItem`].
#[verifier::ext_equal]
#[allow(non_snake_case)]
pub struct FulfillmentShipmentItemV {
    pub SellerSKU: Option<Seq<char>>,
    pub SellerFulfillmentOrderItemId: Seq<char>,
    pub Quantity: i32,
    pub PackageNumber: Option<Seq<char>>,
}

/// The views of a sequence of [`FulfillmentShipmentItem`] records.
pub open spec fn fulfillment_shipment_item_seq(v: Seq<FulfillmentShipmentItem>) -> Seq<FulfillmentShipmentItemV> {
    v.map_values(|x: FulfillmentShipmentItem| x@)
}

impl View for FulfillmentShipmentItem {
    type V = FulfillmentShipmentItemV;

    open spec fn view(&self) -> FulfillmentShipmentItemV {
        FulfillmentShipmentItemV {
            SellerSKU: (match self.SellerSKU { Some(x) => Some(x@), None => None }),
            SellerFulfillmentOrderItemId: (self.SellerFulfillmentOrderItemId@),
            Quantity: (self.Quantity),
            PackageNumber: (match self.PackageNumber { Some(x) => Some(x@), None => None }),
        }
    }
}

impl FulfillmentShipmentItem {
    /// The value every field starts from before decoding.
    pub open spec fn default_v() -> FulfillmentShipmentItemV {
        FulfillmentShipmentItemV {
            SellerSKU: None,
            SellerFulfillmentOrderItemId: Seq::empty(),
            Quantity: 0,
            PackageNumber: None,
        }
    }

    /// What decoding this record from the current scope yields.
    pub open spec fn decode_spec(evs: Seq<Ev>, pos: int) -> Result<(FulfillmentShipmentItemV, int), ErrModel> {
        fold_spec::<FulfillmentShipmentItem>(evs, pos, FulfillmentShipmentItem::default_v())
    }

    /// Decode this record from the children of the current scope:
    /// fields in any order, unknown children ignored, absent fields
    /// left at their defaults.
    pub fn from_xml(s: &mut Stream) -> (r: Result<FulfillmentShipmentItem, DecodeError>)
        requires
            old(s).wf(),
        ensures
            final(s).wf(),
            final(s).evs() == old(s).evs(),
            old(s).at() <= final(s).at() <= old(s).evs().len(),
            match r {
                Ok(v) => FulfillmentShipmentItem::decode_spec(old(s).evs(), old(s).at()) == Ok::<(FulfillmentShipmentItemV, int), ErrModel>((v@, final(s).at()))
                    && close_pos(old(s).evs(), old(s).at(), 0) == final(s).at()
                    && close_pos(old(s).evs(), final(s).at(), 0) == final(s).at(),
                Err(e) => FulfillmentShipmentItem::decode_spec(old(s).evs(), old(s).at()) == Err::<(FulfillmentShipmentItemV, int), ErrModel>(e@),
            },
    {
        fold_elements(s, FulfillmentShipmentItem::default())
    }
}

impl Default for FulfillmentShipmentItem {
    fn default() -> (r: Self)
        ensures
            r@ == FulfillmentShipmentItem::default_v(),
    {
        FulfillmentShipmentItem {
            SellerSKU: None,
            SellerFulfillmentOrderItemId: String::new(),
            Quantity: 0,
            PackageNumber: None,
        }
    }
}

impl FoldAccumulator for FulfillmentShipmentItem {
    open spec fn step_spec(evs: Seq<Ev>, pos: int, acc: FulfillmentShipmentItemV) -> Result<FulfillmentShipmentItemV, ErrModel> {
        match evs[pos] {
            Ev::StartElement { name, .. } => {
                if name == "SellerSKU"@ {
                    match chars_result(evs, pos + 1) {
                        Ok(p) => Ok(FulfillmentShipmentItemV { SellerSKU: Some(p.0), ..acc }),
                        Err(e) => Err(e),
                    }
                } else if name == "SellerFulfillmentOrderItemId"@ {
                    match chars_result(evs, pos + 1) {
                        Ok(p) => Ok(FulfillmentShipmentItemV { SellerFulfillmentOrderItemId: p.0, ..acc }),
                        Err(e) => Err(e),
                    }
                } else if name == "Quantity"@ {
                    match chars_i32_result(evs, pos + 1, name) {
                        Ok(p) => Ok(FulfillmentShipmentItemV { Quantity: p.0, ..acc }),
                        Err(e) => Err(e),
                    }
                } else if name == "PackageNumber"@ {
                    match chars_result(evs, pos + 1) {
                        Ok(p) => Ok(FulfillmentShipmentItemV { PackageNumber: Some(p.0), ..acc }),
                        Err(e) => Err(e),
                    }
                } else {
                    Ok(acc)
                }
            },
            _ => Ok(acc),
        }
    }

    fn step(&mut self, s: &mut Stream, name: &String) -> (r: Result<(), DecodeError>) {
        if str_eq(name.as_str(), "SellerSKU") {
            match characters(s) {
                Ok(t) => {
                    self.SellerSKU = Some(t);
                    Ok(())
                },
                Err(e) => Err(e),
            }
        } else if str_eq(name.as_str(), "SellerFulfillmentOrderItemId") {
            match characters(s) {
                Ok(t) => {
                    self.SellerFulfillmentOrderItemId = t;
                    Ok(())
                },
                Err(e) => Err(e),
            }
        } else if str_eq(name.as_str(), "Quantity") {
            match characters_i32(s, name) {
                Ok(n) => {
                    self.Quantity = n;
                    Ok(())
                },
                Err(e) => Err(e),
            }
        } else if str_eq(name.as_str(), "PackageNumber") {
            match characters(s) {
                Ok(t) => {
                    self.PackageNumber = Some(t);
                    Ok(())
                },
                Err(e) => Err(e),
            }
        } else {
            Ok(())
        }
    }
}

/// A single package in a shipment.
#[allow(non_snake_case)]
#[derive(Debug, PartialEq)]
pub struct FulfillmentShipmentPackage {
    pub PackageNumber: String,
    pub CarrierCode: String,
    pub TrackingNumber: Option<String>,
    pub EstimatedArrivalDateTime: Option<Timestamp>,
}

/// The mathematical view of a [`FulfillmentShipmentPackage`].
#[verifier::ext_equal]
#[allow(non_snake_case)]
pub struct FulfillmentShipmentPackageV {
    pub PackageNumber: Seq<char>,
    pub CarrierCode: Seq<char>,
    pub TrackingNumber: Option<Seq<char>>,
    pub EstimatedArrivalDateTime: Option<Timestamp>,
}

/// The views of a sequence of [`FulfillmentShipmentPackage`] records.
pub open spec fn fulfillment_shipment_package_seq(v: Seq<FulfillmentShipmentPackage>) -> Seq<FulfillmentShipmentPackageV> {
    v.map_values(|x: FulfillmentShipmentPackage| x@)
}

impl View for FulfillmentShipmentPackage {
    type V = FulfillmentShipmentPackageV;

    open spec fn view(&self) -> FulfillmentShipmentPackageV {
        FulfillmentShipmentPackageV {
            PackageNumber: (self.PackageNumber@),
            CarrierCode: (self.CarrierCode@),
            TrackingNumber: (match self.TrackingNumber { Some(x) => Some(x@), None => None }),
            EstimatedArrivalDateTime: (self.EstimatedArrivalDateTime),
        }
    }
}

impl FulfillmentShipmentPackage {
    /// The value every field starts from before decoding.
    pub open spec fn default_v() -> FulfillmentShipmentPackageV {
        FulfillmentShipmentPackageV {
            PackageNumber: Seq::empty(),
            CarrierCode: Seq::empty(),
            TrackingNumber: None,
            EstimatedArrivalDateTime: None,
        }
    }

    /// What decoding this record from the current scope yields.
    pub open spec fn decode_spec(evs: Seq<Ev>, pos: int) -> Result<(FulfillmentShipmentPackageV, int), ErrModel> {
        fold_spec::<FulfillmentShipmentPackage>(evs, pos, FulfillmentShipmentPackage::default_v())
    }

    /// Decode this record from the children of the current scope:
    /// fields in any order, unknown children ignored, absent fields
    /// left at their defaults.
    pub fn from_xml(s: &mut Stream) -> (r: Result<FulfillmentShipmentPackage, DecodeError>)
        requires
            old(s).wf(),
        ensures
            final(s).wf(),
            final(s).evs() == old(s).evs(),
            old(s).at() <= final(s).at() <= old(s).evs().len(),
            match r {
                Ok(v) => FulfillmentShipmentPackage::decode_spec(old(s).evs(), old(s).at()) == Ok::<(FulfillmentShipmentPackageV, int), ErrModel>((v@, final(s).at()))
                    && close_pos(old(s).evs(), old(s).at(), 0) == final(s).at()
                    && close_pos(old(s).evs(), final(s).at(), 0) == final(s).at(),
                Err(e) => FulfillmentShipmentPackage::decode_spec(old(s).evs(), old(s).at()) == Err::<(FulfillmentShipmentPackageV, int), ErrModel>(e@),
            },
    {
        fold_elements(s, FulfillmentShipmentPackage::default())
    }
}

impl Default for FulfillmentShipmentPackage {
    fn default() -> (r: Self)
        ensures
            r@ == FulfillmentShipmentPackage::default_v(),
    {
        FulfillmentShipmentPackage {
            PackageNumber: String::new(),
            CarrierCode: String::new(),
            TrackingNumber: None,
            EstimatedArrivalDateTime: None,
        }
    }
}

impl FoldAccumulator for FulfillmentShipmentPackage {
    open spec fn step_spec(evs: Seq<Ev>, pos: int, acc: FulfillmentShipmentPackageV) -> Result<FulfillmentShipmentPackageV, ErrModel> {
        match evs[pos] {
            Ev::StartElement { name, .. } => {
                if name == "PackageNumber"@ {
                    match chars_result(evs, pos + 1) {
                        Ok(p) => Ok(FulfillmentShipmentPackageV { PackageNumber: p.0, ..acc }),
                        Err(e) => Err(e),
                    }
                } else if name == "CarrierCode"@ {
                    match chars_result(evs, pos + 1) {
                        Ok(p) => Ok(FulfillmentShipmentPackageV { CarrierCode: p.0, ..acc }),
                        Err(e) => Err(e),
                    }
                } else if name == "TrackingNumber"@ {
                    match chars_result(evs, pos + 1) {
                        Ok(p) => Ok(FulfillmentShipmentPackageV { TrackingNumber: Some(p.0), ..acc }),
                        Err(e) => Err(e),
                    }
                } else if name == "EstimatedArrivalDateTime"@ {
                    match chars_timestamp_result(evs, pos + 1, name) {
                        Ok(p) => Ok(FulfillmentShipmentPackageV { EstimatedArrivalDateTime: Some(p.0), ..acc }),
                        Err(e) => Err(e),
                    }
                } else {
                    Ok(acc)
                }
            },
            _ => Ok(acc),
        }
    }

    fn step(&mut self, s: &mut Stream, name: &String) -> (r: Result<(), DecodeError>) {
        if str_eq(name.as_str(), "PackageNumber") {
            match characters(s) {
                Ok(t) => {
                    self.PackageNumber = t;
                    Ok(())
                },
                Err(e) => Err(e),
            }
        } else if str_eq(name.as_str(), "CarrierCode") {
            match characters(s) {
                Ok(t) => {
                    self.CarrierCode = t;
                    Ok(())
                },
                Err(e) => Err(e),
            }
        } else if str_eq(name.as_str(), "TrackingNumber") {
            match characters(s) {
                Ok(t) => {
                    self.TrackingNumber = Some(t);
                    Ok(())
                },
                Err(e) => Err(e),
            }
        } else if str_eq(name.as_str(), "EstimatedArrivalDateTime") {
            match characters_timestamp(s, name) {
                Ok(ts) => {
                    self.EstimatedArrivalDateTime = Some(ts);
                    Ok(())
                },
                Err(e) => Err(e),
            }
        } else {
            Ok(())
        }
    }
}

/// One event in a package's tracking history.
#[allow(non_snake_case)]
#[derive(Debug, PartialEq)]
pub struct TrackingEvent {
    pub EventDate: Option<Timestamp>,
    pub EventAddress: Option<TrackingAddress>,
    pub EventCode: String,
}

/// The mathematical view of a [`TrackingEvent`].
#[verifier::ext_equal]
#[allow(non_snake_case)]
pub struct TrackingEventV {
    pub EventDate: Option<Timestamp>,
    pub EventAddress: Option<TrackingAddressV>,
    pub EventCode: Seq<char>,
}

/// The views of a sequence of [`TrackingEvent`] records.
pub open spec fn tracking_event_seq(v: Seq<TrackingEvent>) -> Seq<TrackingEventV> {
    v.map_values(|x: TrackingEvent| x@)
}

impl View for TrackingEvent {
    type V = TrackingEventV;

    open spec fn view(&self) -> TrackingEventV {
        TrackingEventV {
            EventDate: (self.EventDate),
            EventAddress: (match self.EventAddress { Some(x) => Some(x@), None => None }),
            EventCode: (self.EventCode@),
        }
    }
}

impl TrackingEvent {
    /// The value every field starts from before decoding.
    pub open spec fn default_v() -> TrackingEventV {
        TrackingEventV {
            EventDate: None,
            EventAddress: None,
            EventCode: Seq::empty(),
        }
    }

    /// What decoding this record from the current scope yields.
    pub open spec fn decode_spec(evs: Seq<Ev>, pos: int) -> Result<(TrackingEventV, int), ErrModel> {
        fold_spec::<TrackingEvent>(evs, pos, TrackingEvent::default_v())
    }

    /// Decode this record from the children of the current scope:
    /// fields in any order, unknown children ignored, absent fields
    /// left at their defaults.
    pub fn from_xml(s: &mut Stream) -> (r: Result<TrackingEvent, DecodeError>)
        requires
            old(s).wf(),
        ensures
            final(s).wf(),
            final(s).evs() == old(s).evs(),
            old(s).at() <= final(s).at() <= old(s).evs().len(),
            match r {
                Ok(v) => TrackingEvent::decode_spec(old(s).evs(), old(s).at()) == Ok::<(TrackingEventV, int), ErrModel>((v@, final(s).at()))
                    && close_pos(old(s).evs(), old(s).at(), 0) == final(s).at()
                    && close_pos(old(s).evs(), final(s).at(), 0) == final(s).at(),
                Err(e) => TrackingEvent::decode_spec(old(s).evs(), old(s).at()) == Err::<(TrackingEventV, int), ErrModel>(e@),
            },
    {
        fold_elements(s, TrackingEvent::default())
    }
}

impl Default for TrackingEvent {
    fn default() -> (r: Self)
        ensures
            r@ == TrackingEvent::default_v(),
    {
        TrackingEvent {
            EventDate: None,
            EventAddress: None,
            EventCode: String::new(),
        }
    }
}

impl FoldAccumulator for TrackingEvent {
    open spec fn step_spec(evs: Seq<Ev>, pos: int, acc: TrackingEventV) -> Result<TrackingEventV, ErrModel> {
        match evs[pos] {
            Ev::StartElement { name, .. } => {
                if name == "EventDate"@ {
                    match chars_timestamp_result(evs, pos + 1, name) {
                        Ok(p) => Ok(TrackingEventV { EventDate: Some(p.0), ..acc }),
                        Err(e) => Err(e),
                    }
                } else if name == "EventAddress"@ {
                    match TrackingAddress::decode_spec(evs, pos + 1) {
                        Ok(p) => Ok(TrackingEventV { EventAddress: Some(p.0), ..acc }),
                        Err(e) => Err(e),
                    }
                } else if name == "EventCode"@ {
                    match chars_result(evs, pos + 1) {
                        Ok(p) => Ok(TrackingEventV { EventCode: p.0, ..acc }),
                        Err(e) => Err(e),
                    }
                } else {
                    Ok(acc)
                }
            },
            _ => Ok(acc),
        }
    }

    fn step(&mut self, s: &mut Stream, name: &String) -> (r: Result<(), DecodeError>) {
        if str_eq(name.as_str(), "EventDate") {
            match characters_timestamp(s, name) {
                Ok(ts) => {
                    self.EventDate = Some(ts);
                    Ok(())
                },
                Err(e) => Err(e),
            }
        } else if str_eq(name.as_str(), "EventAddress") {
            match TrackingAddress::from_xml(s) {
                Ok(v) => {
                    self.EventAddress = Some(v);
                    Ok(())
                },
                Err(e) => Err(e),
            }
        } else if str_eq(name.as_str(), "EventCode") {
            match characters(s) {
                Ok(t) => {
                    self.EventCode = t;
                    Ok(())
                },
                Err(e) => Err(e),
            }
        } else {
            Ok(())
        }
    }
}

/// A fulfillment order: its identifiers, destination, status and notification list.
#[allow(non_snake_case)]
#[derive(Debug, PartialEq)]
pub struct FulfillmentOrder {
    pub SellerFulfillmentOrderId: String,
    pub DestinationAddress: DestinationAddress,
    pub DisplayableOrderDateTime: Option<Timestamp>,
    pub ShippingSpeedCategory: String,
    pub FulfillmentMethod: String,
    pub FulfillmentOrderStatus: FulfillmentOrderStatus,
    pub StatusUpdatedDateTime: Option<Timestamp>,
    pub FulfillmentPolicy: FulfillmentPolicy,
    pub ReceivedDateTime: Option<Timestamp>,
    pub DisplayableOrderId: String,
    pub DisplayableOrderComment: String,
    pub MarketplaceId: Option<String>,
    pub FulfillmentAction: Option<String>,
    pub NotificationEmailList: Vec<String>,
}

/// The mathematical view of a [`FulfillmentOrder`].
#[verifier::ext_equal]
#[allow(non_snake_case)]
pub struct FulfillmentOrderV {
    pub SellerFulfillmentOrderId: Seq<char>,
    pub DestinationAddress: DestinationAddressV,
    pub DisplayableOrderDateTime: Option<Timestamp>,
    pub ShippingSpeedCategory: Seq<char>,
    pub FulfillmentMethod: Seq<char>,
    pub FulfillmentOrderStatus: FulfillmentOrderStatus,
    pub StatusUpdatedDateTime: Option<Timestamp>,
    pub FulfillmentPolicy: FulfillmentPolicy,
    pub ReceivedDateTime: Option<Timestamp>,
    pub DisplayableOrderId: Seq<char>,
    pub DisplayableOrderComment: Seq<char>,
    pub MarketplaceId: Option<Seq<char>>,
    pub FulfillmentAction: Option<Seq<char>>,
    pub NotificationEmailList: Seq<Seq<char>>,
}

/// The views of a sequence of [`FulfillmentOrder`] records.
pub open spec fn fulfillment_order_seq(v: Seq<FulfillmentOrder>) -> Seq<FulfillmentOrderV> {
    v.map_values(|x: FulfillmentOrder| x@)
}

impl View for FulfillmentOrder {
    type V = FulfillmentOrderV;

    open spec fn view(&self) -> FulfillmentOrderV {
        FulfillmentOrderV {
            SellerFulfillmentOrderId: (self.SellerFulfillmentOrderId@),
            DestinationAddress: (self.DestinationAddress@),
            DisplayableOrderDateTime: (self.DisplayableOrderDateTime),
            ShippingSpeedCategory: (self.ShippingSpeedCategory@),
            FulfillmentMethod: (self.FulfillmentMethod@),
            FulfillmentOrderStatus: (self.FulfillmentOrderStatus),
            StatusUpdatedDateTime: (self.StatusUpdatedDateTime),
            FulfillmentPolicy: (self.FulfillmentPolicy),
            ReceivedDateTime: (self.ReceivedDateTime),
            DisplayableOrderId: (self.DisplayableOrderId@),
            DisplayableOrderComment: (self.DisplayableOrderComment@),
            MarketplaceId: (match self.MarketplaceId { Some(x) => Some(x@), None => None }),
            FulfillmentAction: (match self.FulfillmentAction { Some(x) => Some(x@), None => None }),
            NotificationEmailList: (strings_seq(self.NotificationEmailList@)),
        }
    }
}

impl FulfillmentOrder {
    /// The value every field starts from before decoding.
    pub open spec fn default_v() -> FulfillmentOrderV {
        FulfillmentOrderV {
            SellerFulfillmentOrderId: Seq::empty(),
            DestinationAddress: DestinationAddress::default_v(),
            DisplayableOrderDateTime: None,
            ShippingSpeedCategory: Seq::empty(),
            FulfillmentMethod: Seq::empty(),
            FulfillmentOrderStatus: FulfillmentOrderStatus::RECEIVED,
            StatusUpdatedDateTime: None,
            FulfillmentPolicy: FulfillmentPolicy::FillOrKill,
            ReceivedDateTime: None,
            DisplayableOrderId: Seq::empty(),
            DisplayableOrderComment: Seq::empty(),
            MarketplaceId: None,
            FulfillmentAction: None,
            NotificationEmailList: Seq::empty(),
        }
    }

    /// What decoding this record from the current scope yields.
    pub open spec fn decode_spec(evs: Seq<Ev>, pos: int) -> Result<(FulfillmentOrderV, int), ErrModel> {
        fold_spec::<FulfillmentOrder>(evs, pos, FulfillmentOrder::default_v())
    }

    /// Decode this record from the children of the current scope:
    /// fields in any order, unknown children ignored, absent fields
    /// left at their defaults.
    pub fn from_xml(s: &mut Stream) -> (r: Result<FulfillmentOrder, DecodeError>)
        requires
            old(s).wf(),
        ensures
            final(s).wf(),
            final(s).evs() == old(s).evs(),
            old(s).at() <= final(s).at() <= old(s).evs().len(),
            match r {
                Ok(v) => FulfillmentOrder::decode_spec(old(s).evs(), old(s).at()) == Ok::<(FulfillmentOrderV, int), ErrModel>((v@, final(s).at()))
                    && close_pos(old(s).evs(), old(s).at(), 0) == final(s).at()
                    && close_pos(old(s).evs(), final(s).at(), 0) == final(s).at(),
                Err(e) => FulfillmentOrder::decode_spec(old(s).evs(), old(s).at()) == Err::<(FulfillmentOrderV, int), ErrModel>(e@),
            },
    {
        fold_elements(s, FulfillmentOrder::default())
    }
}

impl Default for FulfillmentOrder {
    fn default() -> (r: Self)
        ensures
            r@ == FulfillmentOrder::default_v(),
    {
        FulfillmentOrder {
            SellerFulfillmentOrderId: String::new(),
            DestinationAddress: DestinationAddress::default(),
            DisplayableOrderDateTime: None,
            ShippingSpeedCategory: String::new(),
            FulfillmentMethod: String::new(),
            FulfillmentOrderStatus: FulfillmentOrderStatus::RECEIVED,
            StatusUpdatedDateTime: None,
            FulfillmentPolicy: FulfillmentPolicy::FillOrKill,
            ReceivedDateTime: None,
            DisplayableOrderId: String::new(),
            DisplayableOrderComment: String::new(),
            MarketplaceId: None,
            FulfillmentAction: None,
            NotificationEmailList: Vec::new(),
        }
    }
}

impl FoldAccumulator for FulfillmentOrder {
    open spec fn step_spec(evs: Seq<Ev>, pos: int, acc: FulfillmentOrderV) -> Result<FulfillmentOrderV, ErrModel> {
        match evs[pos] {
            Ev::StartElement { name, .. } => {
                if name == "SellerFulfillmentOrderId"@ {
                    match chars_result(evs, pos + 1) {
                        Ok(p) => Ok(FulfillmentOrderV { SellerFulfillmentOrderId: p.0, ..acc }),
                        Err(e) => Err(e),
                    }
                } else if name == "DestinationAddress"@ {
                    match DestinationAddress::decode_spec(evs, pos + 1) {
                        Ok(p) => Ok(FulfillmentOrderV { DestinationAddress: p.0, ..acc }),
                        Err(e) => Err(e),
                    }
                } else if name == "DisplayableOrderDateTime"@ {
                    match chars_timestamp_result(evs, pos + 1, name) {
                        Ok(p) => Ok(FulfillmentOrderV { DisplayableOrderDateTime: Some(p.0), ..acc }),
                        Err(e) => Err(e),
                    }
                } else if name == "ShippingSpeedCategory"@ {
                    match chars_result(evs, pos + 1) {
                        Ok(p) => Ok(FulfillmentOrderV { ShippingSpeedCategory: p.0, ..acc }),
                        Err(e) => Err(e),
                    }
                } else if name == "FulfillmentMethod"@ {
                    match chars_result(evs, pos + 1) {
                        Ok(p) => Ok(FulfillmentOrderV { FulfillmentMethod: p.0, ..acc }),
                        Err(e) => Err(e),
                    }
                } else if name == "FulfillmentOrderStatus"@ {
                    match chars_result(evs, pos + 1) {
                        Ok(p) => match fulfillment_order_status_of(p.0) {
                            Some(v) => Ok(FulfillmentOrderV { FulfillmentOrderStatus: v, ..acc }),
                            None => Err(ErrModel::ParseValue { field: name, raw: p.0, target: "FulfillmentOrderStatus"@ }),
                        },
                        Err(e) => Err(e),
                    }
                } else if name == "StatusUpdatedDateTime"@ {
                    match chars_timestamp_result(evs, pos + 1, name) {
                        Ok(p) => Ok(FulfillmentOrderV { StatusUpdatedDateTime: Some(p.0), ..acc }),
                        Err(e) => Err(e),
                    }
                } else if name == "FulfillmentPolicy"@ {
                    match chars_result(evs, pos + 1) {
                        Ok(p) => match fulfillment_policy_of(p.0) {
                            Some(v) => Ok(FulfillmentOrderV { FulfillmentPolicy: v, ..acc }),
                            None => Err(ErrModel::ParseValue { field: name, raw: p.0, target: "FulfillmentPolicy"@ }),
                        },
                        Err(e) => Err(e),
                    }
                } else if name == "ReceivedDateTime"@ {
                    match chars_timestamp_result(evs, pos + 1, name) {
                        Ok(p) => Ok(FulfillmentOrderV { ReceivedDateTime: Some(p.0), ..acc }),
                        Err(e) => Err(e),
                    }
                } else if name == "DisplayableOrderId"@ {
                    match chars_result(evs, pos + 1) {
                        Ok(p) => Ok(FulfillmentOrderV { DisplayableOrderId: p.0, ..acc }),
                        Err(e) => Err(e),
                    }
                } else if name == "DisplayableOrderComment"@ {
                    match chars_result(evs, pos + 1) {
                        Ok(p) => Ok(FulfillmentOrderV { DisplayableOrderComment: p.0, ..acc }),
                        Err(e) => Err(e),
                    }
                } else if name == "MarketplaceId"@ {
                    match chars_result(evs, pos + 1) {
                        Ok(p) => Ok(FulfillmentOrderV { MarketplaceId: Some(p.0), ..acc }),
                        Err(e) => Err(e),
                    }
                } else if name == "FulfillmentAction"@ {
                    match chars_result(evs, pos + 1) {
                        Ok(p) => Ok(FulfillmentOrderV { FulfillmentAction: Some(p.0), ..acc }),
                        Err(e) => Err(e),
                    }
                } else if name == "NotificationEmailList"@ {
                    match fold_spec::<StringList>(evs, pos + 1, Seq::empty()) {
                        Ok(p) => Ok(FulfillmentOrderV { NotificationEmailList: p.0, ..acc }),
                        Err(e) => Err(e),
                    }
                } else {
                    Ok(acc)
                }
            },
            _ => Ok(acc),
        }
    }

    fn step(&mut self, s: &mut Stream, name: &String) -> (r: Result<(), DecodeError>) {
        if str_eq(name.as_str(), "SellerFulfillmentOrderId") {
            match characters(s) {
                Ok(t) => {
                    self.SellerFulfillmentOrderId = t;
                    Ok(())
                },
                Err(e) => Err(e),
            }
        } else if str_eq(name.as_str(), "DestinationAddress") {
            match DestinationAddress::from_xml(s) {
                Ok(v) => {
                    self.DestinationAddress = v;
                    Ok(())
                },
                Err(e) => Err(e),
            }
        } else if str_eq(name.as_str(), "DisplayableOrderDateTime") {
            match characters_timestamp(s, name) {
                Ok(ts) => {
                    self.DisplayableOrderDateTime = Some(ts);
                    Ok(())
                },
                Err(e) => Err(e),
            }
        } else if str_eq(name.as_str(), "ShippingSpeedCategory") {
            match characters(s) {
                Ok(t) => {
                    self.ShippingSpeedCategory = t;
                    Ok(())
                },
                Err(e) => Err(e),
            }
        } else if str_eq(name.as_str(), "FulfillmentMethod") {
            match characters(s) {
                Ok(t) => {
                    self.FulfillmentMethod = t;
                    Ok(())
                },
                Err(e) => Err(e),
            }
        } else if str_eq(name.as_str(), "FulfillmentOrderStatus") {
            match characters(s) {
                Ok(t) => match parse_fulfillment_order_status(t.as_str()) {
                    Some(v) => {
                        self.FulfillmentOrderStatus = v;
                        Ok(())
                    },
                    None => Err(
                        DecodeError::ParseValue {
                            field: name.clone(),
                            raw: t,
                            target: String::from_str("FulfillmentOrderStatus"),
                        },
                    ),
                },
                Err(e) => Err(e),
            }
        } else if str_eq(name.as_str(), "StatusUpdatedDateTime") {
            match characters_timestamp(s, name) {
                Ok(ts) => {
                    self.StatusUpdatedDateTime = Some(ts);
                    Ok(())
                },
                Err(e) => Err(e),
            }
        } else if str_eq(name.as_str(), "FulfillmentPolicy") {
            match characters(s) {
                Ok(t) => match parse_fulfillment_policy(t.as_str()) {
                    Some(v) => {
                        self.FulfillmentPolicy = v;
                        Ok(())
                    },
                    None => Err(
                        DecodeError::ParseValue {
                            field: name.clone(),
                            raw: t,
                            target: String::from_str("FulfillmentPolicy"),
                        },
                    ),
                },
                Err(e) => Err(e),
            }
        } else if str_eq(name.as_str(), "ReceivedDateTime") {
            match characters_timestamp(s, name) {
                Ok(ts) => {
                    self.ReceivedDateTime = Some(ts);
                    Ok(())
                },
                Err(e) => Err(e),
            }
        } else if str_eq(name.as_str(), "DisplayableOrderId") {
            match characters(s) {
                Ok(t) => {
                    self.DisplayableOrderId = t;
                    Ok(())
                },
                Err(e) => Err(e),
            }
        } else if str_eq(name.as_str(), "DisplayableOrderComment") {
            match characters(s) {
                Ok(t) => {
                    self.DisplayableOrderComment = t;
                    Ok(())
                },
                Err(e) => Err(e),
            }
        } else if str_eq(name.as_str(), "MarketplaceId") {
            match characters(s) {
                Ok(t) => {
                    self.MarketplaceId = Some(t);
                    Ok(())
                },
                Err(e) => Err(e),
            }
        } else if str_eq(name.as_str(), "FulfillmentAction") {
            match characters(s) {
                Ok(t) => {
                    self.FulfillmentAction = Some(t);
                    Ok(())
                },
                Err(e) => Err(e),
            }
        } else if str_eq(name.as_str(), "NotificationEmailList") {
            {
                let acc0 = StringList(Vec::new());
                proof {
                    assert(acc0@ =~= Seq::<Seq<char>>::empty());
                }
                match fold_elements(s, acc0) {
                    Ok(l) => {
                        self.NotificationEmailList = l.0;
                        Ok(())
                    },
                    Err(e) => Err(e),
                }
            }
        } else {
            Ok(())
        }
    }
}

/// One item of a fulfillment order.
#[allow(non_snake_case)]
#[derive(Debug, PartialEq)]
pub struct FulfillmentOrderItem {
    pub SellerSKU: String,
    pub SellerFulfillmentOrderItemId: String,
    pub Quantity: i32,
    pub GiftMessage: Option<String>,
    pub DisplayableComment: Option<String>,
    pub FulfillmentNetworkSKU: Option<String>,
    pub CancelledQuantity: i32,
    pub UnfulfillableQuantity: i32,
    pub EstimatedShipDateTime: Option<Timestamp>,
    pub EstimatedArrivalDateTime: Option<Timestamp>,
    pub PerUnitDeclaredValue: Option<Currency>,
    pub PerUnitPrice: Option<Currency>,
    pub PerUnitTax: Option<Currency>,
}

/// The mathematical view of a [`FulfillmentOrderItem`].
#[verifier::ext_equal]
#[allow(non_snake_case)]
pub struct FulfillmentOrderItemV {
    pub SellerSKU: Seq<char>,
    pub SellerFulfillmentOrderItemId: Seq<char>,
    pub Quantity: i32,
    pub GiftMessage: Option<Seq<char>>,
    pub DisplayableComment: Option<Seq<char>>,
    pub FulfillmentNetworkSKU: Option<Seq<char>>,
    pub CancelledQuantity: i32,
    pub UnfulfillableQuantity: i32,
    pub EstimatedShipDateTime: Option<Timestamp>,
    pub EstimatedArrivalDateTime: Option<Timestamp>,
    pub PerUnitDeclaredValue: Option<CurrencyV>,
    pub PerUnitPrice: Option<CurrencyV>,
    pub PerUnitTax: Option<CurrencyV>,
}

/// The views of a sequence of [`FulfillmentOrderItem`] records.
pub open spec fn fulfillment_order_item_seq(v: Seq<FulfillmentOrderItem>) -> Seq<FulfillmentOrderItemV> {
    v.map_values(|x: FulfillmentOrderItem| x@)
}

impl View for FulfillmentOrderItem {
    type V = FulfillmentOrderItemV;

    open spec fn view(&self) -> FulfillmentOrderItemV {
        FulfillmentOrderItemV {
            SellerSKU: (self.SellerSKU@),
            SellerFulfillmentOrderItemId: (self.SellerFulfillmentOrderItemId@),
            Quantity: (self.Quantity),
            GiftMessage: (match self.GiftMessage { Some(x) => Some(x@), None => None }),
            DisplayableComment: (match self.DisplayableComment { Some(x) => Some(x@), None => None }),
            FulfillmentNetworkSKU: (match self.FulfillmentNetworkSKU { Some(x) => Some(x@), None => None }),
            CancelledQuantity: (self.CancelledQuantity),
            UnfulfillableQuantity: (self.UnfulfillableQuantity),
            EstimatedShipDateTime: (self.EstimatedShipDateTime),
            EstimatedArrivalDateTime: (self.EstimatedArrivalDateTime),
            PerUnitDeclaredValue: (match self.PerUnitDeclaredValue { Some(x) => Some(x@), None => None }),
            PerUnitPrice: (match self.PerUnitPrice { Some(x) => Some(x@), None => None }),
            PerUnitTax: (match self.PerUnitTax { Some(x) => Some(x@), None => None }),
        }
    }
}

impl FulfillmentOrderItem {
    /// The value every field starts from before decoding.
    pub open spec fn default_v() -> FulfillmentOrderItemV {
        FulfillmentOrderItemV {
            SellerSKU: Seq::empty(),
            SellerFulfillmentOrderItemId: Seq::empty(),
            Quantity: 0,
            GiftMessage: None,
            DisplayableComment: None,
            FulfillmentNetworkSKU: None,
            CancelledQuantity: 0,
            UnfulfillableQuantity: 0,
            EstimatedShipDateTime: None,
            EstimatedArrivalDateTime: None,
            PerUnitDeclaredValue: None,
            PerUnitPrice: None,
            PerUnitTax: None,
        }
    }

    /// What decoding this record from the current scope yields.
    pub open spec fn decode_spec(evs: Seq<Ev>, pos: int) -> Result<(FulfillmentOrderItemV, int), ErrModel> {
        fold_spec::<FulfillmentOrderItem>(evs, pos, FulfillmentOrderItem::default_v())
    }

    /// Decode this record from the children of the current scope:
    /// fields in any order, unknown children ignored, absent fields
    /// left at their defaults.
    pub fn from_xml(s: &mut Stream) -> (r: Result<FulfillmentOrderItem, DecodeError>)
        requires
            old(s).wf(),
        ensures
            final(s).wf(),
            final(s).evs() == old(s).evs(),
            old(s).at() <= final(s).at() <= old(s).evs().len(),
            match r {
                Ok(v) => FulfillmentOrderItem::decode_spec(old(s).evs(), old(s).at()) == Ok::<(FulfillmentOrderItemV, int), ErrModel>((v@, final(s).at()))
                    && close_pos(old(s).evs(), old(s).at(), 0) == final(s).at()
                    && close_pos(old(s).evs(), final(s).at(), 0) == final(s).at(),
                Err(e) => FulfillmentOrderItem::decode_spec(old(s).evs(), old(s).at()) == Err::<(FulfillmentOrderItemV, int), ErrModel>(e@),
            },
    {
        fold_elements(s, FulfillmentOrderItem::default())
    }
}

impl Default for FulfillmentOrderItem {
    fn default() -> (r: Self)
        ensures
            r@ == FulfillmentOrderItem::default_v(),
    {
        FulfillmentOrderItem {
            SellerSKU: String::new(),
            SellerFulfillmentOrderItemId: String::new(),
            Quantity: 0,
            GiftMessage: None,
            DisplayableComment: None,
            FulfillmentNetworkSKU: None,
            CancelledQuantity: 0,
            UnfulfillableQuantity: 0,
            EstimatedShipDateTime: None,
            EstimatedArrivalDateTime: None,
            PerUnitDeclaredValue: None,
            PerUnitPrice: None,
            PerUnitTax: None,
        }
    }
}

impl FoldAccumulator for FulfillmentOrderItem {
    open spec fn step_spec(evs: Seq<Ev>, pos: int, acc: FulfillmentOrderItemV) -> Result<FulfillmentOrderItemV, ErrModel> {
        match evs[pos] {
            Ev::StartElement { name, .. } => {
                if name == "SellerSKU"@ {
                    match chars_result(evs, pos + 1) {
                        Ok(p) => Ok(FulfillmentOrderItemV { SellerSKU: p.0, ..acc }),
                        Err(e) => Err(e),
                    }
                } else if name == "SellerFulfillmentOrderItemId"@ {
                    match chars_result(evs, pos + 1) {
                        Ok(p) => Ok(FulfillmentOrderItemV { SellerFulfillmentOrderItemId: p.0, ..acc }),
                        Err(e) => Err(e),
                    }
                } else if name == "Quantity"@ {
                    match chars_i32_result(evs, pos + 1, name) {
                        Ok(p) => Ok(FulfillmentOrderItemV { Quantity: p.0, ..acc }),
                        Err(e) => Err(e),
                    }
                } else if name == "GiftMessage"@ {
                    match chars_result(evs, pos + 1) {
                        Ok(p) => Ok(FulfillmentOrderItemV { GiftMessage: Some(p.0), ..acc }),
                        Err(e) => Err(e),
                    }
                } else if name == "DisplayableComment"@ {
                    match chars_result(evs, pos + 1) {
                        Ok(p) => Ok(FulfillmentOrderItemV { DisplayableComment: Some(p.0), ..acc }),
                        Err(e) => Err(e),
                    }
                } else if name == "FulfillmentNetworkSKU"@ {
                    match chars_result(evs, pos + 1) {
                        Ok(p) => Ok(FulfillmentOrderItemV { FulfillmentNetworkSKU: Some(p.0), ..acc }),
                        Err(e) => Err(e),
                    }
                } else if name == "CancelledQuantity"@ {
                    match chars_i32_result(evs, pos + 1, name) {
                        Ok(p) => Ok(FulfillmentOrderItemV { CancelledQuantity: p.0, ..acc }),
                        Err(e) => Err(e),
                    }
                } else if name == "UnfulfillableQuantity"@ {
                    match chars_i32_result(evs, pos + 1, name) {
                        Ok(p) => Ok(FulfillmentOrderItemV { UnfulfillableQuantity: p.0, ..acc }),
                        Err(e) => Err(e),
                    }
                } else if name == "EstimatedShipDateTime"@ {
                    match chars_timestamp_result(evs, pos + 1, name) {
                        Ok(p) => Ok(FulfillmentOrderItemV { EstimatedShipDateTime: Some(p.0), ..acc }),
                        Err(e) => Err(e),
                    }
                } else if name == "PerUnitDeclaredValue"@ {
                    match Currency::decode_spec(evs, pos + 1) {
                        Ok(p) => Ok(FulfillmentOrderItemV { PerUnitDeclaredValue: Some(p.0), ..acc }),
                        Err(e) => Err(e),
                    }
                } else if name == "PerUnitPrice"@ {
                    match Currency::decode_spec(evs, pos + 1) {
                        Ok(p) => Ok(FulfillmentOrderItemV { PerUnitPrice: Some(p.0), ..acc }),
                        Err(e) => Err(e),
                    }
                } else if name == "PerUnitTax"@ {
                    match Currency::decode_spec(evs, pos + 1) {
                        Ok(p) => Ok(FulfillmentOrderItemV { PerUnitTax: Some(p.0), ..acc }),
                        Err(e) => Err(e),
                    }
                } else {
                    Ok(acc)
                }
            },
            _ => Ok(acc),
        }
    }

    fn step(&mut self, s: &mut Stream, name: &String) -> (r: Result<(), DecodeError>) {
        if str_eq(name.as_str(), "SellerSKU") {
            match characters(s) {
                Ok(t) => {
                    self.SellerSKU = t;
                    Ok(())
                },
                Err(e) => Err(e),
            }
        } else if str_eq(name.as_str(), "SellerFulfillmentOrderItemId") {
            match characters(s) {
                Ok(t) => {
                    self.SellerFulfillmentOrderItemId = t;
                    Ok(())
                },
                Err(e) => Err(e),
            }
        } else if str_eq(name.as_str(), "Quantity") {
            match characters_i32(s, name) {
                Ok(n) => {
                    self.Quantity = n;
                    Ok(())
                },
                Err(e) => Err(e),
            }
        } else if str_eq(name.as_str(), "GiftMessage") {
            match characters(s) {
                Ok(t) => {
                    self.GiftMessage = Some(t);
                    Ok(())
                },
                Err(e) => Err(e),
            }
        } else if str_eq(name.as_str(), "DisplayableComment") {
            match characters(s) {
                Ok(t) => {
                    self.DisplayableComment = Some(t);
                    Ok(())
                },
                Err(e) => Err(e),
            }
        } else if str_eq(name.as_str(), "FulfillmentNetworkSKU") {
            match characters(s) {
                Ok(t) => {
                    self.FulfillmentNetworkSKU = Some(t);
                    Ok(())
                },
                Err(e) => Err(e),
            }
        } else if str_eq(name.as_str(), "CancelledQuantity") {
            match characters_i32(s, name) {
                Ok(n) => {
                    self.CancelledQuantity = n;
                    Ok(())
                },
                Err(e) => Err(e),
            }
        } else if str_eq(name.as_str(), "UnfulfillableQuantity") {
            match characters_i32(s, name) {
                Ok(n) => {
                    self.UnfulfillableQuantity = n;
                    Ok(())
                },
                Err(e) => Err(e),
            }
        } else if str_eq(name.as_str(), "EstimatedShipDateTime") {
            match characters_timestamp(s, name) {
                Ok(ts) => {
                    self.EstimatedShipDateTime = Some(ts);
                    Ok(())
                },
                Err(e) => Err(e),
            }
        } else if str_eq(name.as_str(), "PerUnitDeclaredValue") {
            match Currency::from_xml(s) {
                Ok(v) => {
                    self.PerUnitDeclaredValue = Some(v);
                    Ok(())
                },
                Err(e) => Err(e),
            }
        } else if str_eq(name.as_str(), "PerUnitPrice") {
            match Currency::from_xml(s) {
                Ok(v) => {
                    self.PerUnitPrice = Some(v);
                    Ok(())
                },
                Err(e) => Err(e),
            }
        } else if str_eq(name.as_str(), "PerUnitTax") {
            match Currency::from_xml(s) {
                Ok(v) => {
                    self.PerUnitTax = Some(v);
                    Ok(())
                },
                Err(e) => Err(e),
            }
        } else {
            Ok(())
        }
    }
}

/// A growable sequence of [`FulfillmentShipmentItem`] records, filled one child element
/// at a time, in document order.
#[derive(Debug, PartialEq)]
pub struct FulfillmentShipmentItemList(pub Vec<FulfillmentShipmentItem>);

impl View for FulfillmentShipmentItemList {
    type V = Seq<FulfillmentShipmentItemV>;

    open spec fn view(&self) -> Seq<FulfillmentShipmentItemV> {
        fulfillment_shipment_item_seq(self.0@)
    }
}

impl FoldAccumulator for FulfillmentShipmentItemList {
    /// Every child element of the wrapper contributes one record,
    /// decoded recursively.
    open spec fn step_spec(evs: Seq<Ev>, pos: int, acc: Seq<FulfillmentShipmentItemV>) -> Result<Seq<FulfillmentShipmentItemV>, ErrModel> {
        match evs[pos] {
            Ev::StartElement { .. } => match FulfillmentShipmentItem::decode_spec(evs, pos + 1) {
                Ok(p) => Ok(acc.push(p.0)),
                Err(e) => Err(e),
            },
            _ => Ok(acc),
        }
    }

    fn step(&mut self, s: &mut Stream, name: &String) -> (r: Result<(), DecodeError>) {
        match FulfillmentShipmentItem::from_xml(s) {
            Ok(v) => {
                let ghost v0 = self@;
                let ghost vv = v@;
                self.0.push(v);
                proof {
                    assert(self@ =~= v0.push(vv));
                }
                Ok(())
            },
            Err(e) => Err(e),
        }
    }
}


/// A growable sequence of [`FulfillmentShipmentPackage`] records, filled one child element
/// at a time, in document order.
#[derive(Debug, PartialEq)]
pub struct FulfillmentShipmentPackageList(pub Vec<FulfillmentShipmentPackage>);

impl View for FulfillmentShipmentPackageList {
    type V = Seq<FulfillmentShipmentPackageV>;

    open spec fn view(&self) -> Seq<FulfillmentShipmentPackageV> {
        fulfillment_shipment_package_seq(self.0@)
    }
}

impl FoldAccumulator for FulfillmentShipmentPackageList {
    /// Every child element of the wrapper contributes one record,
    /// decoded recursively.
    open spec fn step_spec(evs: Seq<Ev>, pos: int, acc: Seq<FulfillmentShipmentPackageV>) -> Result<Seq<FulfillmentShipmentPackageV>, ErrModel> {
        match evs[pos] {
            Ev::StartElement { .. } => match FulfillmentShipmentPackage::decode_spec(evs, pos + 1) {
                Ok(p) => Ok(acc.push(p.0)),
                Err(e) => Err(e),
            },
            _ => Ok(acc),
        }
    }

    fn step(&mut self, s: &mut Stream, name: &String) -> (r: Result<(), DecodeError>) {
        match FulfillmentShipmentPackage::from_xml(s) {
            Ok(v) => {
                let ghost v0 = self@;
                let ghost vv = v@;
                self.0.push(v);
                proof {
                    assert(self@ =~= v0.push(vv));
                }
                Ok(())
            },
            Err(e) => Err(e),
        }
    }
}


/// Delivery and item information for a shipment in a fulfillment order.
#[allow(non_snake_case)]
#[derive(Debug, PartialEq)]
pub struct FulfillmentShipment {
    pub AmazonShipmentId: String,
    pub FulfillmentCenterId: String,
    pub FulfillmentShipmentStatus: FulfillmentShipmentStatus,
    pub ShippingDateTime: Option<Timestamp>,
    pub EstimatedArrivalDateTime: Option<Timestamp>,
    pub FulfillmentShipmentItem: Vec<FulfillmentShipmentItem>,
    pub FulfillmentShipmentPackage: Vec<FulfillmentShipmentPackage>,
}

/// The mathematical view of a [`FulfillmentShipment`].
#[verifier::ext_equal]
#[allow(non_snake_case)]
pub struct FulfillmentShipmentV {
    pub AmazonShipmentId: Seq<char>,
    pub FulfillmentCenterId: Seq<char>,
    pub FulfillmentShipmentStatus: FulfillmentShipmentStatus,
    pub ShippingDateTime: Option<Timestamp>,
    pub EstimatedArrivalDateTime: Option<Timestamp>,
    pub FulfillmentShipmentItem: Seq<FulfillmentShipmentItemV>,
    pub FulfillmentShipmentPackage: Seq<FulfillmentShipmentPackageV>,
}

/// The views of a sequence of [`FulfillmentShipment`] records.
pub open spec fn fulfillment_shipment_seq(v: Seq<FulfillmentShipment>) -> Seq<FulfillmentShipmentV> {
    v.map_values(|x: FulfillmentShipment| x@)
}

impl View for FulfillmentShipment {
    type V = FulfillmentShipmentV;

    open spec fn view(&self) -> FulfillmentShipmentV {
        FulfillmentShipmentV {
            AmazonShipmentId: (self.AmazonShipmentId@),
            FulfillmentCenterId: (self.FulfillmentCenterId@),
            FulfillmentShipmentStatus: (self.FulfillmentShipmentStatus),
            ShippingDateTime: (self.ShippingDateTime),
            EstimatedArrivalDateTime: (self.EstimatedArrivalDateTime),
            FulfillmentShipmentItem: (fulfillment_shipment_item_seq(self.FulfillmentShipmentItem@)),
            FulfillmentShipmentPackage: (fulfillment_shipment_package_seq(self.FulfillmentShipmentPackage@)),
        }
    }
}

impl FulfillmentShipment {
    /// The value every field starts from before decoding.
    pub open spec fn default_v() -> FulfillmentShipmentV {
        FulfillmentShipmentV {
            AmazonShipmentId: Seq::empty(),
            FulfillmentCenterId: Seq::empty(),
            FulfillmentShipmentStatus: FulfillmentShipmentStatus::PENDING,
            ShippingDateTime: None,
            EstimatedArrivalDateTime: None,
            FulfillmentShipmentItem: Seq::empty(),
            FulfillmentShipmentPackage: Seq::empty(),
        }
    }

    /// What decoding this record from the current scope yields.
    pub open spec fn decode_spec(evs: Seq<Ev>, pos: int) -> Result<(FulfillmentShipmentV, int), ErrModel> {
        fold_spec::<FulfillmentShipment>(evs, pos, FulfillmentShipment::default_v())
    }

    /// Decode this record from the children of the current scope:
    /// fields in any order, unknown children ignored, absent fields
    /// left at their defaults.
    pub fn from_xml(s: &mut Stream) -> (r: Result<FulfillmentShipment, DecodeError>)
        requires
            old(s).wf(),
        ensures
            final(s).wf(),
            final(s).evs() == old(s).evs(),
            old(s).at() <= final(s).at() <= old(s).evs().len(),
            match r {
                Ok(v) => FulfillmentShipment::decode_spec(old(s).evs(), old(s).at()) == Ok::<(FulfillmentShipmentV, int), ErrModel>((v@, final(s).at()))
                    && close_pos(old(s).evs(), old(s).at(), 0) == final(s).at()
                    && close_pos(old(s).evs(), final(s).at(), 0) == final(s).at(),
                Err(e) => FulfillmentShipment::decode_spec(old(s).evs(), old(s).at()) == Err::<(FulfillmentShipmentV, int), ErrModel>(e@),
            },
    {
        fold_elements(s, FulfillmentShipment::default())
    }
}

impl Default for FulfillmentShipment {
    fn default() -> (r: Self)
        ensures
            r@ == FulfillmentShipment::default_v(),
    {
        FulfillmentShipment {
            AmazonShipmentId: String::new(),
            FulfillmentCenterId: String::new(),
            FulfillmentShipmentStatus: FulfillmentShipmentStatus::PENDING,
            ShippingDateTime: None,
            EstimatedArrivalDateTime: None,
            FulfillmentShipmentItem: Vec::new(),
            FulfillmentShipmentPackage: Vec::new(),
        }
    }
}

impl FoldAccumulator for FulfillmentShipment {
    open spec fn step_spec(evs: Seq<Ev>, pos: int, acc: FulfillmentShipmentV) -> Result<FulfillmentShipmentV, ErrModel> {
        match evs[pos] {
            Ev::StartElement { name, .. } => {
                if name == "AmazonShipmentId"@ {
                    match chars_result(evs, pos + 1) {
                        Ok(p) => Ok(FulfillmentShipmentV { AmazonShipmentId: p.0, ..acc }),
                        Err(e) => Err(e),
                    }
                } else if name == "FulfillmentCenterId"@ {
                    match chars_result(evs, pos + 1) {
                        Ok(p) => Ok(FulfillmentShipmentV { FulfillmentCenterId: p.0, ..acc }),
                        Err(e) => Err(e),
                    }
                } else if name == "FulfillmentShipmentStatus"@ {
                    match chars_result(evs, pos + 1) {
                        Ok(p) => match fulfillment_shipment_status_of(p.0) {
                            Some(v) => Ok(FulfillmentShipmentV { FulfillmentShipmentStatus: v, ..acc }),
                            None => Err(ErrModel::ParseValue { field: name, raw: p.0, target: "FulfillmentShipmentStatus"@ }),
                        },
                        Err(e) => Err(e),
                    }
                } else if name == "ShippingDateTime"@ {
                    match chars_timestamp_result(evs, pos + 1, name) {
                        Ok(p) => Ok(FulfillmentShipmentV { ShippingDateTime: Some(p.0), ..acc }),
                        Err(e) => Err(e),
                    }
                } else if name == "EstimatedArrivalDateTime"@ {
                    match chars_timestamp_result(evs, pos + 1, name) {
                        Ok(p) => Ok(FulfillmentShipmentV { EstimatedArrivalDateTime: Some(p.0), ..acc }),
                        Err(e) => Err(e),
                    }
                } else if name == "FulfillmentShipmentItem"@ {
                    match fold_spec::<FulfillmentShipmentItemList>(evs, pos + 1, Seq::empty()) {
                        Ok(p) => Ok(FulfillmentShipmentV { FulfillmentShipmentItem: p.0, ..acc }),
                        Err(e) => Err(e),
                    }
                } else if name == "FulfillmentShipmentPackage"@ {
                    match fold_spec::<FulfillmentShipmentPackageList>(evs, pos + 1, Seq::empty()) {
                        Ok(p) => Ok(FulfillmentShipmentV { FulfillmentShipmentPackage: p.0, ..acc }),
                        Err(e) => Err(e),
                    }
                } else {
                    Ok(acc)
                }
            },
            _ => Ok(acc),
        }
    }

    fn step(&mut self, s: &mut Stream, name: &String) -> (r: Result<(), DecodeError>) {
        if str_eq(name.as_str(), "AmazonShipmentId") {
            match characters(s) {
                Ok(t) => {
                    self.AmazonShipmentId = t;
                    Ok(())
                },
                Err(e) => Err(e),
            }
        } else if str_eq(name.as_str(), "FulfillmentCenterId") {
            match characters(s) {
                Ok(t) => {
                    self.FulfillmentCenterId = t;
                    Ok(())
                },
                Err(e) => Err(e),
            }
        } else if str_eq(name.as_str(), "FulfillmentShipmentStatus") {
            match characters(s) {
                Ok(t) => match parse_fulfillment_shipment_status(t.as_str()) {
                    Some(v) => {
                        self.FulfillmentShipmentStatus = v;
                        Ok(())
                    },
                    None => Err(
                        DecodeError::ParseValue {
                            field: name.clone(),
                            raw: t,
                            target: String::from_str("FulfillmentShipmentStatus"),
                        },
                    ),
                },
                Err(e) => Err(e),
            }
        } else if str_eq(name.as_str(), "ShippingDateTime") {
            match characters_timestamp(s, name) {
                Ok(ts) => {
                    self.ShippingDateTime = Some(ts);
                    Ok(())
                },
                Err(e) => Err(e),
            }
        } else if str_eq(name.as_str(), "EstimatedArrivalDateTime") {
            match characters_timestamp(s, name) {
                Ok(ts) => {
                    self.EstimatedArrivalDateTime = Some(ts);
                    Ok(())
                },
                Err(e) => Err(e),
            }
        } else if str_eq(name.as_str(), "FulfillmentShipmentItem") {
            {
                let acc0 = FulfillmentShipmentItemList(Vec::new());
                proof {
                    assert(acc0@ =~= Seq::<FulfillmentShipmentItemV>::empty());
                }
                match fold_elements(s, acc0) {
                    Ok(l) => {
                        self.FulfillmentShipmentItem = l.0;
                        Ok(())
                    },
                    Err(e) => Err(e),
                }
            }
        } else if str_eq(name.as_str(), "FulfillmentShipmentPackage") {
            {
                let acc0 = FulfillmentShipmentPackageList(Vec::new());
                proof {
                    assert(acc0@ =~= Seq::<FulfillmentShipmentPackageV>::empty());
                }
                match fold_elements(s, acc0) {
                    Ok(l) => {
                        self.FulfillmentShipmentPackage = l.0;
                        Ok(())
                    },
                    Err(e) => Err(e),
                }
            }
        } else {
            Ok(())
        }
    }
}

/// A growable sequence of [`TrackingEvent`] records, filled one child element
/// at a time, in document order.
#[derive(Debug, PartialEq)]
pub struct TrackingEventList(pub Vec<TrackingEvent>);

impl View for TrackingEventList {
    type V = Seq<TrackingEventV>;

    open spec fn view(&self) -> Seq<TrackingEventV> {
        tracking_event_seq(self.0@)
    }
}

impl FoldAccumulator for TrackingEventList {
    /// Every child element of the wrapper contributes one record,
    /// decoded recursively.
    open spec fn step_spec(evs: Seq<Ev>, pos: int, acc: Seq<TrackingEventV>) -> Result<Seq<TrackingEventV>, ErrModel> {
        match evs[pos] {
            Ev::StartElement { .. } => match TrackingEvent::decode_spec(evs, pos + 1) {
                Ok(p) => Ok(acc.push(p.0)),
                Err(e) => Err(e),
            },
            _ => Ok(acc),
        }
    }

    fn step(&mut self, s: &mut Stream, name: &String) -> (r: Result<(), DecodeError>) {
        match TrackingEvent::from_xml(s) {
            Ok(v) => {
                let ghost v0 = self@;
                let ghost vv = v@;
                self.0.push(v);
                proof {
                    assert(self@ =~= v0.push(vv));
                }
                Ok(())
            },
            Err(e) => Err(e),
        }
    }
}


/// The tracking details of one package.
#[allow(non_snake_case)]
#[derive(Debug, PartialEq)]
pub struct PackageTrackingDetails {
    pub PackageNumber: String,
    pub TrackingNumber: Option<String>,
    pub CarrierCode: Option<String>,
    pub CarrierPhoneNumber: Option<String>,
    pub CarrierURL: Option<String>,
    pub ShipDate: Option<Timestamp>,
    pub ShipToAddress: Option<TrackingAddress>,
    pub CurrentStatus: PackageStatus,
    pub SignedForBy: Option<String>,
    pub EstimatedArrivalDate: Option<Timestamp>,
    pub TrackingEvents: Vec<TrackingEvent>,
    pub AdditionalLocationInfo: Option<String>,
}

/// The mathematical view of a [`PackageTrackingDetails`].
#[verifier::ext_equal]
#[allow(non_snake_case)]
pub struct PackageTrackingDetailsV {
    pub PackageNumber: Seq<char>,
    pub TrackingNumber: Option<Seq<char>>,
    pub CarrierCode: Option<Seq<char>>,
    pub CarrierPhoneNumber: Option<Seq<char>>,
    pub CarrierURL: Option<Seq<char>>,
    pub ShipDate: Option<Timestamp>,
    pub ShipToAddress: Option<TrackingAddressV>,
    pub CurrentStatus: PackageStatus,
    pub SignedForBy: Option<Seq<char>>,
    pub EstimatedArrivalDate: Option<Timestamp>,
    pub TrackingEvents: Seq<TrackingEventV>,
    pub AdditionalLocationInfo: Option<Seq<char>>,
}

/// The views of a sequence of [`PackageTrackingDetails`] records.
pub open spec fn package_tracking_details_seq(v: Seq<PackageTrackingDetails>) -> Seq<PackageTrackingDetailsV> {
    v.map_values(|x: PackageTrackingDetails| x@)
}

impl View for PackageTrackingDetails {
    type V = PackageTrackingDetailsV;

    open spec fn view(&self) -> PackageTrackingDetailsV {
        PackageTrackingDetailsV {
            PackageNumber: (self.PackageNumber@),
            TrackingNumber: (match self.TrackingNumber { Some(x) => Some(x@), None => None }),
            CarrierCode: (match self.CarrierCode { Some(x) => Some(x@), None => None }),
            CarrierPhoneNumber: (match self.CarrierPhoneNumber { Some(x) => Some(x@), None => None }),
            CarrierURL: (match self.CarrierURL { Some(x) => Some(x@), None => None }),
            ShipDate: (self.ShipDate),
            ShipToAddress: (match self.ShipToAddress { Some(x) => Some(x@), None => None }),
            CurrentStatus: (self.CurrentStatus),
            SignedForBy: (match self.SignedForBy { Some(x) => Some(x@), None => None }),
            EstimatedArrivalDate: (self.EstimatedArrivalDate),
            TrackingEvents: (tracking_event_seq(self.TrackingEvents@)),
            AdditionalLocationInfo: (match self.AdditionalLocationInfo { Some(x) => Some(x@), None => None }),
        }
    }
}

impl PackageTrackingDetails {
    /// The value every field starts from before decoding.
    pub open spec fn default_v() -> PackageTrackingDetailsV {
        PackageTrackingDetailsV {
            PackageNumber: Seq::empty(),
            TrackingNumber: None,
            CarrierCode: None,
            CarrierPhoneNumber: None,
            CarrierURL: None,
            ShipDate: None,
            ShipToAddress: None,
            CurrentStatus: PackageStatus::IN_TRANSIT,
            SignedForBy: None,
            EstimatedArrivalDate: None,
            TrackingEvents: Seq::empty(),
            AdditionalLocationInfo: None,
        }
    }

    /// What decoding this record from the current scope yields.
    pub open spec fn decode_spec(evs: Seq<Ev>, pos: int) -> Result<(PackageTrackingDetailsV, int), ErrModel> {
        fold_spec::<PackageTrackingDetails>(evs, pos, PackageTrackingDetails::default_v())
    }

    /// Decode this record from the children of the current scope:
    /// fields in any order, unknown children ignored, absent fields
    /// left at their defaults.
    pub fn from_xml(s: &mut Stream) -> (r: Result<PackageTrackingDetails, DecodeError>)
        requires
            old(s).wf(),
        ensures
            final(s).wf(),
            final(s).evs() == old(s).evs(),
            old(s).at() <= final(s).at() <= old(s).evs().len(),
            match r {
                Ok(v) => PackageTrackingDetails::decode_spec(old(s).evs(), old(s).at()) == Ok::<(PackageTrackingDetailsV, int), ErrModel>((v@, final(s).at()))
                    && close_pos(old(s).evs(), old(s).at(), 0) == final(s).at()
                    && close_pos(old(s).evs(), final(s).at(), 0) == final(s).at(),
                Err(e) => PackageTrackingDetails::decode_spec(old(s).evs(), old(s).at()) == Err::<(PackageTrackingDetailsV, int), ErrModel>(e@),
            },
    {
        fold_elements(s, PackageTrackingDetails::default())
    }
}

impl Default for PackageTrackingDetails {
    fn default() -> (r: Self)
        ensures
            r@ == PackageTrackingDetails::default_v(),
    {
        PackageTrackingDetails {
            PackageNumber: String::new(),
            TrackingNumber: None,
            CarrierCode: None,
            CarrierPhoneNumber: None,
            CarrierURL: None,
            ShipDate: None,
            ShipToAddress: None,
            CurrentStatus: PackageStatus::IN_TRANSIT,
            SignedForBy: None,
            EstimatedArrivalDate: None,
            TrackingEvents: Vec::new(),
            AdditionalLocationInfo: None,
        }
    }
}

impl FoldAccumulator for PackageTrackingDetails {
    open spec fn step_spec(evs: Seq<Ev>, pos: int, acc: PackageTrackingDetailsV) -> Result<PackageTrackingDetailsV, ErrModel> {
        match evs[pos] {
            Ev::StartElement { name, .. } => {
                if name == "PackageNumber"@ {
                    match chars_result(evs, pos + 1) {
                        Ok(p) => Ok(PackageTrackingDetailsV { PackageNumber: p.0, ..acc }),
                        Err(e) => Err(e),
                    }
                } else if name == "TrackingNumber"@ {
                    match chars_result(evs, pos + 1) {
                        Ok(p) => Ok(PackageTrackingDetailsV { TrackingNumber: Some(p.0), ..acc }),
                        Err(e) => Err(e),
                    }
                } else if name == "CarrierCode"@ {
                    match chars_result(evs, pos + 1) {
                        Ok(p) => Ok(PackageTrackingDetailsV { CarrierCode: Some(p.0), ..acc }),
                        Err(e) => Err(e),
                    }
                } else if name == "CarrierPhoneNumber"@ {
                    match chars_result(evs, pos + 1) {
                        Ok(p) => Ok(PackageTrackingDetailsV { CarrierPhoneNumber: Some(p.0), ..acc }),
                        Err(e) => Err(e),
                    }
                } else if name == "CarrierURL"@ {
                    match chars_result(evs, pos + 1) {
                        Ok(p) => Ok(PackageTrackingDetailsV { CarrierURL: Some(p.0), ..acc }),
                        Err(e) => Err(e),
                    }
                } else if name == "ShipDate"@ {
                    match chars_timestamp_result(evs, pos + 1, name) {
                        Ok(p) => Ok(PackageTrackingDetailsV { ShipDate: Some(p.0), ..acc }),
                        Err(e) => Err(e),
                    }
                } else if name == "ShipToAddress"@ {
                    match TrackingAddress::decode_spec(evs, pos + 1) {
                        Ok(p) => Ok(PackageTrackingDetailsV { ShipToAddress: Some(p.0), ..acc }),
                        Err(e) => Err(e),
                    }
                } else if name == "CurrentStatus"@ {
                    match chars_result(evs, pos + 1) {
                        Ok(p) => match package_status_of(p.0) {
                            Some(v) => Ok(PackageTrackingDetailsV { CurrentStatus: v, ..acc }),
                            None => Err(ErrModel::ParseValue { field: name, raw: p.0, target: "PackageStatus"@ }),
                        },
                        Err(e) => Err(e),
                    }
                } else if name == "SignedForBy"@ {
                    match chars_result(evs, pos + 1) {
                        Ok(p) => Ok(PackageTrackingDetailsV { SignedForBy: Some(p.0), ..acc }),
                        Err(e) => Err(e),
                    }
                } else if name == "EstimatedArrivalDate"@ {
                    match chars_timestamp_result(evs, pos + 1, name) {
                        Ok(p) => Ok(PackageTrackingDetailsV { EstimatedArrivalDate: Some(p.0), ..acc }),
                        Err(e) => Err(e),
                    }
                } else if name == "TrackingEvents"@ {
                    match fold_spec::<TrackingEventList>(evs, pos + 1, Seq::empty()) {
                        Ok(p) => Ok(PackageTrackingDetailsV { TrackingEvents: p.0, ..acc }),
                        Err(e) => Err(e),
                    }
                } else if name == "AdditionalLocationInfo"@ {
                    match chars_result(evs, pos + 1) {
                        Ok(p) => Ok(PackageTrackingDetailsV { AdditionalLocationInfo: Some(p.0), ..acc }),
                        Err(e) => Err(e),
                    }
                } else {
                    Ok(acc)
                }
            },
            _ => Ok(acc),
        }
    }

    fn step(&mut self, s: &mut Stream, name: &String) -> (r: Result<(), DecodeError>) {
        if str_eq(name.as_str(), "PackageNumber") {
            match characters(s) {
                Ok(t) => {
                    self.PackageNumber = t;
                    Ok(())
                },
                Err(e) => Err(e),
            }
        } else if str_eq(name.as_str(), "TrackingNumber") {
            match characters(s) {
                Ok(t) => {
                    self.TrackingNumber = Some(t);
                    Ok(())
                },
                Err(e) => Err(e),
            }
        } else if str_eq(name.as_str(), "CarrierCode") {
            match characters(s) {
                Ok(t) => {
                    self.CarrierCode = Some(t);
                    Ok(())
                },
                Err(e) => Err(e),
            }
        } else if str_eq(name.as_str(), "CarrierPhoneNumber") {
            match characters(s) {
                Ok(t) => {
                    self.CarrierPhoneNumber = Some(t);
                    Ok(())
                },
                Err(e) => Err(e),
            }
        } else if str_eq(name.as_str(), "CarrierURL") {
            match characters(s) {
                Ok(t) => {
                    self.CarrierURL = Some(t);
                    Ok(())
                },
                Err(e) => Err(e),
            }
        } else if str_eq(name.as_str(), "ShipDate") {
            match characters_timestamp(s, name) {
                Ok(ts) => {
                    self.ShipDate = Some(ts);
                    Ok(())
                },
                Err(e) => Err(e),
            }
        } else if str_eq(name.as_str(), "ShipToAddress") {
            match TrackingAddress::from_xml(s) {
                Ok(v) => {
                    self.ShipToAddress = Some(v);
                    Ok(())
                },
                Err(e) => Err(e),
            }
        } else if str_eq(name.as_str(), "CurrentStatus") {
            match characters(s) {
                Ok(t) => match parse_package_status(t.as_str()) {
                    Some(v) => {
                        self.CurrentStatus = v;
                        Ok(())
                    },
                    None => Err(
                        DecodeError::ParseValue {
                            field: name.clone(),
                            raw: t,
                            target: String::from_str("PackageStatus"),
                        },
                    ),
                },
                Err(e) => Err(e),
            }
        } else if str_eq(name.as_str(), "SignedForBy") {
            match characters(s) {
                Ok(t) => {
                    self.SignedForBy = Some(t);
                    Ok(())
                },
                Err(e) => Err(e),
            }
        } else if str_eq(name.as_str(), "EstimatedArrivalDate") {
            match characters_timestamp(s, name) {
                Ok(ts) => {
                    self.EstimatedArrivalDate = Some(ts);
                    Ok(())
                },
                Err(e) => Err(e),
            }
        } else if str_eq(name.as_str(), "TrackingEvents") {
            {
                let acc0 = TrackingEventList(Vec::new());
                proof {
                    assert(acc0@ =~= Seq::<TrackingEventV>::empty());
                }
                match fold_elements(s, acc0) {
                    Ok(l) => {
                        self.TrackingEvents = l.0;
                        Ok(())
                    },
                    Err(e) => Err(e),
                }
            }
        } else if str_eq(name.as_str(), "AdditionalLocationInfo") {
            match characters(s) {
                Ok(t) => {
                    self.AdditionalLocationInfo = Some(t);
                    Ok(())
                },
                Err(e) => Err(e),
            }
        } else {
            Ok(())
        }
    }
}

/// A growable sequence of [`FulfillmentOrder`] records, filled one child element
/// at a time, in document order.
#[derive(Debug, PartialEq)]
pub struct FulfillmentOrderList(pub Vec<FulfillmentOrder>);

impl View for FulfillmentOrderList {
    type V = Seq<FulfillmentOrderV>;

    open spec fn view(&self) -> Seq<FulfillmentOrderV> {
        fulfillment_order_seq(self.0@)
    }
}

impl FoldAccumulator for FulfillmentOrderList {
    /// Every child element of the wrapper contributes one record,
    /// decoded recursively.
    open spec fn step_spec(evs: Seq<Ev>, pos: int, acc: Seq<FulfillmentOrderV>) -> Result<Seq<FulfillmentOrderV>, ErrModel> {
        match evs[pos] {
            Ev::StartElement { .. } => match FulfillmentOrder::decode_spec(evs, pos + 1) {
                Ok(p) => Ok(acc.push(p.0)),
                Err(e) => Err(e),
            },
            _ => Ok(acc),
        }
    }

    fn step(&mut self, s: &mut Stream, name: &String) -> (r: Result<(), DecodeError>) {
        match FulfillmentOrder::from_xml(s) {
            Ok(v) => {
                let ghost v0 = self@;
                let ghost vv = v@;
                self.0.push(v);
                proof {
                    assert(self@ =~= v0.push(vv));
                }
                Ok(())
            },
            Err(e) => Err(e),
        }
    }
}


/// A growable sequence of [`FulfillmentOrderItem`] records, filled one child element
/// at a time, in document order.
#[derive(Debug, PartialEq)]
pub struct FulfillmentOrderItemList(pub Vec<FulfillmentOrderItem>);

impl View for FulfillmentOrderItemList {
    type V = Seq<FulfillmentOrderItemV>;

    open spec fn view(&self) -> Seq<FulfillmentOrderItemV> {
        fulfillment_order_item_seq(self.0@)
    }
}

impl FoldAccumulator for FulfillmentOrderItemList {
    /// Every child element of the wrapper contributes one record,
    /// decoded recursively.
    open spec fn step_spec(evs: Seq<Ev>, pos: int, acc: Seq<FulfillmentOrderItemV>) -> Result<Seq<FulfillmentOrderItemV>, ErrModel> {
        match evs[pos] {
            Ev::StartElement { .. } => match FulfillmentOrderItem::decode_spec(evs, pos + 1) {
                Ok(p) => Ok(acc.push(p.0)),
                Err(e) => Err(e),
            },
            _ => Ok(acc),
        }
    }

    fn step(&mut self, s: &mut Stream, name: &String) -> (r: Result<(), DecodeError>) {
        match FulfillmentOrderItem::from_xml(s) {
            Ok(v) => {
                let ghost v0 = self@;
                let ghost vv = v@;
                self.0.push(v);
                proof {
                    assert(self@ =~= v0.push(vv));
                }
                Ok(())
            },
            Err(e) => Err(e),
        }
    }
}


/// A growable sequence of [`FulfillmentShipment`] records, filled one child element
/// at a time, in document order.
#[derive(Debug, PartialEq)]
pub struct FulfillmentShipmentList(pub Vec<FulfillmentShipment>);

impl View for FulfillmentShipmentList {
    type V = Seq<FulfillmentShipmentV>;

    open spec fn view(&self) -> Seq<FulfillmentShipmentV> {
        fulfillment_shipment_seq(self.0@)
    }
}

impl FoldAccumulator for FulfillmentShipmentList {
    /// Every child element of the wrapper contributes one record,
    /// decoded recursively.
    open spec fn step_spec(evs: Seq<Ev>, pos: int, acc: Seq<FulfillmentShipmentV>) -> Result<Seq<FulfillmentShipmentV>, ErrModel> {
        match evs[pos] {
            Ev::StartElement { .. } => match FulfillmentShipment::decode_spec(evs, pos + 1) {
                Ok(p) => Ok(acc.push(p.0)),
                Err(e) => Err(e),
            },
            _ => Ok(acc),
        }
    }

    fn step(&mut self, s: &mut Stream, name: &String) -> (r: Result<(), DecodeError>) {
        match FulfillmentShipment::from_xml(s) {
            Ok(v) => {
                let ghost v0 = self@;
                let ghost vv = v@;
                self.0.push(v);
                proof {
                    assert(self@ =~= v0.push(vv));
                }
                Ok(())
            },
            Err(e) => Err(e),
        }
    }
}


/// A list of items to be returned; carried through unparsed.
#[derive(Debug, Default, Clone, Copy, PartialEq, Eq, Structural)]
pub struct ReturnItemList;

/// A list of return authorizations; carried through unparsed.
#[derive(Debug, Default, Clone, Copy, PartialEq, Eq, Structural)]
pub struct ReturnAuthorizationList;


/// The human-readable description of a tracking event code, where one
/// is known.
pub open spec fn event_description_of(code: Seq<char>) -> Option<Seq<char>> {
    if code == "EVENT_101"@ {
        Some("Carrier notified to pick up package."@)
    } else if code == "EVENT_102"@ {
        Some("Shipment picked up from seller's facility."@)
    } else if code == "EVENT_201"@ {
        Some("Arrival scan."@)
    } else if code == "EVENT_202"@ {
        Some("Departure scan."@)
    } else if code == "EVENT_203"@ {
        Some("Arrived at destination country."@)
    } else if code == "EVENT_204"@ {
        Some("Initiated customs clearance process."@)
    } else if code == "EVENT_205"@ {
        Some("Completed customs clearance process."@)
    } else if code == "EVENT_206"@ {
        Some("In transit to pickup location."@)
    } else if code == "EVENT_301"@ {
        Some("Delivered."@)
    } else if code == "EVENT_302"@ {
        Some("Out for delivery."@)
    } else if code == "EVENT_304"@ {
        Some("Delivery attempted."@)
    } else if code == "EVENT_306"@ {
        Some("Customer contacted to arrange delivery."@)
    } else if code == "EVENT_307"@ {
        Some("Delivery appointment scheduled."@)
    } else if code == "EVENT_308"@ {
        Some("Available for pickup."@)
    } else if code == "EVENT_309"@ {
        Some("Returned to seller."@)
    } else if code == "EVENT_401"@ {
        Some("Held by carrier - incorrect address."@)
    } else if code == "EVENT_402"@ {
        Some("Customs clearance delay."@)
    } else if code == "EVENT_403"@ {
        Some("Customer moved."@)
    } else if code == "EVENT_404"@ {
        Some("Delay in delivery due to external factors."@)
    } else if code == "EVENT_405"@ {
        Some("Shipment damaged."@)
    } else if code == "EVENT_406"@ {
        Some("Held by carrier."@)
    } else if code == "EVENT_407"@ {
        Some("Customer refused delivery."@)
    } else if code == "EVENT_408"@ {
        Some("Returning to seller."@)
    } else if code == "EVENT_409"@ {
        Some("Lost by carrier."@)
    } else if code == "EVENT_411"@ {
        Some("Paperwork received - did not receive shipment."@)
    } else if code == "EVENT_412"@ {
        Some("Shipment received- did not receive paperwork."@)
    } else if code == "EVENT_413"@ {
        Some("Held by carrier- customer refused shipment due to customs charges."@)
    } else if code == "EVENT_414"@ {
        Some("Missorted by carrier."@)
    } else if code == "EVENT_415"@ {
        Some("Received from prior carrier."@)
    } else if code == "EVENT_416"@ {
        Some("Undeliverable."@)
    } else if code == "EVENT_417"@ {
        Some("Shipment missorted."@)
    } else if code == "EVENT_418"@ {
        Some("Shipment delayed."@)
    } else if code == "EVENT_419"@ {
        Some("Address corrected - delivery rescheduled."@)
    } else {
        None
    }
}

impl TrackingEvent {
    /// The human-readable description of this event's code, where one
    /// is known.
    pub fn event_description(&self) -> (r: Option<&'static str>)
        ensures
            match r {
                Some(d) => event_description_of(self.EventCode@) == Some(d@),
                None => event_description_of(self.EventCode@) is None,
            },
    {
        let code = self.EventCode.as_str();
        if str_eq(code, "EVENT_101") {
            Some("Carrier notified to pick up package.")
        } else if str_eq(code, "EVENT_102") {
            Some("Shipment picked up from seller's facility.")
        } else if str_eq(code, "EVENT_201") {
            Some("Arrival scan.")
        } else if str_eq(code, "EVENT_202") {
            Some("Departure scan.")
        } else if str_eq(code, "EVENT_203") {
            Some("Arrived at destination country.")
        } else if str_eq(code, "EVENT_204") {
            Some("Initiated customs clearance process.")
        } else if str_eq(code, "EVENT_205") {
            Some("Completed customs clearance process.")
        } else if str_eq(code, "EVENT_206") {
            Some("In transit to pickup location.")
        } else if str_eq(code, "EVENT_301") {
            Some("Delivered.")
        } else if str_eq(code, "EVENT_302") {
            Some("Out for delivery.")
        } else if str_eq(code, "EVENT_304") {
            Some("Delivery attempted.")
        } else if str_eq(code, "EVENT_306") {
            Some("Customer contacted to arrange delivery.")
        } else if str_eq(code, "EVENT_307") {
            Some("Delivery appointment scheduled.")
        } else if str_eq(code, "EVENT_308") {
            Some("Available for pickup.")
        } else if str_eq(code, "EVENT_309") {
            Some("Returned to seller.")
        } else if str_eq(code, "EVENT_401") {
            Some("Held by carrier - incorrect address.")
        } else if str_eq(code, "EVENT_402") {
            Some("Customs clearance delay.")
        } else if str_eq(code, "EVENT_403") {
            Some("Customer moved.")
        } else if str_eq(code, "EVENT_404") {
            Some("Delay in delivery due to external factors.")
        } else if str_eq(code, "EVENT_405") {
            Some("Shipment damaged.")
        } else if str_eq(code, "EVENT_406") {
            Some("Held by carrier.")
        } else if str_eq(code, "EVENT_407") {
            Some("Customer refused delivery.")
        } else if str_eq(code, "EVENT_408") {
            Some("Returning to seller.")
        } else if str_eq(code, "EVENT_409") {
            Some("Lost by carrier.")
        } else if str_eq(code, "EVENT_411") {
            Some("Paperwork received - did not receive shipment.")
        } else if str_eq(code, "EVENT_412") {
            Some("Shipment received- did not receive paperwork.")
        } else if str_eq(code, "EVENT_413") {
            Some("Held by carrier- customer refused shipment due to customs charges.")
        } else if str_eq(code, "EVENT_414") {
            Some("Missorted by carrier.")
        } else if str_eq(code, "EVENT_415") {
            Some("Received from prior carrier.")
        } else if str_eq(code, "EVENT_416") {
            Some("Undeliverable.")
        } else if str_eq(code, "EVENT_417") {
            Some("Shipment missorted.")
        } else if str_eq(code, "EVENT_418") {
            Some("Shipment delayed.")
        } else if str_eq(code, "EVENT_419") {
            Some("Address corrected - delivery rescheduled.")
        } else {
            None
        }
    }
}


/// Empty element against absent element: a `SellerSKU` child that is
/// present but empty sets the optional field to the empty string, while
/// a scope in which the field's element never appears leaves it `None`;
/// the two outcomes are distinguishable in the record.
pub proof fn lemma_empty_vs_absent(
    evs: Seq<Ev>,
    pos: int,
    acc: FulfillmentShipmentItemV,
    end_name: Seq<char>,
)
    requires
        0 <= pos,
        pos + 1 < evs.len(),
        evs[pos] matches Ev::StartElement { name, .. } && name == "SellerSKU"@,
        evs[pos + 1] matches Ev::EndElement { .. },
    ensures
        FulfillmentShipmentItem::step_spec(evs, pos, acc) == Ok::<
            FulfillmentShipmentItemV,
            ErrModel,
        >(FulfillmentShipmentItemV { SellerSKU: Some(Seq::empty()), ..acc }),
        fold_spec::<FulfillmentShipmentItem>(
            seq![Ev::EndElement { name: end_name }],
            0,
            FulfillmentShipmentItem::default_v(),
        ) == Ok::<(FulfillmentShipmentItemV, int), ErrModel>(
            (FulfillmentShipmentItem::default_v(), 0),
        ),
        FulfillmentShipmentItem::default_v().SellerSKU is None,
{
    assert(chars_result(evs, pos + 1) == Ok::<(Seq<char>, int), ErrModel>(
        (Seq::empty(), pos + 1),
    ));
}

/// Unknown-element tolerance at a record's dispatch table: a child
/// element whose name the destination-address record does not recognize
/// leaves the accumulator unchanged, so the fold skips it whole.
pub proof fn lemma_destination_address_ignores_unknown(
    evs: Seq<Ev>,
    pos: int,
    acc: DestinationAddressV,
)
    requires
        0 <= pos < evs.len(),
        evs[pos] matches Ev::StartElement { name, .. } && !(name == "PhoneNumber"@ || name
            == "City"@ || name == "CountryCode"@ || name == "PostalCode"@ || name
            == "StateOrProvinceCode"@ || name == "DistrictOrCounty"@ || name == "Name"@ || name
            == "Line1"@ || name == "Line2"@ || name == "Line3"@),
    ensures
        DestinationAddress::step_spec(evs, pos, acc) == Ok::<DestinationAddressV, ErrModel>(acc),
{
}


/// A destination-address dispatch step depends only on the remaining
/// events: two positions with the same remaining events step alike.
proof fn lemma_destination_address_step_frame(
    evs1: Seq<Ev>,
    pos1: int,
    evs2: Seq<Ev>,
    pos2: int,
    acc: DestinationAddressV,
)
    requires
        0 <= pos1 < evs1.len(),
        0 <= pos2 < evs2.len(),
        evs1.len() - pos1 == evs2.len() - pos2,
        evs1.subrange(pos1, evs1.len() as int) == evs2.subrange(pos2, evs2.len() as int),
    ensures
        DestinationAddress::step_spec(evs1, pos1, acc) == DestinationAddress::step_spec(
            evs2,
            pos2,
            acc,
        ),
{
    crate::decode::lemma_suffix_eq_at(evs1, pos1, evs2, pos2, 0);
    crate::decode::lemma_suffix_eq_at(evs1, pos1, evs2, pos2, 1);
    crate::decode::lemma_chars_result_frame(evs1, pos1 + 1, evs2, pos2 + 1);
}

/// Decoding a destination address depends only on the remaining events:
/// two positions with the same remaining events decode the same value.
proof fn lemma_destination_address_fold_frame(
    evs1: Seq<Ev>,
    pos1: int,
    evs2: Seq<Ev>,
    pos2: int,
    acc: DestinationAddressV,
)
    requires
        0 <= pos1 <= evs1.len(),
        0 <= pos2 <= evs2.len(),
        evs1.len() - pos1 == evs2.len() - pos2,
        evs1.subrange(pos1, evs1.len() as int) == evs2.subrange(pos2, evs2.len() as int),
    ensures
        match (fold_spec::<DestinationAddress>(evs1, pos1, acc), fold_spec::<DestinationAddress>(
            evs2,
            pos2,
            acc,
        )) {
            (Ok(p1), Ok(p2)) => p1.0 == p2.0 && p1.1 - pos1 == p2.1 - pos2,
            (Err(e1), Err(e2)) => e1 == e2,
            _ => false,
        },
    decreases evs1.len() - pos1,
{
    if pos1 < evs1.len() {
        crate::decode::lemma_suffix_eq_at(evs1, pos1, evs2, pos2, 0);
        crate::decode::lemma_suffix_eq_at(evs1, pos1, evs2, pos2, 1);
        match evs1[pos1] {
            Ev::EndElement { .. } => {},
            Ev::EndDocument => {},
            Ev::StartElement { .. } => {
                lemma_destination_address_step_frame(evs1, pos1, evs2, pos2, acc);
                match DestinationAddress::step_spec(evs1, pos1, acc) {
                    Err(_) => {},
                    Ok(a2) => {
                        crate::decode::lemma_close_pos_frame(evs1, pos1 + 1, evs2, pos2 + 1, 0);
                        crate::events::lemma_close_pos_bounds(evs1, pos1 + 1, 0);
                        crate::events::lemma_close_pos_bounds(evs2, pos2 + 1, 0);
                        let c1 = close_pos(evs1, pos1 + 1, 0);
                        let c2 = close_pos(evs2, pos2 + 1, 0);
                        if c1 < evs1.len() {
                            crate::decode::lemma_suffix_eq_at(
                                evs1,
                                pos1,
                                evs2,
                                pos2,
                                c1 + 1 - pos1,
                            );
                            lemma_destination_address_fold_frame(evs1, c1 + 1, evs2, c2 + 1, a2);
                        }
                    },
                }
            },
            _ => {
                lemma_destination_address_fold_frame(evs1, pos1 + 1, evs2, pos2 + 1, acc);
            },
        }
    }
}

/// Unknown-element tolerance, removal form: deleting one unrecognized
/// child element's whole subtree from the document gives the same
/// decoded destination address as leaving it in.  Applied once per
/// extra element, this says a document with unrecognized children
/// interleaved among known ones decodes as the document with those
/// extras removed.
pub proof fn lemma_destination_address_unknown_removed(
    evs: Seq<Ev>,
    pos: int,
    acc: DestinationAddressV,
)
    requires
        0 <= pos < evs.len(),
        evs[pos] matches Ev::StartElement { name, .. } && !(name == "PhoneNumber"@ || name
            == "City"@ || name == "CountryCode"@ || name == "PostalCode"@ || name
            == "StateOrProvinceCode"@ || name == "DistrictOrCounty"@ || name == "Name"@ || name
            == "Line1"@ || name == "Line2"@ || name == "Line3"@),
        close_pos(evs, pos + 1, 0) < evs.len(),
    ensures
        ({
            let c = close_pos(evs, pos + 1, 0);
            let without = evs.subrange(0, pos) + evs.subrange(c + 1, evs.len() as int);
            match (fold_spec::<DestinationAddress>(evs, pos, acc), fold_spec::<
                DestinationAddress,
            >(without, pos, acc)) {
                (Ok(p1), Ok(p2)) => p1.0 == p2.0,
                (Err(e1), Err(e2)) => e1 == e2,
                _ => false,
            }
        }),
{
    let c = close_pos(evs, pos + 1, 0);
    let without = evs.subrange(0, pos) + evs.subrange(c + 1, evs.len() as int);
    lemma_destination_address_ignores_unknown(evs, pos, acc);
    crate::decode::lemma_unknown_child_skipped::<DestinationAddress>(evs, pos, acc);
    crate::events::lemma_close_pos_bounds(evs, pos + 1, 0);
    assert(evs.subrange(c + 1, evs.len() as int) =~= without.subrange(
        pos,
        without.len() as int,
    )) by {
        assert(forall|j: int|
            0 <= j < evs.len() - (c + 1) ==> #[trigger] without.subrange(
                pos,
                without.len() as int,
            )[j] == without[pos + j]);
    }
    lemma_destination_address_fold_frame(evs, c + 1, without, pos, acc);
}

} // verus!
