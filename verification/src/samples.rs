//! Small records exercising the typed decode protocol end to end.
//!
//! They double as the reference examples for implementing the protocol
//! by hand: a record of scalars and an optional timestamp, a record
//! holding a sequence of integers, and a record holding a sequence of
//! nested records.  The sequence-accumulation law of the protocol is
//! proved here over generated documents.

use vstd::prelude::*;
use vstd::string::*;

use crate::decode::DecodeError;
use crate::decode::ErrModel;
use crate::decode::FoldAccumulator;
use crate::decode::Stream;
use crate::decode::characters;
use crate::decode::characters_i32;
use crate::decode::characters_timestamp;
use crate::decode::chars_i32_result;
use crate::decode::chars_result;
use crate::decode::chars_timestamp_result;
use crate::decode::fold_elements;
use crate::decode::fold_spec;
use crate::encode::end_el;
use crate::encode::text_el;
use crate::events::Ev;
use crate::events::close_pos;
use crate::strutil::i32_dec;
use crate::strutil::str_eq;
use crate::timestamp::Timestamp;

verus! {

/// A record of a string, an integer and an optional timestamp.
#[derive(Debug, PartialEq)]
pub struct Sample {
    pub a: String,
    pub b: i32,
    pub date: Option<Timestamp>,
}

/// The mathematical view of a [`Sample`].
#[verifier::ext_equal]
pub struct SampleV {
    pub a: Seq<char>,
    pub b: i32,
    pub date: Option<Timestamp>,
}

impl View for Sample {
    type V = SampleV;

    open spec fn view(&self) -> SampleV {
        SampleV { a: self.a@, b: self.b, date: self.date }
    }
}

impl Sample {
    /// The value every field starts from before decoding.
    pub open spec fn default_v() -> SampleV {
        SampleV { a: Seq::empty(), b: 0, date: None }
    }

    /// What decoding this record from the current scope yields.
    pub open spec fn decode_spec(evs: Seq<Ev>, pos: int) -> Result<(SampleV, int), ErrModel> {
        fold_spec::<Sample>(evs, pos, Sample::default_v())
    }

    /// Decode this record from the children of the current scope.
    pub fn from_xml(s: &mut Stream) -> (r: Result<Sample, DecodeError>)
        requires
            old(s).wf(),
        ensures
            final(s).wf(),
            final(s).evs() == old(s).evs(),
            old(s).at() <= final(s).at() <= old(s).evs().len(),
            match r {
                Ok(v) => Sample::decode_spec(old(s).evs(), old(s).at()) == Ok::<
                    (SampleV, int),
                    ErrModel,
                >((v@, final(s).at())),
                Err(e) => Sample::decode_spec(old(s).evs(), old(s).at()) == Err::<
                    (SampleV, int),
                    ErrModel,
                >(e@),
            },
    {
        fold_elements(s, Sample::default())
    }
}

impl Default for Sample {
    fn default() -> (r: Self)
        ensures
            r@ == Sample::default_v(),
    {
        Sample { a: String::new(), b: 0, date: None }
    }
}

impl FoldAccumulator for Sample {
    open spec fn step_spec(evs: Seq<Ev>, pos: int, acc: SampleV) -> Result<SampleV, ErrModel> {
        match evs[pos] {
            Ev::StartElement { name, .. } => {
                if name == "a"@ {
                    match chars_result(evs, pos + 1) {
                        Ok(p) => Ok(SampleV { a: p.0, ..acc }),
                        Err(e) => Err(e),
                    }
                } else if name == "b"@ {
                    match chars_i32_result(evs, pos + 1, name) {
                        Ok(p) => Ok(SampleV { b: p.0, ..acc }),
                        Err(e) => Err(e),
                    }
                } else if name == "date"@ {
                    match chars_timestamp_result(evs, pos + 1, name) {
                        Ok(p) => Ok(SampleV { date: Some(p.0), ..acc }),
                        Err(e) => Err(e),
                    }
                } else {
                    Ok(acc)
                }
            },
            _ => Ok(acc),
        }
    }

    fn step(&mut self, s: &mut Stream, name: &String) -> (r: Result<(), DecodeError>) {
        if str_eq(name.as_str(), "a") {
            match characters(s) {
                Ok(t) => {
                    self.a = t;
                    Ok(())
                },
                Err(e) => Err(e),
            }
        } else if str_eq(name.as_str(), "b") {
            match characters_i32(s, name) {
                Ok(n) => {
                    self.b = n;
                    Ok(())
                },
                Err(e) => Err(e),
            }
        } else if str_eq(name.as_str(), "date") {
            match characters_timestamp(s, name) {
                Ok(ts) => {
                    self.date = Some(ts);
                    Ok(())
                },
                Err(e) => Err(e),
            }
        } else {
            Ok(())
        }
    }
}

/// A record holding a sequence of integers, one per child of its
/// wrapper element.
#[derive(Debug, PartialEq)]
pub struct IntListRecord {
    pub items: Vec<i32>,
}

/// The mathematical view of an [`IntListRecord`].
#[verifier::ext_equal]
pub struct IntListRecordV {
    pub items: Seq<i32>,
}

impl View for IntListRecord {
    type V = IntListRecordV;

    open spec fn view(&self) -> IntListRecordV {
        IntListRecordV { items: self.items@ }
    }
}

impl IntListRecord {
    /// The value every field starts from before decoding.
    pub open spec fn default_v() -> IntListRecordV {
        IntListRecordV { items: Seq::empty() }
    }

    /// What decoding this record from the current scope yields.
    pub open spec fn decode_spec(evs: Seq<Ev>, pos: int) -> Result<
        (IntListRecordV, int),
        ErrModel,
    > {
        fold_spec::<IntListRecord>(evs, pos, IntListRecord::default_v())
    }

    /// Decode this record from the children of the current scope.
    pub fn from_xml(s: &mut Stream) -> (r: Result<IntListRecord, DecodeError>)
        requires
            old(s).wf(),
        ensures
            final(s).wf(),
            final(s).evs() == old(s).evs(),
            old(s).at() <= final(s).at() <= old(s).evs().len(),
            match r {
                Ok(v) => IntListRecord::decode_spec(old(s).evs(), old(s).at()) == Ok::<
                    (IntListRecordV, int),
                    ErrModel,
                >((v@, final(s).at())),
                Err(e) => IntListRecord::decode_spec(old(s).evs(), old(s).at()) == Err::<
                    (IntListRecordV, int),
                    ErrModel,
                >(e@),
            },
    {
        fold_elements(s, IntListRecord::default())
    }
}

impl Default for IntListRecord {
    fn default() -> (r: Self)
        ensures
            r@ == IntListRecord::default_v(),
    {
        IntListRecord { items: Vec::new() }
    }
}

impl FoldAccumulator for IntListRecord {
    open spec fn step_spec(evs: Seq<Ev>, pos: int, acc: IntListRecordV) -> Result<
        IntListRecordV,
        ErrModel,
    > {
        match evs[pos] {
            Ev::StartElement { name, .. } => {
                if name == "items"@ {
                    match fold_spec::<Vec<i32>>(evs, pos + 1, Seq::empty()) {
                        Ok(p) => Ok(IntListRecordV { items: p.0, ..acc }),
                        Err(e) => Err(e),
                    }
                } else {
                    Ok(acc)
                }
            },
            _ => Ok(acc),
        }
    }

    fn step(&mut self, s: &mut Stream, name: &String) -> (r: Result<(), DecodeError>) {
        if str_eq(name.as_str(), "items") {
            let acc0: Vec<i32> = Vec::new();
            match fold_elements(s, acc0) {
                Ok(l) => {
                    self.items = l;
                    Ok(())
                },
                Err(e) => Err(e),
            }
        } else {
            Ok(())
        }
    }
}

/// A nested record of a string and an integer.
#[derive(Debug, PartialEq)]
pub struct Item {
    pub a: String,
    pub b: i32,
}

/// The mathematical view of an [`Item`].
#[verifier::ext_equal]
pub struct ItemV {
    pub a: Seq<char>,
    pub b: i32,
}

/// The views of a sequence of [`Item`] records.
pub open spec fn item_seq(v: Seq<Item>) -> Seq<ItemV> {
    v.map_values(|x: Item| x@)
}

impl View for Item {
    type V = ItemV;

    open spec fn view(&self) -> ItemV {
        ItemV { a: self.a@, b: self.b }
    }
}

impl Item {
    /// The value every field starts from before decoding.
    pub open spec fn default_v() -> ItemV {
        ItemV { a: Seq::empty(), b: 0 }
    }

    /// What decoding this record from the current scope yields.
    pub open spec fn decode_spec(evs: Seq<Ev>, pos: int) -> Result<(ItemV, int), ErrModel> {
        fold_spec::<Item>(evs, pos, Item::default_v())
    }

    /// Decode this record from the children of the current scope.
    pub fn from_xml(s: &mut Stream) -> (r: Result<Item, DecodeError>)
        requires
            old(s).wf(),
        ensures
            final(s).wf(),
            final(s).evs() == old(s).evs(),
            old(s).at() <= final(s).at() <= old(s).evs().len(),
            match r {
                Ok(v) => Item::decode_spec(old(s).evs(), old(s).at()) == Ok::<
                    (ItemV, int),
                    ErrModel,
                >((v@, final(s).at())) && close_pos(old(s).evs(), old(s).at(), 0) == final(s).at() && close_pos(old(s).evs(), final(s).at(), 0) == final(s).at(),
                Err(e) => Item::decode_spec(old(s).evs(), old(s).at()) == Err::<
                    (ItemV, int),
                    ErrModel,
                >(e@),
            },
    {
        fold_elements(s, Item::default())
    }
}

impl Default for Item {
    fn default() -> (r: Self)
        ensures
            r@ == Item::default_v(),
    {
        Item { a: String::new(), b: 0 }
    }
}

impl FoldAccumulator for Item {
    open spec fn step_spec(evs: Seq<Ev>, pos: int, acc: ItemV) -> Result<ItemV, ErrModel> {
        match evs[pos] {
            Ev::StartElement { name, .. } => {
                if name == "a"@ {
                    match chars_result(evs, pos + 1) {
                        Ok(p) => Ok(ItemV { a: p.0, ..acc }),
                        Err(e) => Err(e),
                    }
                } else if name == "b"@ {
                    match chars_i32_result(evs, pos + 1, name) {
                        Ok(p) => Ok(ItemV { b: p.0, ..acc }),
                        Err(e) => Err(e),
                    }
                } else {
                    Ok(acc)
                }
            },
            _ => Ok(acc),
        }
    }

    fn step(&mut self, s: &mut Stream, name: &String) -> (r: Result<(), DecodeError>) {
        if str_eq(name.as_str(), "a") {
            match characters(s) {
                Ok(t) => {
                    self.a = t;
                    Ok(())
                },
                Err(e) => Err(e),
            }
        } else if str_eq(name.as_str(), "b") {
            match characters_i32(s, name) {
                Ok(n) => {
                    self.b = n;
                    Ok(())
                },
                Err(e) => Err(e),
            }
        } else {
            Ok(())
        }
    }
}

/// A growable sequence of [`Item`] records, filled one child element at
/// a time, in document order.
#[derive(Debug, PartialEq)]
pub struct ItemList(pub Vec<Item>);

impl View for ItemList {
    type V = Seq<ItemV>;

    open spec fn view(&self) -> Seq<ItemV> {
        item_seq(self.0@)
    }
}

impl FoldAccumulator for ItemList {
    /// Every child element of the wrapper contributes one record,
    /// decoded recursively.
    open spec fn step_spec(evs: Seq<Ev>, pos: int, acc: Seq<ItemV>) -> Result<Seq<ItemV>, ErrModel> {
        match evs[pos] {
            Ev::StartElement { .. } => match Item::decode_spec(evs, pos + 1) {
                Ok(p) => Ok(acc.push(p.0)),
                Err(e) => Err(e),
            },
            _ => Ok(acc),
        }
    }

    fn step(&mut self, s: &mut Stream, name: &String) -> (r: Result<(), DecodeError>) {
        match Item::from_xml(s) {
            Ok(v) => {
                let ghost v0 = self@;
                let ghost vv = v@;
                self.0.push(v);
                proof {
                    assert(self@ =~= v0.push(vv));
                }
                Ok(())
            },
            Err(e) => Err(e),
        }
    }
}

/// A record holding a sequence of nested records, one per child of its
/// wrapper element.
#[derive(Debug, PartialEq)]
pub struct ItemListRecord {
    pub items: Vec<Item>,
}

/// The mathematical view of an [`ItemListRecord`].
#[verifier::ext_equal]
pub struct ItemListRecordV {
    pub items: Seq<ItemV>,
}

impl View for ItemListRecord {
    type V = ItemListRecordV;

    open spec fn view(&self) -> ItemListRecordV {
        ItemListRecordV { items: item_seq(self.items@) }
    }
}

impl ItemListRecord {
    /// The value every field starts from before decoding.
    pub open spec fn default_v() -> ItemListRecordV {
        ItemListRecordV { items: Seq::empty() }
    }

    /// What decoding this record from the current scope yields.
    pub open spec fn decode_spec(evs: Seq<Ev>, pos: int) -> Result<
        (ItemListRecordV, int),
        ErrModel,
    > {
        fold_spec::<ItemListRecord>(evs, pos, ItemListRecord::default_v())
    }

    /// Decode this record from the children of the current scope.
    pub fn from_xml(s: &mut Stream) -> (r: Result<ItemListRecord, DecodeError>)
        requires
            old(s).wf(),
        ensures
            final(s).wf(),
            final(s).evs() == old(s).evs(),
            old(s).at() <= final(s).at() <= old(s).evs().len(),
            match r {
                Ok(v) => ItemListRecord::decode_spec(old(s).evs(), old(s).at()) == Ok::<
                    (ItemListRecordV, int),
                    ErrModel,
                >((v@, final(s).at())),
                Err(e) => ItemListRecord::decode_spec(old(s).evs(), old(s).at()) == Err::<
                    (ItemListRecordV, int),
                    ErrModel,
                >(e@),
            },
    {
        fold_elements(s, ItemListRecord::default())
    }
}

impl Default for ItemListRecord {
    fn default() -> (r: Self)
        ensures
            r@ == ItemListRecord::default_v(),
    {
        ItemListRecord { items: Vec::new() }
    }
}

impl FoldAccumulator for ItemListRecord {
    open spec fn step_spec(evs: Seq<Ev>, pos: int, acc: ItemListRecordV) -> Result<
        ItemListRecordV,
        ErrModel,
    > {
        match evs[pos] {
            Ev::StartElement { name, .. } => {
                if name == "items"@ {
                    match fold_spec::<ItemList>(evs, pos + 1, Seq::empty()) {
                        Ok(p) => Ok(ItemListRecordV { items: p.0, ..acc }),
                        Err(e) => Err(e),
                    }
                } else {
                    Ok(acc)
                }
            },
            _ => Ok(acc),
        }
    }

    fn step(&mut self, s: &mut Stream, name: &String) -> (r: Result<(), DecodeError>) {
        if str_eq(name.as_str(), "items") {
            let acc0 = ItemList(Vec::new());
            proof {
                assert(acc0@ =~= Seq::<ItemV>::empty());
            }
            match fold_elements(s, acc0) {
                Ok(l) => {
                    self.items = l.0;
                    Ok(())
                },
                Err(e) => Err(e),
            }
        } else {
            Ok(())
        }
    }
}

/// The events of a sequence of integer items, each one `value` element
/// holding the integer's decimal text, in order.
pub open spec fn int_item_evs(vals: Seq<i32>) -> Seq<Ev> {
    vals.map_values(|v: i32| text_el("value"@, i32_dec(v as int))).flatten()
}

/// Folding integer items over a generated scope accumulates exactly the
/// given values, in document order.
proof fn lemma_int_items_fold(evs: Seq<Ev>, pos: int, acc: Seq<i32>, vals: Seq<i32>)
    requires
        0 <= pos <= evs.len(),
        evs.subrange(pos, evs.len() as int) =~= int_item_evs(vals).push(end_el("items"@)),
    ensures
        fold_spec::<Vec<i32>>(evs, pos, acc) == Ok::<(Seq<i32>, int), ErrModel>(
            (acc + vals, pos + 3 * vals.len()),
        ),
    decreases vals.len(),
{
    let suffix = evs.subrange(pos, evs.len() as int);
    if vals.len() == 0 {
        assert(int_item_evs(vals) =~= Seq::<Seq<Ev>>::empty().flatten());
        assert(Seq::<Seq<Ev>>::empty().flatten() =~= Seq::<Ev>::empty());
        assert(suffix[0] == end_el("items"@));
        assert(evs[pos] == suffix[0]);
        assert(fold_spec::<Vec<i32>>(evs, pos, acc) == Ok::<(Seq<i32>, int), ErrModel>(
            (acc, pos),
        ));
        assert(acc + vals =~= acc);
    } else {
        let v0 = vals[0];
        let mapped = vals.map_values(|v: i32| text_el("value"@, i32_dec(v as int)));
        assert(mapped.first() == text_el("value"@, i32_dec(v0 as int)));
        assert(mapped.flatten() == mapped.first() + mapped.drop_first().flatten());
        assert(mapped.drop_first() =~= vals.skip(1).map_values(
            |v: i32| text_el("value"@, i32_dec(v as int)),
        ));
        let rest = int_item_evs(vals.skip(1));
        assert(int_item_evs(vals) =~= text_el("value"@, i32_dec(v0 as int)) + rest);
        assert(suffix[0] == text_el("value"@, i32_dec(v0 as int))[0]);
        assert(suffix[1] == text_el("value"@, i32_dec(v0 as int))[1]);
        assert(suffix[2] == text_el("value"@, i32_dec(v0 as int))[2]);
        assert(evs[pos] == suffix[0]);
        assert(evs[pos + 1] == suffix[1]);
        assert(evs[pos + 2] == suffix[2]);
        assert(evs[pos] matches Ev::StartElement { name, .. } && name == "value"@);
        assert(evs[pos + 1] == Ev::Text { content: i32_dec(v0 as int) });
        assert(evs[pos + 2] == end_el("value"@));
        // the text of the item element reads back as the integer
        assert(chars_result(evs, pos + 2) == Ok::<(Seq<char>, int), ErrModel>(
            (Seq::empty(), pos + 2),
        ));
        assert(i32_dec(v0 as int) + Seq::<char>::empty() =~= i32_dec(v0 as int));
        assert(chars_result(evs, pos + 1) == Ok::<(Seq<char>, int), ErrModel>(
            (i32_dec(v0 as int), pos + 2),
        ));
        crate::strutil::lemma_i32_round_trip(v0);
        let acc2 = acc.push(v0);
        assert(<Vec<i32> as FoldAccumulator>::step_spec(evs, pos, acc) == Ok::<
            Seq<i32>,
            ErrModel,
        >(acc2));
        assert(close_pos(evs, pos + 2, 0) == pos + 2);
        assert(close_pos(evs, pos + 1, 0) == pos + 2);
        assert(fold_spec::<Vec<i32>>(evs, pos, acc) == fold_spec::<Vec<i32>>(
            evs,
            pos + 3,
            acc2,
        ));
        assert(evs.subrange(pos + 3, evs.len() as int) =~= rest.push(end_el("items"@))) by {
            assert(forall|k: int|
                0 <= k < evs.len() - (pos + 3) ==> #[trigger] evs.subrange(
                    pos + 3,
                    evs.len() as int,
                )[k] == suffix[k + 3]);
        }
        lemma_int_items_fold(evs, pos + 3, acc2, vals.skip(1));
        assert(acc2 + vals.skip(1) =~= acc + vals);
    }
}

/// Sequence accumulation: a wrapper element containing no item elements
/// decodes to the empty sequence, not an error; containing items, it
/// decodes to one integer per item element, in document order.
pub proof fn lemma_sequence_accumulation(vals: Seq<i32>)
    ensures
        fold_spec::<Vec<i32>>(int_item_evs(vals).push(end_el("items"@)), 0, Seq::empty())
            == Ok::<(Seq<i32>, int), ErrModel>((vals, 3 * vals.len() as int)),
{
    let evs = int_item_evs(vals).push(end_el("items"@));
    assert(evs.subrange(0, evs.len() as int) =~= evs);
    lemma_int_items_fold(evs, 0, Seq::empty(), vals);
    assert(Seq::<i32>::empty() + vals =~= vals);
}

} // verus!
