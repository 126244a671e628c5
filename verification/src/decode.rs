//! Decode combinators over a forward-only stream of XML parse events.
//!
//! A [`Stream`] is a pull-based cursor over parse events.  The combinators
//! ([`start_document`], [`open_element`] / [`close_element`],
//! [`fold_elements`], [`characters`]) navigate the structure and extract
//! values.  Unknown child elements are always fully consumed and ignored,
//! so decoding tolerates documents with extra content; structural
//! mismatches and failed scalar conversions surface as a [`DecodeError`].
//!
//! Every combinator's contract is stated against a small set of spec
//! functions over the event-sequence view ([`chars_result`], [`doc_start`],
//! [`open_result`], [`fold_spec`]) which together define the grammar.

use vstd::prelude::*;
use vstd::string::*;
use xml::reader::EventReader;
use xml::reader::XmlEvent as RdEvent;

use crate::events::Ev;
use crate::events::Event;
use crate::events::EventKind;
use crate::events::close_pos;
use crate::events::evs_view;
use crate::events::kind_of;
use crate::events::lemma_close_pos_bounds;
use crate::events::lemma_close_pos_skip;
use crate::strutil::is_ws_str;
use crate::strutil::str_eq;
use crate::strutil::ws_only;

verus! {

/// A structural or conversion failure during decoding.
///
/// The first failure at any nesting level unwinds through all enclosing
/// combinators; no partial record is ever returned.
#[derive(Debug, Clone, PartialEq)]
pub enum DecodeError {
    /// A required start tag matched none of the accepted names.
    UnexpectedElement { expected: Vec<String>, found: String },
    /// An event of the wrong kind appeared where another was required.
    UnexpectedEvent { expected: EventKind, found: EventKind },
    /// The source was exhausted before a required end event appeared.
    UnexpectedEndOfDocument,
    /// Text content could not be converted to the target scalar type.
    ParseValue { field: String, raw: String, target: String },
    /// The underlying byte source failed.
    Io { message: String },
}

/// The mathematical view of a [`DecodeError`].
#[verifier::ext_equal]
pub enum ErrModel {
    UnexpectedElement { expected: Seq<Seq<char>>, found: Seq<char> },
    UnexpectedEvent { expected: EventKind, found: EventKind },
    UnexpectedEndOfDocument,
    ParseValue { field: Seq<char>, raw: Seq<char>, target: Seq<char> },
    Io { message: Seq<char> },
}

impl View for DecodeError {
    type V = ErrModel;

    open spec fn view(&self) -> ErrModel {
        match self {
            DecodeError::UnexpectedElement { expected, found } => ErrModel::UnexpectedElement {
                expected: expected@.map_values(|s: String| s@),
                found: found@,
            },
            DecodeError::UnexpectedEvent { expected, found } => ErrModel::UnexpectedEvent {
                expected: *expected,
                found: *found,
            },
            DecodeError::UnexpectedEndOfDocument => ErrModel::UnexpectedEndOfDocument,
            DecodeError::ParseValue { field, raw, target } => ErrModel::ParseValue {
                field: field@,
                raw: raw@,
                target: target@,
            },
            DecodeError::Io { message } => ErrModel::Io { message: message@ },
        }
    }
}

/// A pull-based, forward-only cursor over XML parse events.
///
/// The cursor is positioned before the next unconsumed event; events are
/// consumed at most once each.
#[derive(Debug)]
pub struct Stream {
    events: Vec<Event>,
    pos: usize,
}

impl Stream {
    /// The event sequence the cursor walks, as its mathematical view.
    pub closed spec fn evs(&self) -> Seq<Ev> {
        evs_view(self.events@)
    }

    /// The current position: the index of the next unconsumed event.
    pub closed spec fn at(&self) -> int {
        self.pos as int
    }

    /// The cursor never runs past the end of the sequence.
    pub closed spec fn wf(&self) -> bool {
        self.pos <= self.events@.len()
    }

    /// A cursor positioned at the first of the given events.
    pub fn new(events: Vec<Event>) -> (s: Stream)
        ensures
            s.wf(),
            s.evs() == evs_view(events@),
            s.at() == 0,
    {
        Stream { events, pos: 0 }
    }

    /// The kind of the next unconsumed event, or `None` at the end of the
    /// stream.
    pub fn peek_kind(&self) -> (r: Option<EventKind>)
        requires
            self.wf(),
        ensures
            match r {
                Some(k) => self.at() < self.evs().len() && k == kind_of(self.evs()[self.at()]),
                None => self.at() >= self.evs().len(),
            },
    {
        if self.pos >= self.events.len() {
            None
        } else {
            proof {
                assert(self.evs()[self.at()] == self.events@[self.at()]@);
            }
            Some(
                match &self.events[self.pos] {
                    Event::StartDocument => EventKind::StartDocument,
                    Event::StartElement { .. } => EventKind::StartElement,
                    Event::EndElement { .. } => EventKind::EndElement,
                    Event::Text { .. } => EventKind::Text,
                    Event::EndDocument => EventKind::EndDocument,
                    Event::Markup => EventKind::Markup,
                },
            )
        }
    }

    /// The local name of the current element start or end event.
    pub fn local_name(&self) -> (r: Option<String>)
        requires
            self.wf(),
        ensures
            match r {
                Some(name) => self.at() < self.evs().len() && (match self.evs()[self.at()] {
                    Ev::StartElement { name: n, .. } => n == name@,
                    Ev::EndElement { name: n } => n == name@,
                    _ => false,
                }),
                None => self.at() >= self.evs().len() || !(self.evs()[self.at()] is StartElement
                    || self.evs()[self.at()] is EndElement),
            },
    {
        if self.pos >= self.events.len() {
            return None;
        }
        proof {
            assert(self.evs()[self.at()] == self.events@[self.at()]@);
        }
        match &self.events[self.pos] {
            Event::StartElement { name, .. } => Some(name.clone()),
            Event::EndElement { name } => Some(name.clone()),
            _ => None,
        }
    }

    /// Advance past the next event, returning its kind, or `None` at the
    /// end of the stream.
    pub fn next(&mut self) -> (r: Option<EventKind>)
        requires
            old(self).wf(),
        ensures
            final(self).wf(),
            final(self).evs() == old(self).evs(),
            match r {
                Some(k) => old(self).at() < old(self).evs().len() && k == kind_of(
                    old(self).evs()[old(self).at()],
                ) && final(self).at() == old(self).at() + 1,
                None => old(self).at() >= old(self).evs().len() && final(self).at() == old(self).at(),
            },
    {
        match self.peek_kind() {
            Some(k) => {
                let n = self.events.len();
                proof {
                    assert(self.pos < n);
                }
                self.pos += 1;
                Some(k)
            },
            None => None,
        }
    }

    /// Consume events up to and including the end event that closes the
    /// current scope, counting nested elements by depth.  Fails when the
    /// stream ends before that end event appears.
    pub fn close_scope(&mut self) -> (r: Result<(), DecodeError>)
        requires
            old(self).wf(),
        ensures
            final(self).wf(),
            final(self).evs() == old(self).evs(),
            old(self).at() <= final(self).at() <= old(self).evs().len(),
            match r {
                Ok(()) => close_pos(old(self).evs(), old(self).at(), 0) < old(self).evs().len()
                    && final(self).at() == close_pos(old(self).evs(), old(self).at(), 0) + 1,
                Err(e) => close_pos(old(self).evs(), old(self).at(), 0) == old(self).evs().len()
                    && e@ == ErrModel::UnexpectedEndOfDocument,
            },
    {
        let ghost evs = self.evs();
        let ghost p0 = self.at();
        let mut depth: usize = 0;
        loop
            invariant
                self.wf(),
                self.evs() == evs,
                p0 <= self.at() <= evs.len(),
                depth <= self.at() - p0,
                close_pos(evs, p0, 0) == close_pos(evs, self.at(), depth as nat),
            decreases evs.len() - self.at(),
        {
            if self.pos >= self.events.len() {
                return Err(DecodeError::UnexpectedEndOfDocument);
            }
            proof {
                assert(evs[self.at()] == self.events@[self.at()]@);
            }
            match &self.events[self.pos] {
                Event::EndElement { .. } => {
                    if depth == 0 {
                        self.pos += 1;
                        return Ok(());
                    } else {
                        depth -= 1;
                        self.pos += 1;
                    }
                },
                Event::StartElement { .. } => {
                    depth += 1;
                    self.pos += 1;
                },
                Event::EndDocument => {
                    return Err(DecodeError::UnexpectedEndOfDocument);
                },
                _ => {
                    self.pos += 1;
                },
            }
        }
    }

    /// Consume the current element start and everything in its subtree, up
    /// to and including its matching end event.
    pub fn skip_subtree(&mut self) -> (r: Result<(), DecodeError>)
        requires
            old(self).wf(),
            old(self).at() < old(self).evs().len(),
            old(self).evs()[old(self).at()] is StartElement,
        ensures
            final(self).wf(),
            final(self).evs() == old(self).evs(),
            old(self).at() <= final(self).at() <= old(self).evs().len(),
            match r {
                Ok(()) => close_pos(old(self).evs(), old(self).at() + 1, 0) < old(self).evs().len() && final(self).at() == close_pos(
                    old(self).evs(),
                    old(self).at() + 1,
                    0,
                ) + 1,
                Err(e) => close_pos(old(self).evs(), old(self).at() + 1, 0) == old(self).evs().len() && e@ == ErrModel::UnexpectedEndOfDocument,
            },
    {
        let n = self.events.len();
        proof {
            assert(self.evs().len() == self.events@.len());
            assert(self.pos < n);
        }
        self.pos += 1;
        self.close_scope()
    }
}

/// The position of the first structural event (an element start or end, or
/// the end of the document) at or after `pos`; text and other non-content
/// events are passed over.
pub open spec fn next_node(evs: Seq<Ev>, pos: int) -> int
    decreases evs.len() - pos,
{
    if pos < 0 || pos >= evs.len() {
        evs.len() as int
    } else {
        match evs[pos] {
            Ev::StartElement { .. } => pos,
            Ev::EndElement { .. } => pos,
            Ev::EndDocument => pos,
            _ => next_node(evs, pos + 1),
        }
    }
}

/// `next_node` never moves backwards and never leaves the sequence.
pub proof fn lemma_next_node_bounds(evs: Seq<Ev>, pos: int)
    requires
        0 <= pos <= evs.len(),
    ensures
        pos <= next_node(evs, pos) <= evs.len(),
        next_node(evs, pos) < evs.len() ==> (evs[next_node(evs, pos)] is StartElement
            || evs[next_node(evs, pos)] is EndElement || evs[next_node(evs, pos)] is EndDocument),
    decreases evs.len() - pos,
{
    if pos < evs.len() {
        match evs[pos] {
            Ev::StartElement { .. } => {},
            Ev::EndElement { .. } => {},
            Ev::EndDocument => {},
            _ => {
                lemma_next_node_bounds(evs, pos + 1);
            },
        }
    }
}

/// What extracting the textual content of the current element yields: the
/// concatenation of all text up to the element's end event, which is left
/// unconsumed at the returned position.  A nested element start is a
/// structural error; an exhausted stream is an end-of-document error.
pub open spec fn chars_result(evs: Seq<Ev>, pos: int) -> Result<(Seq<char>, int), ErrModel>
    decreases evs.len() - pos,
{
    if pos < 0 || pos >= evs.len() {
        Err(ErrModel::UnexpectedEndOfDocument)
    } else {
        match evs[pos] {
            Ev::EndElement { .. } => Ok((Seq::empty(), pos)),
            Ev::Text { content } => match chars_result(evs, pos + 1) {
                Ok((rest, e)) => Ok((content + rest, e)),
                Err(er) => Err(er),
            },
            Ev::StartElement { .. } => Err(
                ErrModel::UnexpectedEvent {
                    expected: EventKind::Text,
                    found: EventKind::StartElement,
                },
            ),
            Ev::EndDocument => Err(ErrModel::UnexpectedEndOfDocument),
            _ => chars_result(evs, pos + 1),
        }
    }
}

/// A successful text extraction stops at the end event of the current
/// scope.
pub proof fn lemma_chars_result_at_end(evs: Seq<Ev>, pos: int)
    requires
        0 <= pos <= evs.len(),
        chars_result(evs, pos) is Ok,
    ensures
        ({
            let e = chars_result(evs, pos)->Ok_0.1;
            pos <= e < evs.len() && evs[e] is EndElement && e == close_pos(evs, pos, 0)
        }),
    decreases evs.len() - pos,
{
    if pos < evs.len() {
        match evs[pos] {
            Ev::EndElement { .. } => {},
            Ev::Text { content } => {
                lemma_chars_result_at_end(evs, pos + 1);
            },
            Ev::StartElement { .. } => {},
            Ev::EndDocument => {},
            _ => {
                lemma_chars_result_at_end(evs, pos + 1);
            },
        }
    }
}

/// Where the first real element start of a document stands: leading
/// document-start markers, non-content markup and whitespace-only text are
/// passed over; anything else is an unexpected event.
pub open spec fn doc_start(evs: Seq<Ev>, pos: int) -> Result<int, ErrModel>
    decreases evs.len() - pos,
{
    if pos < 0 || pos >= evs.len() {
        Err(
            ErrModel::UnexpectedEvent {
                expected: EventKind::StartElement,
                found: EventKind::EndDocument,
            },
        )
    } else {
        match evs[pos] {
            Ev::StartElement { .. } => Ok(pos),
            Ev::StartDocument => doc_start(evs, pos + 1),
            Ev::Markup => doc_start(evs, pos + 1),
            Ev::Text { content } => if ws_only(content) {
                doc_start(evs, pos + 1)
            } else {
                Err(
                    ErrModel::UnexpectedEvent {
                        expected: EventKind::StartElement,
                        found: EventKind::Text,
                    },
                )
            },
            Ev::EndElement { .. } => Err(
                ErrModel::UnexpectedEvent {
                    expected: EventKind::StartElement,
                    found: EventKind::EndElement,
                },
            ),
            Ev::EndDocument => Err(
                ErrModel::UnexpectedEvent {
                    expected: EventKind::StartElement,
                    found: EventKind::EndDocument,
                },
            ),
        }
    }
}

/// The view of a list of accepted element names.
pub open spec fn names_view(names: Seq<&str>) -> Seq<Seq<char>> {
    names.map_values(|n: &str| n@)
}

/// What opening the next element yields: the position of its start event,
/// whose local name must match one of the accepted alternatives exactly
/// and case-sensitively.  A non-matching start tag reports the accepted
/// alternatives and the name found; a closing tag is an unexpected event;
/// an exhausted stream is an end-of-document error.
pub open spec fn open_result(evs: Seq<Ev>, pos: int, names: Seq<Seq<char>>) -> Result<
    int,
    ErrModel,
> {
    let p = next_node(evs, pos);
    if p >= evs.len() {
        Err(ErrModel::UnexpectedEndOfDocument)
    } else {
        match evs[p] {
            Ev::StartElement { name, .. } => if names.contains(name) {
                Ok(p)
            } else {
                Err(ErrModel::UnexpectedElement { expected: names, found: name })
            },
            Ev::EndElement { .. } => Err(
                ErrModel::UnexpectedEvent {
                    expected: EventKind::StartElement,
                    found: EventKind::EndElement,
                },
            ),
            _ => Err(ErrModel::UnexpectedEndOfDocument),
        }
    }
}

/// Consume leading non-content events and position the cursor at the
/// first real element start.
pub fn start_document(s: &mut Stream) -> (r: Result<(), DecodeError>)
    requires
        old(s).wf(),
    ensures
        final(s).wf(),
        final(s).evs() == old(s).evs(),
        old(s).at() <= final(s).at() <= old(s).evs().len(),
        match r {
            Ok(()) => doc_start(old(s).evs(), old(s).at()) == Ok::<int, ErrModel>(final(s).at())
                && final(s).at() < final(s).evs().len() && final(s).evs()[final(s).at()]
                is StartElement,
            Err(e) => doc_start(old(s).evs(), old(s).at()) == Err::<int, ErrModel>(e@),
        },
{
    let ghost evs = s.evs();
    let ghost p0 = s.at();
    loop
        invariant
            s.wf(),
            s.evs() == evs,
            p0 <= s.at() <= evs.len(),
            doc_start(evs, p0) == doc_start(evs, s.at()),
        decreases evs.len() - s.at(),
    {
        if s.pos >= s.events.len() {
            return Err(
                DecodeError::UnexpectedEvent {
                    expected: EventKind::StartElement,
                    found: EventKind::EndDocument,
                },
            );
        }
        proof {
            assert(evs[s.at()] == s.events@[s.at()]@);
        }
        match &s.events[s.pos] {
            Event::StartElement { .. } => {
                return Ok(());
            },
            Event::StartDocument => {
                s.pos += 1;
            },
            Event::Markup => {
                s.pos += 1;
            },
            Event::Text { content } => {
                if is_ws_str(content.as_str()) {
                    s.pos += 1;
                } else {
                    return Err(
                        DecodeError::UnexpectedEvent {
                            expected: EventKind::StartElement,
                            found: EventKind::Text,
                        },
                    );
                }
            },
            Event::EndElement { .. } => {
                return Err(
                    DecodeError::UnexpectedEvent {
                        expected: EventKind::StartElement,
                        found: EventKind::EndElement,
                    },
                );
            },
            Event::EndDocument => {
                return Err(
                    DecodeError::UnexpectedEvent {
                        expected: EventKind::StartElement,
                        found: EventKind::EndDocument,
                    },
                );
            },
        }
    }
}

/// Consume the next element start, whose local name must match one of the
/// accepted alternatives; leading non-content events are passed over.  On
/// success the cursor stands just inside the element.
pub fn open_element(s: &mut Stream, names: &Vec<&str>) -> (r: Result<(), DecodeError>)
    requires
        old(s).wf(),
    ensures
        final(s).wf(),
        final(s).evs() == old(s).evs(),
        old(s).at() <= final(s).at() <= old(s).evs().len(),
        match r {
            Ok(()) => open_result(old(s).evs(), old(s).at(), names_view(names@)) == Ok::<
                int,
                ErrModel,
            >(final(s).at() - 1) && final(s).at() >= 1 && final(s).evs()[final(s).at() - 1]
                is StartElement,
            Err(e) => open_result(old(s).evs(), old(s).at(), names_view(names@)) == Err::<
                int,
                ErrModel,
            >(e@),
        },
{
    let ghost evs = s.evs();
    let ghost p0 = s.at();
    loop
        invariant
            s.wf(),
            s.evs() == evs,
            p0 <= s.at() <= evs.len(),
            next_node(evs, p0) == next_node(evs, s.at()),
        decreases evs.len() - s.at(),
    {
        if s.pos >= s.events.len() {
            return Err(DecodeError::UnexpectedEndOfDocument);
        }
        proof {
            assert(evs[s.at()] == s.events@[s.at()]@);
        }
        match &s.events[s.pos] {
            Event::StartElement { name, .. } => {
                let ghost p = s.at();
                let nm = name.clone();
                let mut matched = false;
                let mut i: usize = 0;
                let n = names.len();
                while i < n
                    invariant
                        i <= n,
                        n == names@.len(),
                        matched ==> names_view(names@).contains(nm@),
                        !matched ==> forall|j: int| 0 <= j < i ==> names_view(names@)[j] != nm@,
                    decreases n - i,
                {
                    proof {
                        assert(names_view(names@)[i as int] == names@[i as int]@);
                    }
                    if str_eq(names[i], nm.as_str()) {
                        matched = true;
                    }
                    i += 1;
                }
                if matched {
                    s.pos += 1;
                    return Ok(());
                }
                proof {
                    assert(forall|j: int|
                        0 <= j < names_view(names@).len() ==> names_view(names@)[j] != nm@);
                    assert(!names_view(names@).contains(nm@));
                }
                let mut expected: Vec<String> = Vec::new();
                let mut k: usize = 0;
                while k < n
                    invariant
                        k <= n,
                        n == names@.len(),
                        expected@.len() == k,
                        forall|j: int|
                            0 <= j < k ==> #[trigger] expected@[j]@ == names_view(names@)[j],
                    decreases n - k,
                {
                    expected.push(String::from_str(names[k]));
                    proof {
                        assert(names_view(names@)[k as int] == names@[k as int]@);
                    }
                    k += 1;
                }
                proof {
                    assert(expected@.map_values(|s2: String| s2@) =~= names_view(names@));
                }
                return Err(DecodeError::UnexpectedElement { expected, found: nm });
            },
            Event::EndElement { .. } => {
                return Err(
                    DecodeError::UnexpectedEvent {
                        expected: EventKind::StartElement,
                        found: EventKind::EndElement,
                    },
                );
            },
            Event::EndDocument => {
                return Err(DecodeError::UnexpectedEndOfDocument);
            },
            _ => {
                s.pos += 1;
            },
        }
    }
}

/// Consume whatever remains of the current element, up to and including
/// its end event: callers that read only part of an element's children
/// still leave the cursor exactly past the element.
pub fn close_element(s: &mut Stream) -> (r: Result<(), DecodeError>)
    requires
        old(s).wf(),
    ensures
        final(s).wf(),
        final(s).evs() == old(s).evs(),
        old(s).at() <= final(s).at() <= old(s).evs().len(),
        match r {
            Ok(()) => close_pos(old(s).evs(), old(s).at(), 0) < old(s).evs().len() && final(s).at() == close_pos(old(s).evs(), old(s).at(), 0) + 1,
            Err(e) => close_pos(old(s).evs(), old(s).at(), 0) == old(s).evs().len() && e@
                == ErrModel::UnexpectedEndOfDocument,
        },
{
    s.close_scope()
}

/// Extract the textual content of the current element: the concatenation
/// of all text events up to the element's end event, which is left
/// unconsumed.  An empty element yields an empty string, not an error.
pub fn characters(s: &mut Stream) -> (r: Result<String, DecodeError>)
    requires
        old(s).wf(),
    ensures
        final(s).wf(),
        final(s).evs() == old(s).evs(),
        old(s).at() <= final(s).at() <= old(s).evs().len(),
        match r {
            Ok(text) => chars_result(old(s).evs(), old(s).at()) == Ok::<_, ErrModel>(
                (text@, final(s).at()),
            ) && close_pos(old(s).evs(), old(s).at(), 0) == final(s).at() && close_pos(
                old(s).evs(),
                final(s).at(),
                0,
            ) == final(s).at(),
            Err(e) => chars_result(old(s).evs(), old(s).at()) == Err::<(Seq<char>, int), _>(e@),
        },
{
    let ghost evs = s.evs();
    let ghost p0 = s.at();
    let mut out = String::new();
    loop
        invariant
            s.wf(),
            s.evs() == evs,
            p0 <= s.at() <= evs.len(),
            chars_result(evs, p0) == (match chars_result(evs, s.at()) {
                Ok((t, e)) => Ok::<(Seq<char>, int), ErrModel>((out@ + t, e)),
                Err(x) => Err::<(Seq<char>, int), ErrModel>(x),
            }),
        decreases evs.len() - s.at(),
    {
        if s.pos >= s.events.len() {
            return Err(DecodeError::UnexpectedEndOfDocument);
        }
        proof {
            assert(evs[s.at()] == s.events@[s.at()]@);
        }
        match &s.events[s.pos] {
            Event::Text { content } => {
                let piece = content.clone();
                proof {
                    if chars_result(evs, s.at() + 1) is Ok {
                        let t = chars_result(evs, s.at() + 1)->Ok_0.0;
                        assert(out@ + (piece@ + t) =~= (out@ + piece@) + t);
                    }
                }
                out.append(piece.as_str());
                s.pos += 1;
            },
            Event::EndElement { .. } => {
                proof {
                    assert(out@ + Seq::<char>::empty() =~= out@);
                    lemma_chars_result_at_end(evs, p0);
                }
                return Ok(out);
            },
            Event::StartElement { .. } => {
                return Err(
                    DecodeError::UnexpectedEvent {
                        expected: EventKind::Text,
                        found: EventKind::StartElement,
                    },
                );
            },
            Event::EndDocument => {
                return Err(DecodeError::UnexpectedEndOfDocument);
            },
            _ => {
                s.pos += 1;
            },
        }
    }
}

/// Passing over non-content events does not move the close of the
/// current scope.
pub proof fn lemma_close_pos_to_node(evs: Seq<Ev>, pos: int, depth: nat)
    requires
        0 <= pos <= evs.len(),
    ensures
        close_pos(evs, pos, depth) == close_pos(evs, next_node(evs, pos), depth),
    decreases evs.len() - pos,
{
    if pos < evs.len() {
        match evs[pos] {
            Ev::StartElement { .. } => {},
            Ev::EndElement { .. } => {},
            Ev::EndDocument => {},
            _ => {
                lemma_close_pos_to_node(evs, pos + 1, depth);
            },
        }
    }
}

/// What opening a named element and taking its text yields: the element's
/// whole subtree is consumed, its text extracted.
pub open spec fn element_chars(evs: Seq<Ev>, pos: int, names: Seq<Seq<char>>) -> Result<
    Seq<char>,
    ErrModel,
> {
    match open_result(evs, pos, names) {
        Err(e) => Err(e),
        Ok(q) => match chars_result(evs, q + 1) {
            Err(e) => Err(e),
            Ok((t, _)) => Ok(t),
        },
    }
}

/// Open the next element, which must match one of the accepted names,
/// extract its text, and consume it whole, end event included.
pub fn element_text(s: &mut Stream, names: &Vec<&str>) -> (r: Result<String, DecodeError>)
    requires
        old(s).wf(),
    ensures
        final(s).wf(),
        final(s).evs() == old(s).evs(),
        old(s).at() <= final(s).at() <= old(s).evs().len(),
        match r {
            Ok(t) => element_chars(old(s).evs(), old(s).at(), names_view(names@)) == Ok::<
                Seq<char>,
                ErrModel,
            >(t@) && close_pos(old(s).evs(), final(s).at(), 0) == close_pos(
                old(s).evs(),
                old(s).at(),
                0,
            ),
            Err(e) => element_chars(old(s).evs(), old(s).at(), names_view(names@)) == Err::<
                Seq<char>,
                ErrModel,
            >(e@),
        },
{
    let ghost evs = s.evs();
    let ghost p0 = s.at();
    match open_element(s, names) {
        Err(e) => {
            return Err(e);
        },
        Ok(()) => {},
    }
    let ghost q = s.at() - 1;
    let t = match characters(s) {
        Err(e) => {
            return Err(e);
        },
        Ok(t) => t,
    };
    let ghost e_pos = s.at();
    match close_element(s) {
        Err(er) => {
            proof {
                lemma_chars_result_at_end(evs, q + 1);
                assert(false);
            }
            return Err(er);
        },
        Ok(()) => {},
    }
    proof {
        lemma_next_node_bounds(evs, p0);
        lemma_close_pos_to_node(evs, p0, 0);
        lemma_close_pos_skip(evs, q + 1, 0);
    }
    Ok(t)
}

/// What reading the current element's text as a decimal integer yields.
pub open spec fn chars_i32_result(evs: Seq<Ev>, pos: int, field: Seq<char>) -> Result<
    (i32, int),
    ErrModel,
> {
    match chars_result(evs, pos) {
        Err(e) => Err(e),
        Ok((t, end)) => match crate::strutil::parse_i32_spec(t) {
            Some(n) => Ok((n, end)),
            None => Err(ErrModel::ParseValue { field, raw: t, target: "i32"@ }),
        },
    }
}

/// Extract the current element's text and convert it to a decimal
/// integer; `field` names the element for the error report.
pub fn characters_i32(s: &mut Stream, field: &String) -> (r: Result<i32, DecodeError>)
    requires
        old(s).wf(),
    ensures
        final(s).wf(),
        final(s).evs() == old(s).evs(),
        old(s).at() <= final(s).at() <= old(s).evs().len(),
        match r {
            Ok(n) => chars_i32_result(old(s).evs(), old(s).at(), field@) == Ok::<_, ErrModel>(
                (n, final(s).at()),
            ) && close_pos(old(s).evs(), old(s).at(), 0) == final(s).at() && close_pos(
                old(s).evs(),
                final(s).at(),
                0,
            ) == final(s).at(),
            Err(e) => chars_i32_result(old(s).evs(), old(s).at(), field@) == Err::<
                (i32, int),
                _,
            >(e@),
        },
{
    match characters(s) {
        Err(e) => Err(e),
        Ok(t) => match crate::strutil::parse_i32(t.as_str()) {
            Some(n) => Ok(n),
            None => Err(
                DecodeError::ParseValue {
                    field: field.clone(),
                    raw: t,
                    target: String::from_str("i32"),
                },
            ),
        },
    }
}

/// What reading the current element's text as a canonical boolean
/// literal yields.
pub open spec fn chars_bool_result(evs: Seq<Ev>, pos: int, field: Seq<char>) -> Result<
    (bool, int),
    ErrModel,
> {
    match chars_result(evs, pos) {
        Err(e) => Err(e),
        Ok((t, end)) => match crate::strutil::parse_bool_spec(t) {
            Some(b) => Ok((b, end)),
            None => Err(ErrModel::ParseValue { field, raw: t, target: "bool"@ }),
        },
    }
}

/// Extract the current element's text and convert it to a boolean: only
/// the canonical literals `true` and `false` are accepted.
pub fn characters_bool(s: &mut Stream, field: &String) -> (r: Result<bool, DecodeError>)
    requires
        old(s).wf(),
    ensures
        final(s).wf(),
        final(s).evs() == old(s).evs(),
        old(s).at() <= final(s).at() <= old(s).evs().len(),
        match r {
            Ok(b) => chars_bool_result(old(s).evs(), old(s).at(), field@) == Ok::<_, ErrModel>(
                (b, final(s).at()),
            ) && close_pos(old(s).evs(), old(s).at(), 0) == final(s).at() && close_pos(
                old(s).evs(),
                final(s).at(),
                0,
            ) == final(s).at(),
            Err(e) => chars_bool_result(old(s).evs(), old(s).at(), field@) == Err::<
                (bool, int),
                _,
            >(e@),
        },
{
    match characters(s) {
        Err(e) => Err(e),
        Ok(t) => match crate::strutil::parse_bool(t.as_str()) {
            Some(b) => Ok(b),
            None => Err(
                DecodeError::ParseValue {
                    field: field.clone(),
                    raw: t,
                    target: String::from_str("bool"),
                },
            ),
        },
    }
}

/// What reading the current element's text as a timestamp yields,
/// through chrono's parse of the fixed date-time format.
pub open spec fn chars_timestamp_result(evs: Seq<Ev>, pos: int, field: Seq<char>) -> Result<
    (crate::timestamp::Timestamp, int),
    ErrModel,
> {
    match chars_result(evs, pos) {
        Err(e) => Err(e),
        Ok((t, end)) => match crate::timestamp::chrono_datetime_of(t) {
            Some(ts) => Ok((ts, end)),
            None => Err(ErrModel::ParseValue { field, raw: t, target: "timestamp"@ }),
        },
    }
}

/// Extract the current element's text and convert it to a timestamp.
pub fn characters_timestamp(s: &mut Stream, field: &String) -> (r: Result<
    crate::timestamp::Timestamp,
    DecodeError,
>)
    requires
        old(s).wf(),
    ensures
        final(s).wf(),
        final(s).evs() == old(s).evs(),
        old(s).at() <= final(s).at() <= old(s).evs().len(),
        match r {
            Ok(ts) => chars_timestamp_result(old(s).evs(), old(s).at(), field@) == Ok::<
                _,
                ErrModel,
            >((ts, final(s).at())) && close_pos(old(s).evs(), old(s).at(), 0) == final(s).at() && close_pos(
                old(s).evs(),
                final(s).at(),
                0,
            ) == final(s).at(),
            Err(e) => chars_timestamp_result(old(s).evs(), old(s).at(), field@) == Err::<
                (crate::timestamp::Timestamp, int),
                _,
            >(e@),
        },
{
    match characters(s) {
        Err(e) => Err(e),
        Ok(t) => match crate::timestamp::parse_timestamp(t.as_str()) {
            Some(ts) => Ok(ts),
            None => Err(
                DecodeError::ParseValue {
                    field: field.clone(),
                    raw: t,
                    target: String::from_str("timestamp"),
                },
            ),
        },
    }
}

/// What xml-rs's pull parser yields for a given text: the event
/// sequence is a function of the characters alone, or nothing when the
/// text is not well-formed XML.
pub uninterp spec fn xml_events_of(text: Seq<char>) -> Option<Seq<Ev>>;

/// Relies on xml-rs's `EventReader` to turn a text into parse events,
/// one library event per parser event: starts with their local names,
/// ends, text (character data, CDATA and whitespace alike), the document
/// markers, and a non-content marker for anything else.  Attribute and
/// namespace lists are left empty: the decode side never reads them.
#[verifier::external_body]
fn parse_events(text: &str) -> (r: Result<Vec<Event>, DecodeError>)
    ensures
        match r {
            Ok(v) => xml_events_of(text@) == Some(evs_view(v@)),
            Err(e) => xml_events_of(text@) is None && e@ is Io,
        },
{
    let mut out = Vec::new();
    for ev in EventReader::new(text.as_bytes()) {
        out.push(match ev {
            Ok(RdEvent::StartDocument { .. }) => Event::StartDocument,
            Ok(RdEvent::StartElement { name, .. }) => Event::StartElement { name: name.local_name, attrs: Vec::new(), ns: Vec::new() },
            Ok(RdEvent::EndElement { name }) => Event::EndElement { name: name.local_name },
            Ok(RdEvent::Characters(c) | RdEvent::CData(c) | RdEvent::Whitespace(c)) => Event::Text { content: c },
            Ok(RdEvent::EndDocument) => Event::EndDocument,
            Ok(_) => Event::Markup,
            Err(e) => return Err(DecodeError::Io { message: e.to_string() }),
        });
    }
    Ok(out)
}

impl Stream {
    /// A cursor over the parse events of an XML text.
    pub fn from_xml_text(text: &str) -> (r: Result<Stream, DecodeError>)
        ensures
            match r {
                Ok(s) => s.wf() && s.at() == 0 && xml_events_of(text@) == Some(s.evs()),
                Err(e) => xml_events_of(text@) is None && e@ is Io,
            },
    {
        match parse_events(text) {
            Ok(v) => Ok(Stream::new(v)),
            Err(e) => Err(e),
        }
    }
}

/// Two positions with the same remaining events stay aligned after any
/// common forward step.
pub proof fn lemma_suffix_eq_at(evs1: Seq<Ev>, pos1: int, evs2: Seq<Ev>, pos2: int, k: int)
    requires
        0 <= pos1 <= evs1.len(),
        0 <= pos2 <= evs2.len(),
        evs1.len() - pos1 == evs2.len() - pos2,
        evs1.subrange(pos1, evs1.len() as int) == evs2.subrange(pos2, evs2.len() as int),
        0 <= k <= evs1.len() - pos1,
    ensures
        evs1.subrange(pos1 + k, evs1.len() as int) == evs2.subrange(pos2 + k, evs2.len() as int),
        k < evs1.len() - pos1 ==> evs1[pos1 + k] == evs2[pos2 + k],
{
    assert(evs1.subrange(pos1 + k, evs1.len() as int) =~= evs2.subrange(
        pos2 + k,
        evs2.len() as int,
    )) by {
        assert(forall|j: int|
            0 <= j < evs1.len() - pos1 - k ==> #[trigger] evs1.subrange(
                pos1 + k,
                evs1.len() as int,
            )[j] == evs1.subrange(pos1, evs1.len() as int)[j + k]);
        assert(forall|j: int|
            0 <= j < evs2.len() - pos2 - k ==> #[trigger] evs2.subrange(
                pos2 + k,
                evs2.len() as int,
            )[j] == evs2.subrange(pos2, evs2.len() as int)[j + k]);
    }
    if k < evs1.len() - pos1 {
        assert(evs1[pos1 + k] == evs1.subrange(pos1, evs1.len() as int)[k]);
        assert(evs2[pos2 + k] == evs2.subrange(pos2, evs2.len() as int)[k]);
    }
}

/// The close of the current scope depends only on the remaining events:
/// two positions with the same remaining events close at the same
/// distance.
pub proof fn lemma_close_pos_frame(
    evs1: Seq<Ev>,
    pos1: int,
    evs2: Seq<Ev>,
    pos2: int,
    depth: nat,
)
    requires
        0 <= pos1 <= evs1.len(),
        0 <= pos2 <= evs2.len(),
        evs1.len() - pos1 == evs2.len() - pos2,
        evs1.subrange(pos1, evs1.len() as int) == evs2.subrange(pos2, evs2.len() as int),
    ensures
        close_pos(evs1, pos1, depth) - pos1 == close_pos(evs2, pos2, depth) - pos2,
    decreases evs1.len() - pos1,
{
    if pos1 < evs1.len() {
        lemma_suffix_eq_at(evs1, pos1, evs2, pos2, 0);
        lemma_suffix_eq_at(evs1, pos1, evs2, pos2, 1);
        match evs1[pos1] {
            Ev::EndElement { .. } => {
                if depth > 0 {
                    lemma_close_pos_frame(evs1, pos1 + 1, evs2, pos2 + 1, (depth - 1) as nat);
                }
            },
            Ev::StartElement { .. } => {
                lemma_close_pos_frame(evs1, pos1 + 1, evs2, pos2 + 1, depth + 1);
            },
            Ev::EndDocument => {},
            _ => {
                lemma_close_pos_frame(evs1, pos1 + 1, evs2, pos2 + 1, depth);
            },
        }
    }
}

/// Text extraction depends only on the remaining events: two positions
/// with the same remaining events read the same text and stop at the
/// same distance.
pub proof fn lemma_chars_result_frame(evs1: Seq<Ev>, pos1: int, evs2: Seq<Ev>, pos2: int)
    requires
        0 <= pos1 <= evs1.len(),
        0 <= pos2 <= evs2.len(),
        evs1.len() - pos1 == evs2.len() - pos2,
        evs1.subrange(pos1, evs1.len() as int) == evs2.subrange(pos2, evs2.len() as int),
    ensures
        match (chars_result(evs1, pos1), chars_result(evs2, pos2)) {
            (Ok(p1), Ok(p2)) => p1.0 == p2.0 && p1.1 - pos1 == p2.1 - pos2,
            (Err(e1), Err(e2)) => e1 == e2,
            _ => false,
        },
    decreases evs1.len() - pos1,
{
    if pos1 < evs1.len() {
        lemma_suffix_eq_at(evs1, pos1, evs2, pos2, 0);
        lemma_suffix_eq_at(evs1, pos1, evs2, pos2, 1);
        match evs1[pos1] {
            Ev::EndElement { .. } => {},
            Ev::EndDocument => {},
            Ev::StartElement { .. } => {},
            _ => {
                lemma_chars_result_frame(evs1, pos1 + 1, evs2, pos2 + 1);
            },
        }
    }
}

/// An accumulator for [`fold_elements`]: a record in progress, or a
/// growable sequence, mutated once per recognized child element.
///
/// An implementation is the dispatch table of one record type: its
/// [`FoldAccumulator::step_spec`] says, child-element name by name, what
/// one child does to the accumulator, and its [`FoldAccumulator::step`] is
/// the verified dispatch that performs it.
pub trait FoldAccumulator: View + Sized {
    /// What the child element starting at `pos` does to the accumulator:
    /// the updated value, or the first error.  A child whose name is not
    /// recognized leaves the accumulator unchanged.
    spec fn step_spec(evs: Seq<Ev>, pos: int, acc: Self::V) -> Result<Self::V, ErrModel>;

    /// Process the interior of the current child element, whose start
    /// event (local name `name`) was just consumed.  The step may consume
    /// any balanced part of the child's interior; the fold discipline
    /// consumes whatever it leaves behind.
    fn step(&mut self, s: &mut Stream, name: &String) -> (r: Result<(), DecodeError>)
        requires
            old(s).wf(),
            1 <= old(s).at() <= old(s).evs().len(),
            old(s).evs()[old(s).at() - 1] matches Ev::StartElement { name: n, .. } && n == name@,
        ensures
            final(s).wf(),
            final(s).evs() == old(s).evs(),
            old(s).at() <= final(s).at() <= old(s).evs().len(),
            match r {
                Ok(()) => Self::step_spec(old(s).evs(), old(s).at() - 1, old(self)@) == Ok::<
                    Self::V,
                    ErrModel,
                >(final(self)@) && close_pos(old(s).evs(), final(s).at(), 0) == close_pos(
                    old(s).evs(),
                    old(s).at(),
                    0,
                ),
                Err(e) => Self::step_spec(old(s).evs(), old(s).at() - 1, old(self)@) == Err::<
                    Self::V,
                    ErrModel,
                >(e@),
            },
    ;
}

/// What folding over the direct children of the current scope yields: the
/// final accumulator and the position of the scope's end event, which is
/// left unconsumed.  Children are visited in document order; after each
/// child's step its subtree is consumed whole; any error is propagated
/// immediately, discarding further siblings.
pub open spec fn fold_spec<A: FoldAccumulator>(evs: Seq<Ev>, pos: int, acc: A::V) -> Result<
    (A::V, int),
    ErrModel,
>
    decreases evs.len() - pos,
    via fold_spec_dec::<A>
{
    if pos < 0 || pos >= evs.len() {
        Err(ErrModel::UnexpectedEndOfDocument)
    } else {
        match evs[pos] {
            Ev::EndElement { .. } => Ok((acc, pos)),
            Ev::EndDocument => Err(ErrModel::UnexpectedEndOfDocument),
            Ev::StartElement { .. } => match A::step_spec(evs, pos, acc) {
                Err(e) => Err(e),
                Ok(a2) => {
                    let c = close_pos(evs, pos + 1, 0);
                    if c >= evs.len() {
                        Err(ErrModel::UnexpectedEndOfDocument)
                    } else {
                        fold_spec::<A>(evs, c + 1, a2)
                    }
                },
            },
            _ => fold_spec::<A>(evs, pos + 1, acc),
        }
    }
}

#[via_fn]
proof fn fold_spec_dec<A: FoldAccumulator>(evs: Seq<Ev>, pos: int, acc: A::V) {
    if 0 <= pos < evs.len() && evs[pos] is StartElement {
        lemma_close_pos_bounds(evs, pos + 1, 0);
    }
}

/// The fold passes over non-content events before each child.
pub proof fn lemma_fold_skip_to_node<A: FoldAccumulator>(evs: Seq<Ev>, pos: int, acc: A::V)
    requires
        0 <= pos <= evs.len(),
    ensures
        fold_spec::<A>(evs, pos, acc) == fold_spec::<A>(evs, next_node(evs, pos), acc),
    decreases evs.len() - pos,
{
    if pos < evs.len() {
        match evs[pos] {
            Ev::StartElement { .. } => {},
            Ev::EndElement { .. } => {},
            Ev::EndDocument => {},
            _ => {
                lemma_fold_skip_to_node::<A>(evs, pos + 1, acc);
            },
        }
    }
}

/// A successful fold stops exactly at the end event of the scope it
/// started in: no event of the scope is left unconsumed, and no event of
/// an enclosing scope is touched.
pub proof fn lemma_fold_ends_at_close<A: FoldAccumulator>(evs: Seq<Ev>, pos: int, acc: A::V)
    requires
        0 <= pos <= evs.len(),
        fold_spec::<A>(evs, pos, acc) is Ok,
    ensures
        ({
            let e = fold_spec::<A>(evs, pos, acc)->Ok_0.1;
            e == close_pos(evs, pos, 0) && pos <= e < evs.len() && evs[e] is EndElement
        }),
    decreases evs.len() - pos,
{
    if pos < evs.len() {
        match evs[pos] {
            Ev::EndElement { .. } => {},
            Ev::EndDocument => {},
            Ev::StartElement { .. } => {
                let st = A::step_spec(evs, pos, acc);
                if st is Ok {
                    let c = close_pos(evs, pos + 1, 0);
                    lemma_close_pos_bounds(evs, pos + 1, 0);
                    if c < evs.len() {
                        lemma_fold_ends_at_close::<A>(evs, c + 1, st->Ok_0);
                        lemma_close_pos_skip(evs, pos + 1, 0);
                    }
                }
            },
            _ => {
                lemma_fold_ends_at_close::<A>(evs, pos + 1, acc);
            },
        }
    }
}

/// Unknown-element tolerance: a child element whose step leaves the
/// accumulator unchanged contributes nothing to the fold.  Decoding from
/// such an extra element gives exactly what decoding from just past it
/// gives, so unrecognized children never change the result and never
/// abort decoding.
pub proof fn lemma_unknown_child_skipped<A: FoldAccumulator>(evs: Seq<Ev>, pos: int, acc: A::V)
    requires
        0 <= pos < evs.len(),
        evs[pos] is StartElement,
        A::step_spec(evs, pos, acc) == Ok::<A::V, ErrModel>(acc),
        close_pos(evs, pos + 1, 0) < evs.len(),
    ensures
        fold_spec::<A>(evs, pos, acc) == fold_spec::<A>(
            evs,
            close_pos(evs, pos + 1, 0) + 1,
            acc,
        ),
{
}

/// Position the cursor at the next direct child of the current scope.
/// Returns the child's local name with its start event consumed; `None`
/// leaves the cursor at the end event that closes the scope.
pub fn next_child(s: &mut Stream) -> (r: Result<Option<String>, DecodeError>)
    requires
        old(s).wf(),
    ensures
        final(s).wf(),
        final(s).evs() == old(s).evs(),
        old(s).at() <= final(s).at() <= old(s).evs().len(),
        ({
            let p = next_node(old(s).evs(), old(s).at());
            match r {
                Ok(Some(name)) => p < old(s).evs().len() && (old(s).evs()[p] matches
                    Ev::StartElement { name: n, .. } && n == name@) && final(s).at() == p + 1,
                Ok(None) => p < old(s).evs().len() && old(s).evs()[p] is EndElement && final(s).at() == p,
                Err(e) => (p >= old(s).evs().len() || old(s).evs()[p] is EndDocument) && e@
                    == ErrModel::UnexpectedEndOfDocument,
            }
        }),
{
    let ghost evs = s.evs();
    let ghost p0 = s.at();
    loop
        invariant
            s.wf(),
            s.evs() == evs,
            p0 <= s.at() <= evs.len(),
            next_node(evs, p0) == next_node(evs, s.at()),
        decreases evs.len() - s.at(),
    {
        if s.pos >= s.events.len() {
            return Err(DecodeError::UnexpectedEndOfDocument);
        }
        proof {
            assert(evs[s.at()] == s.events@[s.at()]@);
        }
        match &s.events[s.pos] {
            Event::StartElement { name, .. } => {
                let nm = name.clone();
                s.pos += 1;
                return Ok(Some(nm));
            },
            Event::EndElement { .. } => {
                return Ok(None);
            },
            Event::EndDocument => {
                return Err(DecodeError::UnexpectedEndOfDocument);
            },
            _ => {
                s.pos += 1;
            },
        }
    }
}

/// Fold over the direct children of the current scope: one step per child
/// element, in document order; whatever part of a child the step does not
/// consume is skipped whole, so unrecognized children are tolerated.  The
/// scope's end event is left unconsumed.
pub fn fold_elements<A: FoldAccumulator>(s: &mut Stream, init: A) -> (r: Result<A, DecodeError>)
    requires
        old(s).wf(),
    ensures
        final(s).wf(),
        final(s).evs() == old(s).evs(),
        old(s).at() <= final(s).at() <= old(s).evs().len(),
        match r {
            Ok(acc) => fold_spec::<A>(old(s).evs(), old(s).at(), init@) == Ok::<
                (A::V, int),
                ErrModel,
            >((acc@, final(s).at())) && final(s).at() < old(s).evs().len() && final(s).evs()[final(s).at()] is EndElement && close_pos(old(s).evs(), old(s).at(), 0) == final(s).at() && close_pos(
                old(s).evs(),
                final(s).at(),
                0,
            ) == final(s).at(),
            Err(e) => fold_spec::<A>(old(s).evs(), old(s).at(), init@) == Err::<
                (A::V, int),
                ErrModel,
            >(e@),
        },
{
    let ghost evs = s.evs();
    let ghost p0 = s.at();
    let mut acc = init;
    loop
        invariant
            s.wf(),
            s.evs() == evs,
            p0 <= s.at() <= evs.len(),
            fold_spec::<A>(evs, p0, init@) == fold_spec::<A>(evs, s.at(), acc@),
        decreases evs.len() - s.at(),
    {
        let ghost at0 = s.at();
        proof {
            lemma_fold_skip_to_node::<A>(evs, at0, acc@);
            lemma_next_node_bounds(evs, at0);
        }
        match next_child(s) {
            Err(e) => {
                return Err(e);
            },
            Ok(None) => {
                proof {
                    lemma_fold_ends_at_close::<A>(evs, p0, init@);
                }
                return Ok(acc);
            },
            Ok(Some(name)) => {
                let ghost p = s.at() - 1;
                let ghost acc_before = acc@;
                match acc.step(s, &name) {
                    Err(e) => {
                        return Err(e);
                    },
                    Ok(()) => {
                        let ghost cur = s.at();
                        match close_element(s) {
                            Err(e) => {
                                proof {
                                    assert(close_pos(evs, p + 1, 0) == evs.len());
                                }
                                return Err(e);
                            },
                            Ok(()) => {
                                proof {
                                    let c = close_pos(evs, p + 1, 0);
                                    assert(close_pos(evs, cur, 0) == c);
                                    assert(s.at() == c + 1);
                                    assert(fold_spec::<A>(evs, p, acc_before) == fold_spec::<A>(
                                        evs,
                                        c + 1,
                                        acc@,
                                    ));
                                }
                            },
                        }
                    },
                }
            },
        }
    }
}

impl FoldAccumulator for Vec<i32> {
    /// Every child element of the wrapper contributes one integer, read
    /// from its text, in document order.
    open spec fn step_spec(evs: Seq<Ev>, pos: int, acc: Seq<i32>) -> Result<Seq<i32>, ErrModel> {
        match evs[pos] {
            Ev::StartElement { name, .. } => match chars_i32_result(evs, pos + 1, name) {
                Ok(p) => Ok(acc.push(p.0)),
                Err(e) => Err(e),
            },
            _ => Ok(acc),
        }
    }

    fn step(&mut self, s: &mut Stream, name: &String) -> (r: Result<(), DecodeError>) {
        match characters_i32(s, name) {
            Ok(n) => {
                self.push(n);
                Ok(())
            },
            Err(e) => Err(e),
        }
    }
}

/// The views of a sequence of strings.
pub open spec fn strings_seq(v: Seq<String>) -> Seq<Seq<char>> {
    v.map_values(|s: String| s@)
}

/// A growable sequence of strings, filled one child element at a time.
#[derive(Debug, PartialEq)]
pub struct StringList(pub Vec<String>);

impl View for StringList {
    type V = Seq<Seq<char>>;

    open spec fn view(&self) -> Seq<Seq<char>> {
        strings_seq(self.0@)
    }
}

impl FoldAccumulator for StringList {
    /// Every child element of the wrapper contributes its text, in
    /// document order.
    open spec fn step_spec(evs: Seq<Ev>, pos: int, acc: Seq<Seq<char>>) -> Result<
        Seq<Seq<char>>,
        ErrModel,
    > {
        match evs[pos] {
            Ev::StartElement { .. } => match chars_result(evs, pos + 1) {
                Ok(p) => Ok(acc.push(p.0)),
                Err(e) => Err(e),
            },
            _ => Ok(acc),
        }
    }

    fn step(&mut self, s: &mut Stream, name: &String) -> (r: Result<(), DecodeError>) {
        match characters(s) {
            Ok(t) => {
                let ghost v0 = self@;
                self.0.push(t);
                proof {
                    assert(self@ =~= v0.push(t@));
                }
                Ok(())
            },
            Err(e) => Err(e),
        }
    }
}

} // verus!
