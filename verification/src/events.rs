//! The XML parse-event model.
//!
//! An [`Event`] is one item of a forward-only stream of XML parse events in
//! document order.  Its mathematical view is [`Ev`], over which every decode
//! and encode contract of this crate is stated.  The central position
//! function [`close_pos`] locates the end event that closes the current
//! scope, counting nested elements by depth.

use vstd::prelude::*;

verus! {

/// A single XML parse event, in document order.
#[derive(Debug, Clone, PartialEq)]
pub enum Event {
    /// The document-start marker emitted before the root element.
    StartDocument,
    /// An opening tag with its local name, attributes and namespace
    /// declarations, each in document order.
    StartElement { name: String, attrs: Vec<(String, String)>, ns: Vec<(String, String)> },
    /// The closing tag matching an earlier `StartElement`.
    EndElement { name: String },
    /// Textual content between tags.
    Text { content: String },
    /// The end of the event stream.
    EndDocument,
    /// Non-content markup (a comment, a processing instruction): always
    /// skippable.
    Markup,
}

/// The mathematical view of an [`Event`].
#[verifier::ext_equal]
pub enum Ev {
    StartDocument,
    StartElement { name: Seq<char>, attrs: Seq<(Seq<char>, Seq<char>)>, ns: Seq<(Seq<char>, Seq<char>)> },
    EndElement { name: Seq<char> },
    Text { content: Seq<char> },
    EndDocument,
    Markup,
}

/// The kind of an event, without its payload; used in error reports.
#[derive(Debug, Clone, Copy, PartialEq, Eq, Structural)]
pub enum EventKind {
    StartDocument,
    StartElement,
    EndElement,
    Text,
    EndDocument,
    Markup,
}

impl View for Event {
    type V = Ev;

    open spec fn view(&self) -> Ev {
        match self {
            Event::StartDocument => Ev::StartDocument,
            Event::StartElement { name, attrs, ns } => Ev::StartElement {
                name: name@,
                attrs: attrs@.map_values(|p: (String, String)| (p.0@, p.1@)),
                ns: ns@.map_values(|p: (String, String)| (p.0@, p.1@)),
            },
            Event::EndElement { name } => Ev::EndElement { name: name@ },
            Event::Text { content } => Ev::Text { content: content@ },
            Event::EndDocument => Ev::EndDocument,
            Event::Markup => Ev::Markup,
        }
    }
}

/// The view of a whole event sequence.
pub open spec fn evs_view(events: Seq<Event>) -> Seq<Ev> {
    events.map_values(|e: Event| e@)
}

/// The view of a sequence of string pairs (attributes, namespace
/// declarations, query parameters).
pub open spec fn pairs_view(v: Seq<(String, String)>) -> Seq<(Seq<char>, Seq<char>)> {
    v.map_values(|p: (String, String)| (p.0@, p.1@))
}

/// The kind of an event view.
pub open spec fn kind_of(e: Ev) -> EventKind {
    match e {
        Ev::StartDocument => EventKind::StartDocument,
        Ev::StartElement { .. } => EventKind::StartElement,
        Ev::EndElement { .. } => EventKind::EndElement,
        Ev::Text { .. } => EventKind::Text,
        Ev::EndDocument => EventKind::EndDocument,
        Ev::Markup => EventKind::Markup,
    }
}

/// The position of the end event that closes the current scope, scanning
/// from `pos` while `depth` elements opened since the scope began are still
/// unclosed.  Returns `evs.len()` when the scope never closes (the stream
/// ends, or an end-of-document marker appears first).
pub open spec fn close_pos(evs: Seq<Ev>, pos: int, depth: nat) -> int
    decreases evs.len() - pos,
{
    if pos < 0 || pos >= evs.len() {
        evs.len() as int
    } else {
        match evs[pos] {
            Ev::EndElement { .. } => {
                if depth == 0 {
                    pos
                } else {
                    close_pos(evs, pos + 1, (depth - 1) as nat)
                }
            },
            Ev::StartElement { .. } => close_pos(evs, pos + 1, depth + 1),
            Ev::EndDocument => evs.len() as int,
            _ => close_pos(evs, pos + 1, depth),
        }
    }
}

/// `close_pos` never moves backwards and never leaves the sequence.
pub proof fn lemma_close_pos_bounds(evs: Seq<Ev>, pos: int, depth: nat)
    requires
        0 <= pos <= evs.len(),
    ensures
        pos <= close_pos(evs, pos, depth) <= evs.len(),
    decreases evs.len() - pos,
{
    if pos < evs.len() {
        match evs[pos] {
            Ev::EndElement { .. } => {
                if depth > 0 {
                    lemma_close_pos_bounds(evs, pos + 1, (depth - 1) as nat);
                }
            },
            Ev::StartElement { .. } => {
                lemma_close_pos_bounds(evs, pos + 1, depth + 1);
            },
            Ev::EndDocument => {},
            _ => {
                lemma_close_pos_bounds(evs, pos + 1, depth);
            },
        }
    }
}

/// Entering a nested element and then closing it lands where the scan
/// with one more open element would: the close of a scope decomposes into
/// the close of its first child's scope followed by the rest.
pub proof fn lemma_close_pos_skip(evs: Seq<Ev>, pos: int, depth: nat)
    requires
        0 <= pos <= evs.len(),
    ensures
        close_pos(evs, pos, depth + 1) == ({
            let c = close_pos(evs, pos, 0);
            if c >= evs.len() {
                evs.len() as int
            } else {
                close_pos(evs, c + 1, depth)
            }
        }),
    decreases evs.len() - pos,
{
    if pos < evs.len() {
        match evs[pos] {
            Ev::EndElement { .. } => {},
            Ev::EndDocument => {},
            Ev::StartElement { .. } => {
                lemma_close_pos_skip(evs, pos + 1, depth + 1);
                lemma_close_pos_skip(evs, pos + 1, 0);
                let c1 = close_pos(evs, pos + 1, 0);
                lemma_close_pos_bounds(evs, pos + 1, 0);
                if c1 < evs.len() {
                    lemma_close_pos_skip(evs, c1 + 1, depth);
                }
            },
            _ => {
                lemma_close_pos_skip(evs, pos + 1, depth);
            },
        }
    }
}

} // verus!
