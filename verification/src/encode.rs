//! The event writer and the element-construction helpers of the encode
//! side.
//!
//! A [`Writer`] produces an XML document from parse events written in
//! document order: the declaration first, then element starts (attributes
//! and namespace declarations with the start, never amended later), text
//! and element ends.  Writing is single-pass with no backtracking.  The
//! serialization to pretty-printed UTF-8 text is done by the `xml` crate
//! behind trusted wrappers; the view of a writer is the sequence of events
//! written so far, and every encode contract is stated over it.

use vstd::prelude::*;
use vstd::string::*;

use xml::common::XmlVersion;
use xml::writer::EventWriter;
use xml::writer::XmlEvent as WrEvent;

use crate::events::Ev;
use crate::events::Event;

verus! {

/// A failure of the underlying byte sink or of the emitter.
#[derive(Debug, Clone, PartialEq)]
pub struct EncodeError {
    pub message: String,
}

impl View for EncodeError {
    type V = Seq<char>;

    open spec fn view(&self) -> Seq<char> {
        self.message@
    }
}

#[verifier::external_type_specification]
#[verifier::external_body]
#[verifier::reject_recursive_types(W)]
pub struct ExEventWriter<W>(xml::writer::EventWriter<W>);

/// An event writer over an in-memory UTF-8 sink, with a fixed
/// configuration: two-space indentation and a document declaration.
pub struct Writer {
    inner: xml::writer::EventWriter<Vec<u8>>,
    failed: bool,
    written: Ghost<Seq<Ev>>,
}

impl View for Writer {
    type V = Seq<Ev>;

    /// The events written so far, in order.
    closed spec fn view(&self) -> Seq<Ev> {
        self.written@
    }
}

/// The UTF-8 text that the emitter produces for a sequence of events
/// under this writer's fixed configuration: a function of the events
/// alone.
pub uninterp spec fn rendered(evs: Seq<Ev>) -> Seq<char>;

impl Writer {
    /// No write has failed so far.
    pub closed spec fn ok(&self) -> bool {
        !self.failed
    }

    /// Relies on xml-rs's `EventWriter::new_with_config` and its
    /// `write`: a fresh writer over an empty in-memory byte sink,
    /// configured to indent with two spaces, with the document
    /// declaration (version 1.0, encoding `utf-8`) already emitted;
    /// writing the declaration to a fresh in-memory sink cannot fail.
    #[verifier::external_body]
    pub fn new() -> (w: Writer)
        ensures
            w@ == Seq::<Ev>::empty(),
            w.ok(),
    {
        let mut inner = EventWriter::new_with_config(Vec::new(), xml::EmitterConfig::new().perform_indent(true));
        let first = inner.write(WrEvent::StartDocument { version: XmlVersion::Version10, encoding: Some("utf-8"), standalone: None });
        Writer { inner, failed: first.is_err(), written: Ghost(Seq::empty()) }
    }

    /// Relies on xml-rs's `EventWriter::write` for one event: a start
    /// tag with its namespace declarations and attributes, text, or an
    /// end tag.  Document markers and non-content markup write nothing:
    /// the declaration already stands, and the emitter closes the
    /// document with the last end tag.
    #[verifier::external_body]
    pub fn write(&mut self, e: Event) -> (r: Result<(), EncodeError>)
        ensures
            r is Ok ==> final(self)@ == old(self)@.push(e@) && final(self).ok() == old(self).ok(),
            r is Err ==> !final(self).ok(),
    {
        let res = match &e {
            Event::StartElement { name, attrs, ns } => {
                let mut b = WrEvent::start_element(name.as_str());
                for (k, v) in attrs.iter() { b = b.attr(k.as_str(), v.as_str()); }
                for (p, u) in ns.iter() { b = b.ns(p.as_str(), u.as_str()); }
                self.inner.write(b)
            },
            Event::Text { content } => self.inner.write(WrEvent::characters(content.as_str())),
            Event::EndElement { .. } => self.inner.write(WrEvent::end_element()),
            _ => Ok(()),
        };
        res.map_err(|er| { self.failed = true; EncodeError { message: er.to_string() } })
    }

    /// Relies on xml-rs's `EventWriter::into_inner` to hand back the
    /// bytes written so far; while no write has failed, they are the
    /// rendering of exactly the events written.
    #[verifier::external_body]
    pub fn into_string(self) -> (r: String)
        ensures
            self.ok() ==> r@ == rendered(self@),
    {
        String::from_utf8(self.inner.into_inner()).unwrap_or_default()
    }
}

/// The typed encode protocol: a record that can write itself as an XML
/// document, one fixed event sequence per value.
pub trait XmlWrite {
    /// The events this record's document consists of, in order.
    spec fn xml_evs(&self) -> Seq<Ev>;

    /// Write this record's document.
    fn write_xml(&self, w: &mut Writer) -> (r: Result<(), EncodeError>)
        ensures
            r is Ok ==> final(w)@ == old(w)@ + self.xml_evs() && (old(w).ok() ==> final(w).ok()),
    ;
}

/// The three events of an element holding nothing but text.
pub open spec fn text_el(name: Seq<char>, text: Seq<char>) -> Seq<Ev> {
    seq![
        Ev::StartElement { name, attrs: Seq::empty(), ns: Seq::empty() },
        Ev::Text { content: text },
        Ev::EndElement { name },
    ]
}

/// The start event of an element without attributes.
pub open spec fn start_el(name: Seq<char>) -> Ev {
    Ev::StartElement { name, attrs: Seq::empty(), ns: Seq::empty() }
}

/// The end event of an element.
pub open spec fn end_el(name: Seq<char>) -> Ev {
    Ev::EndElement { name }
}

/// Write the document declaration.
pub fn write_doc_start(w: &mut Writer) -> (r: Result<(), EncodeError>)
    ensures
        r is Ok ==> final(w)@ == old(w)@.push(Ev::StartDocument) && final(w).ok() == old(w).ok(),
{
    w.write(Event::StartDocument)
}

/// Write the start tag of an element without attributes.
pub fn write_start(w: &mut Writer, name: &str) -> (r: Result<(), EncodeError>)
    ensures
        r is Ok ==> final(w)@ == old(w)@.push(start_el(name@)) && final(w).ok() == old(w).ok(),
{
    let e = Event::StartElement {
        name: String::from_str(name),
        attrs: Vec::new(),
        ns: Vec::new(),
    };
    proof {
        assert(e@ =~= start_el(name@));
    }
    w.write(e)
}

/// Write the start tag of an element with attributes and namespace
/// declarations, given in document order.
pub fn write_start_full(w: &mut Writer, name: &str, attrs: Vec<(String, String)>, ns: Vec<
    (String, String),
>) -> (r: Result<(), EncodeError>)
    ensures
        r is Ok ==> final(w)@ == old(w)@.push(
            Ev::StartElement {
                name: name@,
                attrs: attrs@.map_values(|p: (String, String)| (p.0@, p.1@)),
                ns: ns@.map_values(|p: (String, String)| (p.0@, p.1@)),
            },
        ) && final(w).ok() == old(w).ok(),
{
    let ghost av = attrs@.map_values(|p: (String, String)| (p.0@, p.1@));
    let ghost nv = ns@.map_values(|p: (String, String)| (p.0@, p.1@));
    let e = Event::StartElement { name: String::from_str(name), attrs, ns };
    proof {
        assert(e@ =~= Ev::StartElement { name: name@, attrs: av, ns: nv });
    }
    w.write(e)
}

/// Write text content inside the current element.
pub fn write_text(w: &mut Writer, text: &str) -> (r: Result<(), EncodeError>)
    ensures
        r is Ok ==> final(w)@ == old(w)@.push(Ev::Text { content: text@ }) && final(w).ok()
            == old(w).ok(),
{
    let e = Event::Text { content: String::from_str(text) };
    proof {
        assert(e@ =~= Ev::Text { content: text@ });
    }
    w.write(e)
}

/// Write the end tag matching the most recent unclosed start tag.
pub fn write_end(w: &mut Writer, name: &str) -> (r: Result<(), EncodeError>)
    ensures
        r is Ok ==> final(w)@ == old(w)@.push(end_el(name@)) && final(w).ok() == old(w).ok(),
{
    let e = Event::EndElement { name: String::from_str(name) };
    proof {
        assert(e@ =~= end_el(name@));
    }
    w.write(e)
}

/// Write an element holding nothing but the given text.
pub fn write_text_element(w: &mut Writer, name: &str, text: &str) -> (r: Result<
    (),
    EncodeError,
>)
    ensures
        r is Ok ==> final(w)@ == old(w)@ + text_el(name@, text@) && final(w).ok() == old(w).ok(),
{
    let ghost w0 = w@;
    match write_start(w, name) {
        Ok(()) => {},
        Err(e) => {
            return Err(e);
        },
    }
    match write_text(w, text) {
        Ok(()) => {},
        Err(e) => {
            return Err(e);
        },
    }
    match write_end(w, name) {
        Ok(()) => {},
        Err(e) => {
            return Err(e);
        },
    }
    proof {
        assert(w@ =~= w0 + text_el(name@, text@));
    }
    Ok(())
}

} // verus!
