//! Writing XML documents with the `xml-rs` crate.
//!
//! An `EventWriter` is opaque to the verifier. It is modelled by the events
//! that were written to it, and the bytes that it produces are named by an
//! uninterpreted function of those events. The contracts of the wrappers are
//! assumed, not proved.

use vstd::prelude::*;
use xml::writer::Error as EmitterError;
use xml::writer::{EventWriter, XmlEvent};

verus! {

/// Declares `xml::writer::EventWriter` as a type whose inside the verifier
/// does not see.
#[verifier::external_type_specification]
#[verifier::external_body]
#[verifier::reject_recursive_types(W)]
pub struct ExEventWriter<W>(EventWriter<W>);

/// Declares `xml::writer::Error` as a type whose inside the verifier does
/// not see.
#[verifier::external_type_specification]
#[verifier::external_body]
pub struct ExEmitterError(EmitterError);

/// One event of a document, as it is handed to the writer.
#[derive(Clone, Copy, Debug)]
pub enum Token<'a> {
    /// The start of an element, with the namespace that it makes the default.
    StartElement { name: &'a str, default_ns: Option<&'a str> },
    /// Text inside the current element.
    Characters(&'a str),
    /// The end of the current element.
    EndElement,
}

/// The mathematical content of a [`Token`].
pub enum Event {
    /// The start of an element, with the namespace that it makes the default.
    StartElement { name: Seq<char>, default_ns: Option<Seq<char>> },
    /// Text inside the current element.
    Characters(Seq<char>),
    /// The end of the current element.
    EndElement,
}

impl<'a> View for Token<'a> {
    type V = Event;

    open spec fn view(&self) -> Event {
        match *self {
            Token::StartElement { name, default_ns } => Event::StartElement {
                name: name@,
                default_ns: match default_ns {
                    Some(ns) => Some(ns@),
                    None => None,
                },
            },
            Token::Characters(text) => Event::Characters(text@),
            Token::EndElement => Event::EndElement,
        }
    }
}

/// The events that `writer` has accepted since it was made.
pub uninterp spec fn written(writer: EventWriter<Vec<u8>>) -> Seq<Event>;

/// The bytes that a writer with the default configuration has put into its
/// sink once it has accepted `events`, a document declaration included.
pub uninterp spec fn rendered(events: Seq<Event>) -> Seq<u8>;

/// How many elements are open after `events`.
pub open spec fn open_elements(events: Seq<Event>) -> int
    decreases events.len(),
{
    if events.len() == 0 {
        0
    } else {
        let before = open_elements(events.drop_last());
        match events.last() {
            Event::StartElement { .. } => before + 1,
            Event::Characters(_) => before,
            Event::EndElement => before - 1,
        }
    }
}

/// Calls `EventWriter::new` on an empty byte vector. Assumed: nothing has
/// been written to the new writer.
#[verifier::external_body]
pub(crate) fn new_writer() -> (writer: EventWriter<Vec<u8>>)
    ensures
        written(writer) == Seq::<Event>::empty(),
{
    EventWriter::new(Vec::new())
}

/// Calls `EventWriter::write` with the event that `token` stands for.
/// Assumed: the call succeeds and the event is accepted. With a byte vector
/// as its sink the writer fails in one case only that the tokens can reach:
/// on the end of an element where none is open, which `requires` leaves
/// out.
#[verifier::external_body]
pub(crate) fn write_token(writer: &mut EventWriter<Vec<u8>>, token: Token<'_>) -> (r: Result<
    (),
    EmitterError,
>)
    requires
        token is EndElement ==> open_elements(written(*old(writer))) > 0,
    ensures
        r is Ok,
        written(*final(writer)) == written(*old(writer)).push(token@),
{
    writer.write(
        match token {
            Token::StartElement { name, default_ns: Some(ns) } => XmlEvent::from(
                XmlEvent::start_element(name).default_ns(ns),
            ),
            Token::StartElement { name, default_ns: None } => XmlEvent::start_element(name).into(),
            Token::Characters(text) => XmlEvent::characters(text),
            Token::EndElement => XmlEvent::end_element().into(),
        },
    )
}

/// Calls `EventWriter::into_inner`. Assumed: the sink of a writer that
/// [`new_writer`] made holds [`rendered`] of the events that the writer
/// accepted.
#[verifier::external_body]
pub(crate) fn into_bytes(writer: EventWriter<Vec<u8>>) -> (bytes: Vec<u8>)
    ensures
        bytes@ == rendered(written(writer)),
{
    writer.into_inner()
}

} // verus!
