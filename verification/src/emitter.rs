//! Rendering: events to bytes, by the XML emitter of `xml-rs`.

use crate::gpx::{XmlOut, XmlOutView};
use std::borrow::Cow;
use vstd::prelude::*;
use xml::attribute::Attribute;
use xml::common::XmlVersion;
use xml::namespace::Namespace;
use xml::writer::{EmitterConfig, XmlEvent};

verus! {

/// The line ending of the document.
pub const LINE_SEPARATOR: &'static str = "\r\n";

/// Whether the document is indented.
pub const INDENT: bool = true;

/// An event as the emitter of `xml-rs` takes it.
#[verifier::external_type_specification]
#[verifier::external_body]
pub struct ExXmlEvent<'a>(XmlEvent<'a>);

/// What an `xml-rs` event holds, where it is one that [`xml_event`] builds: its kind,
/// names and texts. `None` for every other event.
pub uninterp spec fn held(event: XmlEvent) -> Option<XmlOutView>;

/// The bytes that the emitter of `xml-rs` writes for `events`, with the line separator
/// `separator` and with or without indentation; `None` where the emitter refuses one of
/// the events.
pub uninterp spec fn emitted_bytes(events: Seq<XmlOutView>, separator: Seq<char>, indent: bool)
    -> Option<Seq<u8>>;

/// What each of `events` holds, in order.
pub open spec fn all_held(events: Seq<XmlEvent>) -> Seq<XmlOutView> {
    Seq::new(events.len(), |i: int| held(events[i])->0)
}

/// Builds the `xml-rs` event of the same kind as `event`, with the same names and texts.
/// A declaration is one of XML 1.0. A name is handed over as text, which `xml-rs` splits
/// at its first colon into prefix and local name. The namespaces are put one after the
/// other, in their order, into an empty `Namespace` by `Namespace::force_put`, which
/// replaces the mapping that a prefix already has.
///
/// Claimed: the event built holds what `event` holds, and two events that hold the same
/// are built alike.
#[verifier::external_body]
pub(crate) fn xml_event<'a>(event: &'a XmlOut) -> (built: XmlEvent<'a>)
    ensures
        held(built) == Some(event@),
{
    match event {
        XmlOut::Declaration { encoding, standalone } => XmlEvent::StartDocument {
            version: XmlVersion::Version10, encoding: Some(encoding), standalone: Some(*standalone) },
        XmlOut::Open { name, attributes, namespaces } => {
            let mut space = Namespace::empty();
            for (prefix, uri) in namespaces { space.force_put(prefix.as_str(), uri.as_str()); }
            XmlEvent::StartElement { name: name.as_str().into(), namespace: Cow::Owned(space),
                attributes: attributes.iter().map(|(k, v)| Attribute::new(k.as_str().into(), v)).collect() }
        },
        XmlOut::Text(text) => XmlEvent::characters(text),
        XmlOut::Close => XmlEvent::end_element().into(),
    }
}

/// Writes `events` to an `EventWriter` over an empty byte vector that `EmitterConfig`
/// sets up with the given line separator and indentation, and hands out the vector.
/// Stops at the first event that the emitter refuses.
///
/// Claimed: for events that [`xml_event`] built, the result depends on what the events
/// hold and on the two settings alone.
#[verifier::external_body]
pub(crate) fn emit<'a>(events: &Vec<XmlEvent<'a>>, separator: &str, indent: bool) -> (bytes: Option<
    Vec<u8>,
>)
    requires
        forall|i: int| 0 <= i < events.len() ==> held(#[trigger] events[i]) is Some,
    ensures
        bytes.deep_view() == emitted_bytes(all_held(events@), separator@, indent),
{
    let config = EmitterConfig::new().line_separator(separator.to_owned()).perform_indent(indent);
    let mut out = config.create_writer(Vec::new());
    for event in events {
        out.write(event.clone()).ok()?;
    }
    Some(out.into_inner())
}

/// The bytes of the document that `events` describe: UTF-8, indented, with CRLF line
/// endings.
pub open spec fn rendered(events: Seq<XmlOutView>) -> Option<Seq<u8>> {
    emitted_bytes(events, LINE_SEPARATOR@, INDENT)
}

/// Renders `events` as a document; `None` where the events do not make one.
pub fn render(events: &Vec<XmlOut>) -> (bytes: Option<Vec<u8>>)
    ensures
        bytes.deep_view() == rendered(events.deep_view()),
{
    let mut built: Vec<XmlEvent> = Vec::new();
    let mut i: usize = 0;
    while i < events.len()
        invariant
            i <= events.len(),
            built.len() == i,
            forall|k: int| 0 <= k < i ==> held(#[trigger] built[k]) == Some(events[k]@),
        decreases events.len() - i,
    {
        built.push(xml_event(&events[i]));
        i = i + 1;
    }
    assert(all_held(built@) =~= events.deep_view());
    emit(&built, LINE_SEPARATOR, INDENT)
}

} // verus!
