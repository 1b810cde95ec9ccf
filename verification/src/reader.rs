//! Reading: bytes to tokens, by the XML parser of `xml-rs`.

use crate::stream::{Token, TokenView};
use vstd::prelude::*;
use xml::reader::{EventReader, XmlEvent};

verus! {

/// What the XML parser makes of a byte stream.
pub struct Parsed {
    /// The tokens read, in order; up to the fault where there is one.
    pub tokens: Seq<TokenView>,
    /// The parser's message, where the stream is not well-formed XML.
    pub fault: Option<Seq<char>>,
}

/// What the parser of `xml-rs`, as `EventReader::new` configures it, reads from `bytes`.
pub uninterp spec fn xml_tokens(bytes: Seq<u8>) -> Parsed;

/// Iterates `xml-rs`'s `EventReader` over `bytes` and keeps of each event what the
/// conversion reads: the local name of a start or end tag, the text of character data.
/// Every other event becomes `Token::Other`. The iteration ends with the document or at
/// the parser's first error, whose message is handed out.
///
/// Claimed: the result depends on the bytes alone.
#[verifier::external_body]
pub(crate) fn read_tokens(bytes: &[u8]) -> (read: (Vec<Token>, Option<String>))
    ensures
        read.0.deep_view() == xml_tokens(bytes@).tokens,
        read.1.deep_view() == xml_tokens(bytes@).fault,
{
    let mut tokens = Vec::new();
    for event in EventReader::new(bytes) {
        tokens.push(match event {
            Ok(XmlEvent::StartElement { name, .. }) => Token::Start(name.local_name),
            Ok(XmlEvent::EndElement { name }) => Token::End(name.local_name),
            Ok(XmlEvent::Characters(text)) => Token::Characters(text),
            Ok(_) => Token::Other,
            Err(fault) => return (tokens, Some(fault.to_string())),
        });
    }
    (tokens, None)
}

} // verus!
