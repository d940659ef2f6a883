use vstd::prelude::*;
use quick_xml::events::attributes::Attributes;
use quick_xml::events::{BytesText, Event};
use quick_xml::Reader;
use vstd::utf8::encode_utf8;
use crate::event::{byte_strings, XmlEvent};

verus! {

/// The quick_xml reader of a scan, opaque here: Verus refuses a declaration of
/// that type.
#[verifier::external_body]
struct QuickReader<'a> {
    reader: Reader<&'a [u8]>,
}

/// The event that quick_xml's reader yields at its `k`-th read of a text,
/// counting from 0, or `None` where that read fails. After the end of input or a
/// failure, every later read yields the end of input.
pub uninterp spec fn event_at(text: Seq<char>, k: nat) -> Option<XmlEvent>;

/// The event a read yielded, or `None` for a failed read.
pub open spec fn read_outcome(r: Result<XmlEvent, String>) -> Option<XmlEvent> {
    match r {
        Ok(e) => Some(e),
        Err(_) => None,
    }
}

/// The length in bytes of a text.
pub open spec fn byte_len(text: Seq<char>) -> nat {
    encode_utf8(text).len()
}

/// A forward scan over the XML text of one part: the text and how many reads
/// have been made.
pub struct XmlScanner<'a> {
    inner: QuickReader<'a>,
    text: Ghost<Seq<char>>,
    count: Ghost<nat>,
}

impl<'a> XmlScanner<'a> {
    pub closed spec fn text(&self) -> Seq<char> {
        self.text@
    }

    pub closed spec fn count(&self) -> nat {
        self.count@
    }
}

/// What quick_xml makes of escaped character data: the unescaped text, or
/// `None` where an entity is unknown or the result is not UTF-8.
pub uninterp spec fn unescaped(raw: Seq<u8>) -> Option<Seq<char>>;

/// What quick_xml's attribute parser makes of the attribute text of a tag: the
/// names of the attributes before the first malformed one, and whether there is none.
pub uninterp spec fn attribute_names(raw: Seq<u8>) -> (Seq<Seq<u8>>, bool);

/// Relies on quick_xml's `Attributes` iterator over the attribute text of a tag,
/// with its default checks (quoted values, no repeated name).
#[verifier::external_body]
pub(crate) fn attribute_keys(raw: &Vec<u8>) -> (r: (Vec<Vec<u8>>, bool))
    ensures
        byte_strings(r.0@) == attribute_names(raw@).0,
        r.1 == attribute_names(raw@).1,
{
    let keys = Attributes::new(raw, 0).map_while(|a| a.ok()).map(|a| a.key.to_vec()).collect();
    (keys, Attributes::new(raw, 0).all(|a| a.is_ok()))
}

/// Relies on quick_xml's `Reader::from_str`: a reader positioned at the start of `text`.
#[verifier::external_body]
pub(crate) fn open_scanner<'a>(text: &'a str) -> (r: XmlScanner<'a>)
    ensures
        r.text() == text@,
        r.count() == 0,
{
    XmlScanner { inner: QuickReader { reader: Reader::from_str(text) }, text: Ghost(text@), count: Ghost(0) }
}

/// Relies on quick_xml's `Reader::read_event`: the next event of the scan,
/// converted to an owned `XmlEvent`, or the parser's message where the XML is
/// malformed. Every event but the end of input takes at least one byte of the
/// text, so one that is not the end of input comes from a read made before the
/// byte length of the text is reached.
#[verifier::external_body]
pub(crate) fn read_event(scanner: &mut XmlScanner) -> (r: Result<XmlEvent, String>)
    ensures
        final(scanner).text() == old(scanner).text(),
        final(scanner).count() == old(scanner).count() + 1,
        event_at(old(scanner).text(), old(scanner).count()) == read_outcome(r),
        (r matches Ok(e) && !(e is Eof)) ==> old(scanner).count() < byte_len(old(scanner).text()),
{
    Ok(match scanner.inner.reader.read_event(&mut Vec::new()) {
        Ok(Event::Start(e)) => XmlEvent::Start {
            name: e.name().to_vec(),
            local_name: e.local_name().to_vec(),
            attrs: e.attributes_raw().to_vec(),
        },
        Ok(Event::End(e)) => XmlEvent::End { name: e.name().to_vec() },
        Ok(Event::Empty(e)) => XmlEvent::Empty { name: e.name().to_vec() },
        Ok(Event::Text(e)) => XmlEvent::Text { raw: e.to_vec() },
        Ok(Event::Eof) => XmlEvent::Eof,
        Ok(_) => XmlEvent::Other,
        Err(e) => return Err(format!("{} at byte {}", e, scanner.inner.reader.buffer_position())),
    })
}

/// Relies on quick_xml's `BytesText::unescape_and_decode`: entity references are
/// replaced and the bytes read as UTF-8; the outcome depends on `raw` alone.
#[verifier::external_body]
pub(crate) fn unescape_text(scanner: &XmlScanner, raw: &Vec<u8>) -> (r: Result<String, String>)
    ensures
        r is Ok <==> unescaped(raw@) is Some,
        r matches Ok(s) ==> unescaped(raw@) == Some(s@),
{
    BytesText::from_escaped(raw.as_slice()).unescape_and_decode(&scanner.inner.reader).map_err(|e| format!("{}", e))
}

} // verus!
