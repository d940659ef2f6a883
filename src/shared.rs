use vstd::prelude::*;
use crate::error::{ConvertError, ErrorKind};
use crate::event::{name_is1, tag_t, XmlEvent};
use crate::index::texts;
use crate::xml::{byte_len, event_at, open_scanner, read_event, unescaped, unescape_text};

verus! {

/// What one event does to the table being built and to the flag that the next
/// character data is an entry: an opening tag with local name `t` sets the flag,
/// any other opening tag clears it, and character data read under the flag is
/// appended, unescaped.
pub open spec fn shared_step(tbl: Seq<Seq<char>>, capturing: bool, ev: XmlEvent) -> Result<
    (Seq<Seq<char>>, bool),
    ErrorKind,
> {
    match ev {
        XmlEvent::Start { local_name, .. } => Ok((tbl, local_name@ == tag_t())),
        XmlEvent::Text { raw } => {
            if !capturing {
                Ok((tbl, capturing))
            } else {
                match unescaped(raw@) {
                    Some(t) => Ok((tbl.push(t), false)),
                    None => Err(ErrorKind::Decode),
                }
            }
        },
        _ => Ok((tbl, capturing)),
    }
}

/// The table that the events of `text` from read `k` on build, from the table
/// and flag given; a failed read or an unescapable entry is a decode failure.
/// (A read past the byte length of the text always yields the end of input, so
/// the first branch is never taken by a scan from read 0.)
pub open spec fn shared_scan(text: Seq<char>, k: nat, tbl: Seq<Seq<char>>, capturing: bool) -> Result<
    Seq<Seq<char>>,
    ErrorKind,
>
    decreases byte_len(text) + 1 - k,
{
    if k > byte_len(text) {
        Err(ErrorKind::Decode)
    } else {
        match event_at(text, k) {
            None => Err(ErrorKind::Decode),
            Some(ev) => {
                if ev is Eof {
                    Ok(tbl)
                } else {
                    match shared_step(tbl, capturing, ev) {
                        Err(kd) => Err(kd),
                        Ok((t2, c2)) => shared_scan(text, k + 1, t2, c2),
                    }
                }
            },
        }
    }
}

/// The shared-string table of the XML text of its part.
pub open spec fn shared_table_of(text: Seq<char>) -> Result<Seq<Seq<char>>, ErrorKind> {
    shared_scan(text, 0, Seq::empty(), false)
}

pub open spec fn table_result(r: Result<Vec<String>, ConvertError>) -> Result<Seq<Seq<char>>, ErrorKind> {
    match r {
        Ok(v) => Ok(texts(v@)),
        Err(e) => Err(e.kind()),
    }
}

/// Entries are only ever appended: the table a scan starts from is the start of
/// the table it ends with, so entry `k` is the `k`-th text captured in document order.
pub proof fn lemma_entries_only_appended(text: Seq<char>, k: nat, tbl: Seq<Seq<char>>, capturing: bool)
    ensures
        shared_scan(text, k, tbl, capturing) matches Ok(t) ==> tbl.is_prefix_of(t),
    decreases byte_len(text) + 1 - k,
{
    if k <= byte_len(text) {
        match event_at(text, k) {
            None => {},
            Some(ev) => {
                if !(ev is Eof) {
                    match shared_step(tbl, capturing, ev) {
                        Err(kd) => {},
                        Ok((t2, c2)) => {
                            lemma_entries_only_appended(text, k + 1, t2, c2);
                            assert(tbl.is_prefix_of(t2));
                        },
                    }
                }
            },
        }
    }
}

/// Reads the shared-string table from the XML text of its part: one entry for
/// each character data that directly follows an opening `t` tag, in document
/// order. A malformed document fails with a decode error.
pub fn shared_strings(xml: &str) -> (r: Result<Vec<String>, ConvertError>)
    ensures
        table_result(r) == shared_table_of(xml@),
{
    let mut scanner = open_scanner(xml);
    let mut strings: Vec<String> = Vec::new();
    let mut capturing = false;
    assert(texts(strings@) =~= Seq::<Seq<char>>::empty());
    loop
        invariant
            scanner.text() == xml@,
            scanner.count() <= byte_len(xml@),
            shared_table_of(xml@) == shared_scan(xml@, scanner.count(), texts(strings@), capturing),
        decreases byte_len(xml@) - scanner.count(),
    {
        let ghost k = scanner.count();
        let ev = match read_event(&mut scanner) {
            Ok(ev) => ev,
            Err(m) => return Err(ConvertError::Decode(m)),
        };
        match &ev {
            XmlEvent::Start { local_name, .. } => {
                capturing = name_is1(local_name, 116u8);
            },
            XmlEvent::Text { raw } => {
                if capturing {
                    match unescape_text(&scanner, raw) {
                        Ok(t) => {
                            let ghost before = strings@;
                            strings.push(t);
                            capturing = false;
                            proof {
                                assert(texts(strings@) =~= texts(before).push(t@));
                            }
                        },
                        Err(m) => return Err(ConvertError::Decode(m)),
                    }
                }
            },
            XmlEvent::Eof => {
                return Ok(strings);
            },
            _ => {},
        }
    }
}

} // verus!
