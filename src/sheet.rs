use vstd::prelude::*;
use vstd::string::StringExecFns;
use crate::error::{ConvertError, ErrorKind};
use crate::event::{any_type_attr, has_type_attr, name_is1, name_is_row, tag_c, tag_row, tag_v, XmlEvent};
use crate::index::{cell_field, index_value, is_index_text, resolve_cell, texts};
use crate::xml::{attribute_keys, attribute_names, byte_len, event_at, open_scanner, read_event, unescaped, unescape_text, XmlScanner};

verus! {

/// The state of a worksheet scan between two events.
pub struct DecoderView {
    /// The open cell has a type attribute: its value is a shared-string index.
    pub typed: bool,
    /// The next character data is the open cell's value.
    pub capturing: bool,
    /// The value captured for the open cell.
    pub value: Seq<char>,
    /// The fields of the row read so far.
    pub row: Seq<Seq<char>>,
    /// A row element is open.
    pub in_row: bool,
}

pub open spec fn initial_view() -> DecoderView {
    DecoderView { typed: false, capturing: false, value: Seq::empty(), row: Seq::empty(), in_row: false }
}

/// What one event does to the scan: the next state and the row it completes,
/// or the kind of failure it ends the scan with.
pub open spec fn step_spec(s: DecoderView, ev: XmlEvent, table: Seq<Seq<char>>) -> Result<
    (DecoderView, Option<Seq<Seq<char>>>),
    ErrorKind,
> {
    match ev {
        XmlEvent::Text { raw } => {
            if !s.capturing {
                Ok((s, None))
            } else {
                match unescaped(raw@) {
                    Some(t) => Ok((DecoderView { value: t, capturing: false, ..s }, None)),
                    None => Err(ErrorKind::Decode),
                }
            }
        },
        XmlEvent::Start { name, local_name, attrs } => {
            if local_name@ == tag_v() {
                Ok((DecoderView { capturing: true, ..s }, None))
            } else if local_name@ == tag_c() {
                if has_type_attr(attribute_names(attrs@).0) {
                    Ok((DecoderView { typed: true, ..s }, None))
                } else if attribute_names(attrs@).1 {
                    Ok((DecoderView { typed: false, ..s }, None))
                } else {
                    Err(ErrorKind::Decode)
                }
            } else if name@ == tag_row() {
                Ok((DecoderView { in_row: true, ..s }, None))
            } else {
                Ok((s, None))
            }
        },
        XmlEvent::End { name } => {
            if name@ == tag_c() {
                match cell_field(s.typed, s.value, table) {
                    Ok(f) => Ok((DecoderView { row: s.row.push(f), value: Seq::empty(), ..s }, None)),
                    Err(k) => Err(k),
                }
            } else if name@ == tag_row() {
                Ok((DecoderView { row: Seq::empty(), in_row: false, ..s }, Some(s.row)))
            } else {
                Ok((s, None))
            }
        },
        XmlEvent::Empty { name } => {
            if name@ == tag_c() {
                Ok((DecoderView { row: s.row.push(Seq::empty()), ..s }, None))
            } else if name@ == tag_row() {
                Ok((DecoderView { row: Seq::empty(), ..s }, Some(s.row)))
            } else {
                Ok((s, None))
            }
        },
        XmlEvent::Eof => {
            if s.in_row {
                Err(ErrorKind::MalformedDocument)
            } else {
                Ok((s, None))
            }
        },
        XmlEvent::Other => Ok((s, None)),
    }
}

/// The rows that a scan emits, and the state it ends in or the failure it ends with.
pub struct RunView {
    pub rows: Seq<Seq<Seq<char>>>,
    pub outcome: Result<DecoderView, ErrorKind>,
}

pub open spec fn emitted(out: Option<Seq<Seq<char>>>) -> Seq<Seq<Seq<char>>> {
    match out {
        Some(r) => seq![r],
        None => Seq::empty(),
    }
}

/// A scan of a sequence of events from a state.
pub open spec fn decode_run(s: DecoderView, evs: Seq<XmlEvent>, table: Seq<Seq<char>>) -> RunView
    decreases evs.len(),
{
    if evs.len() == 0 {
        RunView { rows: Seq::empty(), outcome: Ok(s) }
    } else {
        match step_spec(s, evs[0], table) {
            Err(k) => RunView { rows: Seq::empty(), outcome: Err(k) },
            Ok((s2, out)) => {
                let rest = decode_run(s2, evs.drop_first(), table);
                RunView { rows: emitted(out) + rest.rows, outcome: rest.outcome }
            },
        }
    }
}

pub open spec fn opt_texts(o: Option<Vec<String>>) -> Option<Seq<Seq<char>>> {
    match o {
        Some(v) => Some(texts(v@)),
        None => None,
    }
}

/// An event that completes a row: a closing or self-closing `row` tag.
pub open spec fn closes_row(e: XmlEvent) -> bool {
    match e {
        XmlEvent::End { name } => name@ == tag_row(),
        XmlEvent::Empty { name } => name@ == tag_row(),
        _ => false,
    }
}

/// A scan of some events and then one more: the rows of the first scan, then
/// what the last event does to the state the first scan ended in.
pub proof fn lemma_run_push(s: DecoderView, evs: Seq<XmlEvent>, e: XmlEvent, table: Seq<Seq<char>>)
    ensures
        decode_run(s, evs.push(e), table) == (match decode_run(s, evs, table).outcome {
            Err(k) => decode_run(s, evs, table),
            Ok(s1) => match step_spec(s1, e, table) {
                Err(k) => RunView { rows: decode_run(s, evs, table).rows, outcome: Err(k) },
                Ok((s2, out)) => RunView {
                    rows: decode_run(s, evs, table).rows + emitted(out),
                    outcome: Ok(s2),
                },
            },
        }),
    decreases evs.len(),
{
    reveal_with_fuel(decode_run, 2);
    if evs.len() == 0 {
        assert(evs.push(e).drop_first() =~= Seq::<XmlEvent>::empty());
        assert(evs.push(e)[0] == e);
        match step_spec(s, e, table) {
            Err(k) => {},
            Ok((s2, out)) => {
                assert(emitted(out) + Seq::<Seq<Seq<char>>>::empty() =~= Seq::<Seq<Seq<char>>>::empty() + emitted(out));
            },
        }
    } else {
        assert(evs.push(e)[0] == evs[0]);
        assert(evs.push(e).drop_first() =~= evs.drop_first().push(e));
        match step_spec(s, evs[0], table) {
            Err(k) => {},
            Ok((s2, out)) => {
                lemma_run_push(s2, evs.drop_first(), e, table);
                let rest = decode_run(s2, evs.drop_first(), table);
                match rest.outcome {
                    Err(k) => {},
                    Ok(s1) => match step_spec(s1, e, table) {
                        Err(k) => {},
                        Ok((s3, out2)) => {
                            assert(emitted(out) + (rest.rows + emitted(out2)) =~= (emitted(out) + rest.rows) + emitted(out2));
                        },
                    },
                }
            },
        }
    }
}

/// The number of events that complete a row.
pub open spec fn count_row_ends(evs: Seq<XmlEvent>) -> nat
    decreases evs.len(),
{
    if evs.len() == 0 {
        0
    } else {
        (if closes_row(evs[0]) { 1nat } else { 0nat }) + count_row_ends(evs.drop_first())
    }
}

/// A scan that does not fail emits one record for each `row` element.
pub proof fn lemma_one_record_per_row(s: DecoderView, evs: Seq<XmlEvent>, table: Seq<Seq<char>>)
    requires
        decode_run(s, evs, table).outcome is Ok,
    ensures
        decode_run(s, evs, table).rows.len() == count_row_ends(evs),
    decreases evs.len(),
{
    if evs.len() > 0 {
        match step_spec(s, evs[0], table) {
            Err(k) => {},
            Ok((s2, out)) => {
                lemma_one_record_per_row(s2, evs.drop_first(), table);
                assert(out is Some <==> closes_row(evs[0]));
            },
        }
    }
}

/// Rows are emitted as the scan goes: the rows that the scan of the first `k`
/// events emits are the first rows of the whole scan, whatever comes after,
/// a failure included.
pub proof fn lemma_rows_survive_later_events(
    s: DecoderView,
    evs: Seq<XmlEvent>,
    k: int,
    table: Seq<Seq<char>>,
)
    requires
        0 <= k <= evs.len(),
    ensures
        decode_run(s, evs.take(k), table).rows.is_prefix_of(decode_run(s, evs, table).rows),
        decode_run(s, evs.take(k), table).outcome is Err ==> decode_run(s, evs, table)
            == decode_run(s, evs.take(k), table),
    decreases evs.len(),
{
    if k == 0 {
        assert(evs.take(0) =~= Seq::<XmlEvent>::empty());
    } else {
        assert(evs.take(k)[0] == evs[0]);
        assert(evs.take(k).drop_first() =~= evs.drop_first().take(k - 1));
        match step_spec(s, evs[0], table) {
            Err(kd) => {},
            Ok((s2, out)) => {
                lemma_rows_survive_later_events(s2, evs.drop_first(), k - 1, table);
            },
        }
    }
}

/// The closing tag of a string-typed cell whose index is in range appends the
/// shared string at that index to the row.
pub proof fn lemma_string_cell_resolves(s: DecoderView, name: Vec<u8>, table: Seq<Seq<char>>)
    requires
        name@ == tag_c(),
        s.typed,
        is_index_text(s.value),
        index_value(s.value) < table.len(),
    ensures
        step_spec(s, XmlEvent::End { name }, table) matches Ok((s2, out)) && out is None
            && s2.row == s.row.push(table[index_value(s.value) as int]),
{
}

/// A self-closing cell appends one empty field, so later fields keep their columns.
pub proof fn lemma_empty_cell_keeps_position(s: DecoderView, name: Vec<u8>, table: Seq<Seq<char>>)
    requires
        name@ == tag_c(),
    ensures
        step_spec(s, XmlEvent::Empty { name }, table) matches Ok((s2, out)) && out is None
            && s2.row.len() == s.row.len() + 1 && s2.row.last() == Seq::<char>::empty()
            && s2.row.drop_last() == s.row,
{
    assert(s.row.push(Seq::<char>::empty()).drop_last() =~= s.row);
}

/// A string-typed cell whose index is past the end of the table ends the scan
/// with an index-out-of-range failure, and the row it stands in is not emitted.
pub proof fn lemma_out_of_range_cell_fails(
    s: DecoderView,
    name: Vec<u8>,
    rest: Seq<XmlEvent>,
    table: Seq<Seq<char>>,
)
    requires
        name@ == tag_c(),
        s.typed,
        is_index_text(s.value),
        index_value(s.value) >= table.len(),
    ensures
        decode_run(s, seq![XmlEvent::End { name }] + rest, table) == (RunView {
            rows: Seq::empty(),
            outcome: Err(ErrorKind::IndexOutOfRange),
        }),
{
    assert((seq![XmlEvent::End { name }] + rest)[0] == XmlEvent::End { name });
}

/// The state of a worksheet scan.
pub struct RowDecoder {
    pub typed: bool,
    pub capturing: bool,
    pub value: String,
    pub row: Vec<String>,
    pub in_row: bool,
}

impl View for RowDecoder {
    type V = DecoderView;

    open spec fn view(&self) -> DecoderView {
        DecoderView {
            typed: self.typed,
            capturing: self.capturing,
            value: self.value@,
            row: texts(self.row@),
            in_row: self.in_row,
        }
    }
}

impl RowDecoder {
    pub fn new() -> (d: RowDecoder)
        ensures
            d@ == initial_view(),
    {
        let d = RowDecoder {
            typed: false,
            capturing: false,
            value: String::new(),
            row: Vec::new(),
            in_row: false,
        };
        assert(d@.row =~= Seq::<Seq<char>>::empty());
        d
    }

    /// Takes one event: the row it completes, if any, or the failure it brings.
    pub fn step(&mut self, ev: &XmlEvent, scanner: &XmlScanner, table: &Vec<String>) -> (r: Result<
        Option<Vec<String>>,
        ConvertError,
    >)
        ensures
            r is Ok <==> step_spec(old(self)@, *ev, texts(table@)) is Ok,
            r matches Err(e) ==> step_spec(old(self)@, *ev, texts(table@)) == Err::<
                (DecoderView, Option<Seq<Seq<char>>>),
                ErrorKind,
            >(e.kind()),
            r matches Ok(o) ==> step_spec(old(self)@, *ev, texts(table@)) == Ok::<
                (DecoderView, Option<Seq<Seq<char>>>),
                ErrorKind,
            >((final(self)@, opt_texts(o))),
    {
        match ev {
            XmlEvent::Text { raw } => {
                if self.capturing {
                    match unescape_text(scanner, raw) {
                        Ok(t) => {
                            self.value = t;
                            self.capturing = false;
                            Ok(None)
                        },
                        Err(m) => Err(ConvertError::Decode(m)),
                    }
                } else {
                    Ok(None)
                }
            },
            XmlEvent::Start { name, local_name, attrs } => {
                if name_is1(local_name, 118u8) {
                    self.capturing = true;
                } else if name_is1(local_name, 99u8) {
                    let (keys, complete) = attribute_keys(attrs);
                    if any_type_attr(&keys) {
                        self.typed = true;
                    } else if complete {
                        self.typed = false;
                    } else {
                        return Err(ConvertError::Decode(String::from_str("malformed attribute of a cell")));
                    }
                } else if name_is_row(name) {
                    self.in_row = true;
                }
                Ok(None)
            },
            XmlEvent::End { name } => {
                if name_is1(name, 99u8) {
                    let f = resolve_cell(self.typed, &self.value, table)?;
                    self.row.push(f);
                    self.value = String::new();
                    proof {
                        assert(texts(self.row@) =~= texts(old(self).row@).push(f@));
                    }
                    Ok(None)
                } else if name_is_row(name) {
                    let mut done: Vec<String> = Vec::new();
                    std::mem::swap(&mut done, &mut self.row);
                    self.in_row = false;
                    proof {
                        assert(texts(self.row@) =~= Seq::<Seq<char>>::empty());
                    }
                    Ok(Some(done))
                } else {
                    Ok(None)
                }
            },
            XmlEvent::Empty { name } => {
                if name_is1(name, 99u8) {
                    self.row.push(String::new());
                    proof {
                        assert(texts(self.row@) =~= texts(old(self).row@).push(Seq::empty()));
                    }
                    Ok(None)
                } else if name_is_row(name) {
                    let mut done: Vec<String> = Vec::new();
                    std::mem::swap(&mut done, &mut self.row);
                    proof {
                        assert(texts(self.row@) =~= Seq::<Seq<char>>::empty());
                    }
                    Ok(Some(done))
                } else {
                    Ok(None)
                }
            },
            XmlEvent::Eof => {
                if self.in_row {
                    Err(ConvertError::MalformedDocument)
                } else {
                    Ok(None)
                }
            },
            XmlEvent::Other => Ok(None),
        }
    }
}

/// The events are the first reads of the text, in order.
pub open spec fn reads_of(text: Seq<char>, evs: Seq<XmlEvent>) -> bool {
    forall|k: int| 0 <= k < evs.len() ==> event_at(text, k as nat) == Some(#[trigger] evs[k])
}

/// The rows of a worksheet, decoded one at a time as the scan reaches the end
/// of each row element.
pub struct SheetRows<'a> {
    scanner: XmlScanner<'a>,
    table: &'a Vec<String>,
    decoder: RowDecoder,
    finished: bool,
    seen: Ghost<Seq<XmlEvent>>,
    rows: Ghost<Seq<Seq<Seq<char>>>>,
}

impl<'a> SheetRows<'a> {
    /// The events the scan has read.
    pub closed spec fn seen(&self) -> Seq<XmlEvent> {
        self.seen@
    }

    /// The worksheet's XML text.
    pub closed spec fn text(&self) -> Seq<char> {
        self.scanner.text()
    }

    /// The rows handed out so far.
    pub closed spec fn rows(&self) -> Seq<Seq<Seq<char>>> {
        self.rows@
    }

    /// The shared-string table that typed cells are resolved against.
    pub closed spec fn table(&self) -> Seq<Seq<char>> {
        texts(self.table@)
    }

    /// The scan has ended, at the end of input or at a failure.
    pub closed spec fn finished(&self) -> bool {
        self.finished
    }

    pub closed spec fn wf(&self) -> bool {
        let run = decode_run(initial_view(), self.seen@, texts(self.table@));
        &&& run.rows == self.rows@
        &&& !self.finished ==> run.outcome == Ok::<DecoderView, ErrorKind>(self.decoder@)
        &&& !self.finished ==> self.scanner.count() == self.seen@.len()
        &&& !self.finished ==> self.scanner.count() <= byte_len(self.scanner.text())
        &&& reads_of(self.scanner.text(), self.seen@)
    }

    /// The scan of the events read so far.
    pub open spec fn run(&self) -> RunView {
        decode_run(initial_view(), self.seen(), self.table())
    }

    /// Starts a scan of a worksheet's XML text.
    pub fn new(xml: &'a str, table: &'a Vec<String>) -> (r: SheetRows<'a>)
        ensures
            r.wf(),
            r.seen() == Seq::<XmlEvent>::empty(),
            r.rows() == Seq::<Seq<Seq<char>>>::empty(),
            r.table() == texts(table@),
            r.text() == xml@,
            !r.finished(),
    {
        SheetRows {
            scanner: open_scanner(xml),
            table,
            decoder: RowDecoder::new(),
            finished: false,
            seen: Ghost(Seq::empty()),
            rows: Ghost(Seq::empty()),
        }
    }

    /// Reads on to the end of the next row and hands it out; `None` at the end
    /// of the worksheet. Rows handed out before a failure stay valid.
    pub fn next_row(&mut self) -> (r: Result<Option<Vec<String>>, ConvertError>)
        requires
            old(self).wf(),
        ensures
            final(self).wf(),
            final(self).table() == old(self).table(),
            final(self).text() == old(self).text(),
            reads_of(final(self).text(), final(self).seen()),
            old(self).seen().is_prefix_of(final(self).seen()),
            final(self).run().rows == final(self).rows(),
            old(self).finished() ==> {
                &&& r matches Ok(None)
                &&& final(self).finished()
                &&& final(self).seen() == old(self).seen()
                &&& final(self).rows() == old(self).rows()
            },
            r matches Ok(Some(row)) ==> {
                &&& final(self).rows() == old(self).rows().push(texts(row@))
                &&& !final(self).finished()
                &&& final(self).run().outcome is Ok
                &&& final(self).seen().len() > 0
                &&& closes_row(final(self).seen().last())
            },
            r matches Ok(None) ==> final(self).finished() && final(self).rows() == old(self).rows(),
            (r matches Ok(None) && !old(self).finished()) ==> {
                &&& final(self).run().outcome is Ok
                &&& final(self).rows().len() == count_row_ends(final(self).seen())
                &&& final(self).seen().len() > 0
                &&& final(self).seen().last() is Eof
            },
            r matches Err(e) ==> {
                &&& final(self).finished()
                &&& final(self).rows() == old(self).rows()
                &&& (final(self).run().outcome == Err::<DecoderView, ErrorKind>(e.kind()) || (e.kind()
                    == ErrorKind::Decode && final(self).run().outcome is Ok && event_at(
                    final(self).text(),
                    final(self).seen().len(),
                ) is None))
            },
    {
        if self.finished {
            return Ok(None);
        }
        let ghost seen0 = self.seen@;
        let ghost rows0 = self.rows@;
        let ghost tbl = texts(self.table@);
        loop
            invariant
                self.wf(),
                !self.finished,
                texts(self.table@) == tbl,
                tbl == texts(old(self).table@),
                seen0 == old(self).seen@,
                rows0 == old(self).rows@,
                !old(self).finished,
                self.scanner.text() == old(self).scanner.text(),
                seen0.is_prefix_of(self.seen@),
                self.rows@ == rows0,
            decreases byte_len(self.scanner.text()) - self.scanner.count(),
        {
            let ev = match read_event(&mut self.scanner) {
                Ok(ev) => ev,
                Err(m) => {
                    self.finished = true;
                    return Err(ConvertError::Decode(m));
                },
            };
            proof {
                lemma_run_push(initial_view(), self.seen@, ev, tbl);
            }
            self.seen = Ghost(self.seen@.push(ev));
            assert(reads_of(self.scanner.text(), self.seen@));
            let ghost d0 = self.decoder@;
            match self.decoder.step(&ev, &self.scanner, self.table) {
                Err(e) => {
                    self.finished = true;
                    return Err(e);
                },
                Ok(Some(row)) => {
                    proof {
                        assert(rows0 + emitted(Some(texts(row@))) =~= rows0.push(texts(row@)));
                    }
                    self.rows = Ghost(self.rows@.push(texts(row@)));
                    return Ok(Some(row));
                },
                Ok(None) => {
                    proof {
                        assert(rows0 + emitted(None) =~= rows0);
                    }
                    if let XmlEvent::Eof = ev {
                        proof {
                            lemma_one_record_per_row(initial_view(), self.seen@, tbl);
                        }
                        self.finished = true;
                        return Ok(None);
                    }
                },
            }
        }
    }
}

} // verus!
