use xlsx2csv::error::ErrorKind;
use xlsx2csv::part::{shared_strings_part, sheet_part_name};
use xlsx2csv::record::encode_record;
use xlsx2csv::shared::shared_strings;
use xlsx2csv::sheet::SheetRows;

fn table(items: &[&str]) -> Vec<String> {
    items.iter().map(|s| s.to_string()).collect()
}

fn decode_all(xml: &str, strings: &Vec<String>) -> (Vec<Vec<String>>, Option<ErrorKind>) {
    let mut rows = SheetRows::new(xml, strings);
    let mut out = Vec::new();
    loop {
        match rows.next_row() {
            Ok(Some(r)) => out.push(r),
            Ok(None) => return (out, None),
            Err(e) => return (out, Some(e.kind())),
        }
    }
}

fn sheet(rows: &str) -> String {
    format!(
        "<?xml version=\"1.0\" encoding=\"UTF-8\"?><worksheet><sheetData>{}</sheetData></worksheet>",
        rows
    )
}

#[test]
fn shared_strings_keep_document_order() {
    let xml = "<?xml version=\"1.0\"?><sst count=\"3\"><si><t>first</t></si><si><t>b&amp;c</t></si><si><t>last</t></si></sst>";
    let t = shared_strings(xml).unwrap();
    assert_eq!(t, table(&["first", "b&c", "last"]));
}

#[test]
fn shared_strings_flatten_rich_text_runs() {
    let xml = "<sst><si><r><rPr><b/></rPr><t>x</t></r><r><t>y</t></r></si><si><t>z</t></si></sst>";
    let t = shared_strings(xml).unwrap();
    assert_eq!(t, table(&["x", "y", "z"]));
}

#[test]
fn shared_strings_empty_table() {
    let t = shared_strings("<sst count=\"0\"></sst>").unwrap();
    assert!(t.is_empty());
}

#[test]
fn shared_strings_bad_entity_is_decode_error() {
    let e = shared_strings("<sst><si><t>a&bogus;</t></si></sst>").unwrap_err();
    assert_eq!(e.kind(), ErrorKind::Decode);
}

#[test]
fn shared_strings_malformed_xml_is_decode_error() {
    let e = shared_strings("<sst><si><t>a</si></sst>").unwrap_err();
    assert_eq!(e.kind(), ErrorKind::Decode);
}

#[test]
fn one_record_per_row_element() {
    let xml = sheet("<row r=\"1\"><c><v>1</v></c></row><row r=\"2\"><c><v>2</v></c></row><row r=\"3\"/>");
    let (rows, err) = decode_all(&xml, &Vec::new());
    assert_eq!(err, None);
    assert_eq!(rows.len(), 3);
    assert_eq!(rows[0], table(&["1"]));
    assert_eq!(rows[1], table(&["2"]));
    assert!(rows[2].is_empty());
}

#[test]
fn empty_worksheet_has_no_records() {
    let (rows, err) = decode_all(&sheet(""), &Vec::new());
    assert_eq!(err, None);
    assert!(rows.is_empty());
}

#[test]
fn string_cells_resolve_through_table() {
    let strings = table(&["zero", "one", "two"]);
    let xml = sheet("<row><c r=\"A1\" t=\"s\"><v>2</v></c><c r=\"B1\" t=\"s\"><v>0</v></c><c r=\"C1\"><v>42</v></c></row>");
    let (rows, err) = decode_all(&xml, &strings);
    assert_eq!(err, None);
    assert_eq!(rows, vec![table(&["two", "zero", "42"])]);
}

#[test]
fn literal_values_are_unescaped() {
    let xml = sheet("<row><c><v>1&lt;2</v></c><c><v>a&amp;b</v></c></row>");
    let (rows, err) = decode_all(&xml, &Vec::new());
    assert_eq!(err, None);
    assert_eq!(rows, vec![table(&["1<2", "a&b"])]);
}

#[test]
fn quoted_fields_round_trip_through_csv_reader() {
    let xml = sheet("<row><c><v>a</v></c><c><v>b,c</v></c><c><v>d&quot;e</v></c></row>");
    let (rows, err) = decode_all(&xml, &Vec::new());
    assert_eq!(err, None);
    assert_eq!(rows, vec![table(&["a", "b,c", "d\"e"])]);
    let bytes = encode_record(&rows[0]).unwrap();
    assert_eq!(bytes, b"a,\"b,c\",\"d\"\"e\"\n".to_vec());
    let mut rdr = csv::ReaderBuilder::new().has_headers(false).from_reader(&bytes[..]);
    let back: Vec<String> = rdr.records().next().unwrap().unwrap().iter().map(|f| f.to_string()).collect();
    assert_eq!(back, table(&["a", "b,c", "d\"e"]));
}

#[test]
fn plain_record_is_comma_separated() {
    let bytes = encode_record(&table(&["1", "", "x y"])).unwrap();
    assert_eq!(bytes, b"1,,x y\n".to_vec());
}

#[test]
fn field_with_line_break_is_quoted() {
    let bytes = encode_record(&table(&["a\nb", "c"])).unwrap();
    assert_eq!(bytes, b"\"a\nb\",c\n".to_vec());
}

#[test]
fn empty_cell_keeps_column_position() {
    let xml = sheet("<row><c r=\"A1\"><v>1</v></c><c r=\"B1\"/><c r=\"C1\"><v>3</v></c></row>");
    let (rows, err) = decode_all(&xml, &Vec::new());
    assert_eq!(err, None);
    assert_eq!(rows, vec![table(&["1", "", "3"])]);
}

#[test]
fn cell_without_value_is_empty_field() {
    let xml = sheet("<row><c r=\"A1\" s=\"2\"></c><c><v>5</v></c></row>");
    let (rows, err) = decode_all(&xml, &Vec::new());
    assert_eq!(err, None);
    assert_eq!(rows, vec![table(&["", "5"])]);
}

#[test]
fn index_out_of_range_fails_without_partial_row() {
    let strings = table(&["only"]);
    let xml = sheet("<row><c t=\"s\"><v>0</v></c></row><row><c><v>7</v></c><c t=\"s\"><v>1</v></c></row>");
    let (rows, err) = decode_all(&xml, &strings);
    assert_eq!(err, Some(ErrorKind::IndexOutOfRange));
    assert_eq!(rows, vec![table(&["only"])]);
}

#[test]
fn huge_index_is_out_of_range() {
    let strings = table(&["a", "b"]);
    let xml = sheet("<row><c t=\"s\"><v>123456789012345678901234567890</v></c></row>");
    let (rows, err) = decode_all(&xml, &strings);
    assert_eq!(err, Some(ErrorKind::IndexOutOfRange));
    assert!(rows.is_empty());
}

#[test]
fn malformed_index_is_reported() {
    let strings = table(&["a"]);
    let xml = sheet("<row><c t=\"s\"><v>x1</v></c></row>");
    let (rows, err) = decode_all(&xml, &strings);
    assert_eq!(err, Some(ErrorKind::MalformedIndex));
    assert!(rows.is_empty());
}

#[test]
fn typed_cell_without_value_is_malformed_index() {
    let strings = table(&["a"]);
    let xml = sheet("<row><c t=\"s\"></c></row>");
    let (_, err) = decode_all(&xml, &strings);
    assert_eq!(err, Some(ErrorKind::MalformedIndex));
}

#[test]
fn rows_before_malformed_row_are_handed_out_first() {
    let xml = sheet("<row><c><v>1</v></c></row><row><c><v>2</v></c></row><row><c><v>3</v></x></row>");
    let strings = Vec::new();
    let mut rows = SheetRows::new(&xml, &strings);
    assert_eq!(rows.next_row().unwrap(), Some(table(&["1"])));
    assert_eq!(rows.next_row().unwrap(), Some(table(&["2"])));
    let e = rows.next_row().unwrap_err();
    assert_eq!(e.kind(), ErrorKind::Decode);
    assert_eq!(rows.next_row().unwrap(), None);
}

#[test]
fn unterminated_row_is_malformed_document() {
    let xml = "<sheetData><row><c><v>1</v></c></row><row><c><v>2</v></c>";
    let (rows, err) = decode_all(xml, &Vec::new());
    assert_eq!(rows, vec![table(&["1"])]);
    assert_eq!(err, Some(ErrorKind::MalformedDocument));
}

#[test]
fn finished_scan_stays_finished() {
    let strings = Vec::new();
    let xml = sheet("<row><c><v>1</v></c></row>");
    let mut rows = SheetRows::new(&xml, &strings);
    assert_eq!(rows.next_row().unwrap(), Some(table(&["1"])));
    assert_eq!(rows.next_row().unwrap(), None);
    assert_eq!(rows.next_row().unwrap(), None);
}

#[test]
fn part_paths() {
    assert_eq!(shared_strings_part(), "xl/sharedStrings.xml");
    assert_eq!(sheet_part_name("3"), "xl/worksheets/sheet3.xml");
    assert_eq!(sheet_part_name("12"), "xl/worksheets/sheet12.xml");
}

#[test]
fn malformed_cell_attribute_is_decode_error() {
    let xml = sheet("<row><c r=A1><v>1</v></c></row>");
    let (rows, err) = decode_all(&xml, &Vec::new());
    assert_eq!(err, Some(ErrorKind::Decode));
    assert!(rows.is_empty());
}

#[test]
fn type_attribute_before_malformed_one_still_counts() {
    let strings = table(&["s0"]);
    let xml = sheet("<row><c t=\"s\" r=A1><v>0</v></c></row>");
    let (rows, err) = decode_all(&xml, &strings);
    assert_eq!(err, None);
    assert_eq!(rows, vec![table(&["s0"])]);
}

#[test]
fn error_messages_name_their_kind() {
    let strings = table(&["a"]);
    let mut rows = SheetRows::new("<row><c t=\"s\"><v>9</v></c></row>", &strings);
    let e = rows.next_row().unwrap_err();
    assert_eq!(e.message(), "shared-string index out of range: 9");
    let e = xlsx2csv::error::ConvertError::MalformedDocument;
    assert_eq!(e.message(), "malformed document: the worksheet ends inside a row");
}

#[test]
fn index_with_plus_sign_reads_as_index() {
    let strings = table(&["zero", "one"]);
    let xml = sheet("<row><c t=\"s\"><v>+1</v></c></row>");
    let (rows, err) = decode_all(&xml, &strings);
    assert_eq!(err, None);
    assert_eq!(rows, vec![table(&["one"])]);
}

#[test]
fn bare_plus_sign_is_malformed_index() {
    let strings = table(&["zero"]);
    let xml = sheet("<row><c t=\"s\"><v>+</v></c></row>");
    let (_, err) = decode_all(&xml, &strings);
    assert_eq!(err, Some(ErrorKind::MalformedIndex));
}

#[test]
fn shared_strings_match_text_element_by_local_name() {
    let xml = "<x:sst xmlns:x='http://schemas.openxmlformats.org/spreadsheetml/2006/main'><x:si><x:t>p</x:t></x:si></x:sst>";
    assert_eq!(shared_strings(xml).unwrap(), table(&["p"]));
}

#[test]
fn shared_strings_keep_spaces_inside_text_elements() {
    let xml = "<sst>\n  <si><t>x</t></si>\n  <si><t xml:space='preserve'> y </t></si>\n</sst>";
    assert_eq!(shared_strings(xml).unwrap(), table(&["x", " y "]));
}

#[test]
fn shared_strings_take_first_text_of_each_element() {
    let xml = "<sst><si><t>a&amp;b&lt;c&gt;&apos;</t></si><si><t>p<!--c-->q</t></si></sst>";
    assert_eq!(shared_strings(xml).unwrap(), table(&["a&b<c>'", "p"]));
}

#[test]
fn shared_strings_three_entries_with_quoting_characters() {
    let xml = "<sst count='3' uniqueCount='3'><si><t>a</t></si><si><t>b,c</t></si><si><t>d&quot;e</t></si></sst>";
    assert_eq!(shared_strings(xml).unwrap(), table(&["a", "b,c", "d\"e"]));
}

#[test]
fn empty_record_is_written_as_empty_quoted_field() {
    assert_eq!(encode_record(&Vec::new()).unwrap(), b"\"\"\n".to_vec());
    assert_eq!(encode_record(&table(&[""])).unwrap(), b"\"\"\n".to_vec());
    assert_eq!(encode_record(&table(&["", ""])).unwrap(), b",\n".to_vec());
}

#[test]
fn carriage_return_and_non_ascii_fields() {
    assert_eq!(encode_record(&table(&["a\rb", "é"])).unwrap(), "\"a\rb\",é\n".as_bytes().to_vec());
}
