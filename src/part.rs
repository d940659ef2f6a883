use vstd::prelude::*;
use std::io::{Cursor, Read};
use zip::result::ZipError;
use zip::ZipArchive;
use vstd::string::StringExecFns;
use crate::error::{ConvertError, ErrorKind};
use crate::index::texts;
use crate::shared::{shared_strings, shared_table_of};

verus! {

/// What the zip crate reads from an archive held in memory under a part name:
/// `None` where the bytes are no readable archive or the part cannot be read
/// as text, `Some(None)` where the archive has no such part, else the part's text.
pub uninterp spec fn zip_part(archive: Seq<u8>, name: Seq<char>) -> Option<Option<Seq<char>>>;

/// Relies on zip's `ZipArchive::new`, `ZipArchive::by_name_decrypt` (which, unlike
/// `by_name`, reports an entry it cannot open instead of panicking; the empty
/// password is dropped for an entry that is not encrypted) and `Read::read_to_string`
/// on the entry: the text of one part, with a missing part told apart.
#[verifier::external_body]
fn read_zip_part(archive: &Vec<u8>, name: &str) -> (r: Result<Option<String>, String>)
    ensures
        r matches Err(_) ==> zip_part(archive@, name@) is None,
        r matches Ok(None) ==> zip_part(archive@, name@) == Some(None::<Seq<char>>),
        r matches Ok(Some(t)) ==> zip_part(archive@, name@) == Some(Some(t@)),
{
    let mut zip = ZipArchive::new(Cursor::new(archive.as_slice())).map_err(|e| e.to_string())?;
    let mut entry = match zip.by_name_decrypt(name, b"") {
        Ok(Ok(f)) => f,
        Ok(Err(e)) => return Err(e.to_string()),
        Err(ZipError::FileNotFound) => return Ok(None),
        Err(e) => return Err(e.to_string()),
    };
    let mut text = String::new();
    entry.read_to_string(&mut text).map_err(|e| e.to_string())?;
    Ok(Some(text))
}

pub open spec fn shared_strings_path() -> Seq<char> {
    "xl/sharedStrings.xml"@
}

pub open spec fn sheet_path(sheet: Seq<char>) -> Seq<char> {
    "xl/worksheets/sheet"@ + sheet + ".xml"@
}

/// The text of a part, or the kind of failure that looking it up ends with;
/// `missing` is the kind for an archive that lacks the part.
pub open spec fn part_text(lookup: Option<Option<Seq<char>>>, missing: ErrorKind) -> Result<Seq<char>, ErrorKind> {
    match lookup {
        None => Err(ErrorKind::Archive),
        Some(None) => Err(missing),
        Some(Some(t)) => Ok(t),
    }
}

pub open spec fn text_result(r: Result<String, ConvertError>) -> Result<Seq<char>, ErrorKind> {
    match r {
        Ok(t) => Ok(t@),
        Err(e) => Err(e.kind()),
    }
}

/// Looking up a worksheet part.
pub open spec fn sheet_lookup(archive: Seq<u8>, sheet: Seq<char>) -> Result<Seq<char>, ErrorKind> {
    part_text(zip_part(archive, sheet_path(sheet)), ErrorKind::SheetNotFound)
}

/// Looking up the shared-string part.
pub open spec fn shared_lookup(archive: Seq<u8>) -> Result<Seq<char>, ErrorKind> {
    part_text(zip_part(archive, shared_strings_path()), ErrorKind::Archive)
}

/// The path of the shared-string part inside an xlsx archive.
pub fn shared_strings_part() -> (r: String)
    ensures
        r@ == shared_strings_path(),
{
    String::from_str("xl/sharedStrings.xml")
}

/// The path of the worksheet part for a sheet number, given as text.
pub fn sheet_part_name(sheet: &str) -> (r: String)
    ensures
        r@ == sheet_path(sheet@),
{
    let mut p = String::from_str("xl/worksheets/sheet");
    p.append(sheet);
    p.append(".xml");
    p
}

/// Reads the text of a part; `missing` is the failure for an archive without it.
fn part_of(archive: &Vec<u8>, name: &str, missing: ConvertError) -> (r: Result<String, ConvertError>)
    ensures
        text_result(r) == part_text(zip_part(archive@, name@), missing.kind()),
{
    match read_zip_part(archive, name) {
        Ok(Some(t)) => Ok(t),
        Ok(None) => Err(missing),
        Err(m) => Err(ConvertError::Archive(m)),
    }
}

/// The XML text of the shared-string part; an archive without one fails as a
/// broken archive.
pub fn shared_strings_xml(archive: &Vec<u8>) -> (r: Result<String, ConvertError>)
    ensures
        text_result(r) == shared_lookup(archive@),
{
    let name = shared_strings_part();
    part_of(archive, name.as_str(), ConvertError::Archive(String::from_str("the archive has no shared-string part")))
}

/// The XML text of the worksheet with the given number; a number without a
/// worksheet part fails with `SheetNotFound`.
pub fn worksheet_xml(archive: &Vec<u8>, sheet: &str) -> (r: Result<String, ConvertError>)
    ensures
        text_result(r) == sheet_lookup(archive@, sheet@),
{
    let name = sheet_part_name(sheet);
    let mut what = String::from_str("sheet ");
    what.append(sheet);
    part_of(archive, name.as_str(), ConvertError::SheetNotFound(what))
}

/// Everything a conversion needs before its first row: the worksheet's XML text
/// and the shared-string table. The worksheet is looked up first, so a missing
/// sheet fails with `SheetNotFound` before anything is decoded or written.
pub fn open_conversion(archive: &Vec<u8>, sheet: &str) -> (r: Result<(String, Vec<String>), ConvertError>)
    ensures
        sheet_lookup(archive@, sheet@) is Err ==> r is Err && r->Err_0.kind() == sheet_lookup(
            archive@,
            sheet@,
        )->Err_0,
        (sheet_lookup(archive@, sheet@) is Ok && shared_lookup(archive@) is Err) ==> r is Err
            && r->Err_0.kind() == shared_lookup(archive@)->Err_0,
        r matches Ok((x, _)) ==> sheet_lookup(archive@, sheet@) == Ok::<Seq<char>, ErrorKind>(x@),
        r is Ok ==> shared_lookup(archive@) is Ok,
        r matches Ok((_, t)) ==> shared_table_of(shared_lookup(archive@)->Ok_0) == Ok::<
            Seq<Seq<char>>,
            ErrorKind,
        >(texts(t@)),
        (sheet_lookup(archive@, sheet@) is Ok && shared_lookup(archive@) is Ok) ==> (r is Ok
            <==> shared_table_of(shared_lookup(archive@)->Ok_0) is Ok),
        (sheet_lookup(archive@, sheet@) is Ok && shared_lookup(archive@) is Ok && r is Err) ==> r->Err_0.kind()
            == shared_table_of(shared_lookup(archive@)->Ok_0)->Err_0,
{
    let sheet_xml = worksheet_xml(archive, sheet)?;
    let strings_xml = shared_strings_xml(archive)?;
    let strings = shared_strings(strings_xml.as_str())?;
    Ok((sheet_xml, strings))
}

} // verus!
