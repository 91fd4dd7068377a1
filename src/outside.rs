//! Calls into code this library relies on without proving: byte search,
//! path manipulation and zip archive reading.

use vstd::prelude::*;

use memmem::Searcher;
use std::io::Read;

verus! {

/// `needle` occurs in `hay` starting at index `i`.
pub open spec fn occurs_at(hay: Seq<u8>, needle: Seq<u8>, i: int) -> bool {
    0 <= i && i + needle.len() <= hay.len() && hay.subrange(i, i + needle.len()) == needle
}

/// `needle` occurs somewhere in `hay`.
pub open spec fn contains_bytes(hay: Seq<u8>, needle: Seq<u8>) -> bool {
    exists|i: int| occurs_at(hay, needle, i)
}

/// Relies on memmem::TwoWaySearcher::search_in: the starting index of a match
/// of the needle, or `None` when the needle does not occur.
#[verifier::external_body]
pub(crate) fn search_bytes(hay: &Vec<u8>, needle: &Vec<u8>) -> (r: Option<usize>)
    ensures
        match r {
            Some(i) => occurs_at(hay@, needle@, i as int),
            None => !contains_bytes(hay@, needle@),
        },
{
    memmem::TwoWaySearcher::new(needle.as_slice()).search_in(hay.as_slice())
}

/// The extension of the last component of a path, as `Path::extension` gives it.
pub uninterp spec fn extension_of(path: Seq<char>) -> Option<Seq<char>>;

/// The path with its extension replaced, as `Path::with_extension` gives it.
pub uninterp spec fn with_extension_of(path: Seq<char>, ext: Seq<char>) -> Seq<char>;

/// Relies on std::path::Path::extension: the text after the last dot of the
/// file name, if it has one.
#[verifier::external_body]
pub(crate) fn path_extension(path: &str) -> (r: Option<String>)
    ensures
        match r {
            Some(e) => extension_of(path@) == Some(e@),
            None => extension_of(path@).is_none(),
        },
{
    match std::path::Path::new(path).extension() {
        Some(e) => Some(e.to_string_lossy().into_owned()),
        None => None,
    }
}

/// Relies on std::path::Path::with_extension: the path with the extension of
/// its file name replaced by `ext`. It panics on an extension that holds a
/// path separator, which `requires` leaves out.
#[verifier::external_body]
pub(crate) fn path_with_extension(path: &str, ext: &str) -> (r: String)
    requires
        forall|i: int| 0 <= i < ext@.len() ==> ext@[i] != '/' && ext@[i] != '\\',
    ensures
        r@ == with_extension_of(path@, ext@),
{
    std::path::Path::new(path).with_extension(ext).to_string_lossy().into_owned()
}

/// Number of entries in a zip archive, or the message of the error that
/// reading it as one gives.
pub uninterp spec fn zip_entry_count(archive: Seq<u8>) -> Result<nat, Seq<char>>;

/// UTF-8 bytes of the name of entry `i` of a zip archive, or the message of
/// the error that reading it gives.
pub uninterp spec fn zip_entry_name(archive: Seq<u8>, i: int) -> Result<Seq<u8>, Seq<char>>;

/// Uncompressed contents of entry `i` of a zip archive, or the message of the
/// error that reading them gives.
pub uninterp spec fn zip_entry_data(archive: Seq<u8>, i: int) -> Result<Seq<u8>, Seq<char>>;

/// Relies on zip::ZipArchive::new and ZipArchive::len: the number of entries
/// in the archive's central directory, or the error's message.
#[verifier::external_body]
pub(crate) fn zip_len(archive: &Vec<u8>) -> (r: Result<usize, String>)
    ensures
        match r {
            Ok(n) => zip_entry_count(archive@) == Ok::<nat, Seq<char>>(n as nat),
            Err(m) => zip_entry_count(archive@) == Err::<nat, Seq<char>>(m@),
        },
{
    match zip::ZipArchive::new(std::io::Cursor::new(archive.as_slice())) {
        Ok(a) => Ok(a.len()),
        Err(e) => Err(e.to_string()),
    }
}

/// Relies on zip::ZipArchive::by_index and ZipFile::name: the name of entry
/// `i`, as UTF-8 bytes, or the error's message.
#[verifier::external_body]
pub(crate) fn zip_name(archive: &Vec<u8>, i: usize) -> (r: Result<Vec<u8>, String>)
    ensures
        match r {
            Ok(n) => zip_entry_name(archive@, i as int) == Ok::<Seq<u8>, Seq<char>>(n@),
            Err(m) => zip_entry_name(archive@, i as int) == Err::<Seq<u8>, Seq<char>>(m@),
        },
{
    let mut a = match zip::ZipArchive::new(std::io::Cursor::new(archive.as_slice())) {
        Ok(a) => a,
        Err(e) => return Err(e.to_string()),
    };
    let f = match a.by_index(i) {
        Ok(f) => f,
        Err(e) => return Err(e.to_string()),
    };
    let r = match f.name() {
        Ok(n) => Ok(n.as_bytes().to_vec()),
        Err(e) => Err(e.to_string()),
    };
    r
}

/// Relies on zip::ZipArchive::by_index and Read::read_to_end on the entry:
/// the uncompressed contents of entry `i`, or the error's message.
#[verifier::external_body]
pub(crate) fn zip_data(archive: &Vec<u8>, i: usize) -> (r: Result<Vec<u8>, String>)
    ensures
        match r {
            Ok(d) => zip_entry_data(archive@, i as int) == Ok::<Seq<u8>, Seq<char>>(d@),
            Err(m) => zip_entry_data(archive@, i as int) == Err::<Seq<u8>, Seq<char>>(m@),
        },
{
    let mut a = match zip::ZipArchive::new(std::io::Cursor::new(archive.as_slice())) {
        Ok(a) => a,
        Err(e) => return Err(e.to_string()),
    };
    let mut f = match a.by_index(i) {
        Ok(f) => f,
        Err(e) => return Err(e.to_string()),
    };
    let mut buf = Vec::new();
    match f.read_to_end(&mut buf) {
        Ok(_) => Ok(buf),
        Err(e) => Err(e.to_string()),
    }
}

} // verus!
