use vstd::prelude::*;
use vstd::string::StringSliceAdditionalSpecFns;

use vstd::utf8::valid_utf8;

use crate::error::{Error, FileError, GlibError, NulError};
use crate::util::{
    file_uri, has_nul, is_first_nul, opt_bytes, path_to_glib_url, spec_url, to_c_string,
    DATA_TOO_LARGE_MESSAGE,
};

verus! {

/// The largest value of the native `int` type, which carries buffer
/// lengths and page indices across the boundary.
pub const NATIVE_INT_MAX: usize = 0x7fff_ffff;

/// What the native loader is handed to open a file: its zero-terminated
/// URI and the zero-terminated password.
#[derive(Clone, Debug)]
pub struct FileRequest {
    pub uri: Vec<u8>,
    pub password: Vec<u8>,
}

/// What the native loader is handed, besides the buffer itself, to open a
/// document held in memory: the buffer's length and the zero-terminated
/// password.
#[derive(Clone, Debug)]
pub struct DataRequest {
    pub length: i32,
    pub password: Vec<u8>,
}

/// `e` reports the first zero byte of the password bytes `pw`.
pub open spec fn reports_nul(e: NulError, pw: Seq<u8>) -> bool {
    is_first_nul(pw, e.position as int) && e.bytes@ == pw
}

/// A load of the file at `canonical` with password bytes `pw` passes every
/// check and goes on to the native loader.
pub open spec fn file_load_accepted(canonical: Option<Seq<u8>>, pw: Seq<u8>) -> bool {
    !has_nul(pw) && spec_url(canonical) is Ok
}

/// A load of the buffer `data` with password bytes `pw` passes every check
/// and goes on to the native loader.
pub open spec fn data_load_accepted(data: Seq<u8>, pw: Seq<u8>) -> bool {
    0 < data.len() <= NATIVE_INT_MAX && !has_nul(pw)
}

/// Checks a request to open the file at `canonical` (its canonical path, or
/// `None` where it could not be resolved) with `password`. The password is
/// checked first, then the path.
pub fn prepare_open_file(canonical: Option<Vec<u8>>, password: &str) -> (r: Result<FileRequest, Error>)
    ensures
        match r {
            Ok(q) => {
                &&& !has_nul(password.spec_bytes())
                &&& spec_url(opt_bytes(canonical)) == Ok::<Seq<u8>, (FileError, Seq<char>)>(q.uri@)
                &&& q.password@ == password.spec_bytes().push(0)
            },
            Err(Error::NullError(e)) => reports_nul(e, password.spec_bytes()),
            Err(Error::GlibError(g)) => {
                &&& !has_nul(password.spec_bytes())
                &&& spec_url(opt_bytes(canonical)) == Err::<Seq<u8>, (FileError, Seq<char>)>(g@)
            },
            Err(Error::EmptyData) => false,
        },
        r is Ok <==> file_load_accepted(opt_bytes(canonical), password.spec_bytes()),
{
    let pass = match to_c_string(password.as_bytes()) {
        Ok(v) => v,
        Err(e) => return Err(Error::NullError(e)),
    };
    match path_to_glib_url(canonical) {
        Ok(uri) => Ok(FileRequest { uri, password: pass }),
        Err(g) => Err(Error::GlibError(g)),
    }
}

/// Checks a request to open the document held in `data` with `password`.
/// An empty buffer is refused whatever the password, before anything else;
/// then a password that holds a zero byte; then a buffer longer than the
/// native length type can carry.
pub fn prepare_open_data(data: &[u8], password: &str) -> (r: Result<DataRequest, Error>)
    ensures
        match r {
            Ok(q) => {
                &&& data_load_accepted(data@, password.spec_bytes())
                &&& q.length as int == data@.len()
                &&& q.password@ == password.spec_bytes().push(0)
            },
            Err(Error::EmptyData) => data@.len() == 0,
            Err(Error::NullError(e)) => {
                &&& 0 < data@.len()
                &&& reports_nul(e, password.spec_bytes())
            },
            Err(Error::GlibError(g)) => {
                &&& data@.len() > NATIVE_INT_MAX
                &&& !has_nul(password.spec_bytes())
                &&& g@ == (FileError::Inval, DATA_TOO_LARGE_MESSAGE@)
            },
        },
        r is Ok <==> data_load_accepted(data@, password.spec_bytes()),
{
    if data.len() == 0 {
        return Err(Error::EmptyData);
    }
    let pass = match to_c_string(password.as_bytes()) {
        Ok(v) => v,
        Err(e) => return Err(Error::NullError(e)),
    };
    if data.len() > NATIVE_INT_MAX {
        return Err(Error::GlibError(GlibError { kind: FileError::Inval, message: DATA_TOO_LARGE_MESSAGE.to_owned() }));
    }
    Ok(DataRequest { length: data.len() as i32, password: pass })
}

/// A buffer that is not empty, fits the native length type and comes with a
/// password free of zero bytes is handed on to the native loader, with its
/// exact length; an empty one never is. A document loaded from it whose
/// native page count is `raw_count` reports exactly that many pages.
pub proof fn lemma_data_load_proceeds(data: Seq<u8>, pw: Seq<u8>, raw_count: i32)
    requires
        0 < data.len() <= NATIVE_INT_MAX,
        !has_nul(pw),
        raw_count >= 0,
    ensures
        data_load_accepted(data, pw),
        !data_load_accepted(Seq::<u8>::empty(), pw),
        spec_page_count(raw_count) as int == raw_count as int,
{
}

/// A path that cannot be resolved never reaches the native loader; one whose
/// URI is UTF-8 without a zero byte does, under exactly that URI.
pub proof fn lemma_file_load_proceeds(p: Seq<u8>, pw: Seq<u8>)
    requires
        !has_nul(pw),
        valid_utf8(file_uri(p)),
        !has_nul(file_uri(p)),
    ensures
        !file_load_accepted(None, pw),
        file_load_accepted(Some(p), pw),
        spec_url(Some(p)) == Ok::<Seq<u8>, (FileError, Seq<char>)>(file_uri(p).push(0)),
{
}

/// The page count that the native count `raw` stands for; the native side
/// never reports a negative count, and one would count as no page.
pub open spec fn spec_page_count(raw: i32) -> usize {
    if raw < 0 {
        0
    } else {
        raw as usize
    }
}

/// The number of pages of a document, from the native count.
pub fn page_count_from_native(raw: i32) -> (r: usize)
    ensures
        r == spec_page_count(raw),
        r <= NATIVE_INT_MAX,
{
    if raw < 0 {
        0
    } else {
        raw as usize
    }
}

/// The permission flags of a document: the low byte of the native value.
pub fn permissions_from_native(raw: u32) -> (r: u8)
    ensures
        r as int == raw as int % 256,
{
    (raw % 256) as u8
}

/// The native index under which page `index` of a document with `n_pages`
/// pages is looked up, or `None` where no such page exists.
pub open spec fn spec_page_index(index: usize, n_pages: usize) -> Option<i32> {
    if index < n_pages && index <= NATIVE_INT_MAX {
        Some(index as i32)
    } else {
        None
    }
}

/// The native index to look page `index` up under; `None` for an index out
/// of range, which then never reaches the native side.
pub fn page_index(index: usize, n_pages: usize) -> (r: Option<i32>)
    ensures
        r == spec_page_index(index, n_pages),
{
    if index < n_pages && index <= NATIVE_INT_MAX {
        Some(index as i32)
    } else {
        None
    }
}

/// For every native page count and every index at or past the count it
/// stands for, the lookup yields no page.
pub proof fn lemma_page_out_of_range(raw_count: i32, index: usize)
    requires
        index >= spec_page_count(raw_count),
    ensures
        spec_page_index(index, spec_page_count(raw_count)) is None,
{
}

/// Every page below the count is looked up under its own index.
pub proof fn lemma_page_in_range(raw_count: i32, index: usize)
    requires
        index < spec_page_count(raw_count),
    ensures
        spec_page_index(index, spec_page_count(raw_count)) == Some(index as i32),
        index as i32 as int == index as int,
{
}

} // verus!
