use vstd::prelude::*;
use vstd::utf8::{decode_utf8, encode_utf8, encode_utf8_decode_utf8, encode_utf8_valid_utf8, valid_utf8};

use crate::error::{Error, FileError, GlibError, NulError};

verus! {

/// Message of a translated error whose native message is missing or not UTF-8.
pub const INVALID_MESSAGE: &'static str = "Invalid error message";

/// Message of the error made up when a native call failed without a record.
pub const NULL_ERROR_MESSAGE: &'static str = "Error is null";

/// Message of the error for a buffer longer than the native loader accepts.
pub const DATA_TOO_LARGE_MESSAGE: &'static str = "Given data is too large";

/// Message of the error for a path that cannot be resolved.
pub const NOT_FOUND_MESSAGE: &'static str = "Could not turn path into canonical path. Maybe it does not exist?";

/// Message of the error for a URI that is not UTF-8.
pub const NON_UTF8_MESSAGE: &'static str = "Path invalid (contains non-utf8 characters)";

/// Message of the error for a URI that holds a zero byte.
pub const NUL_PATH_MESSAGE: &'static str = "Path invalid (contains NUL characters)";

/// An error record as the native side filled it in: its numeric code and
/// the bytes of its message (`None` where the record holds no message).
#[derive(Clone, Debug)]
pub struct NativeError {
    pub code: i32,
    pub message: Option<Vec<u8>>,
}

/// Whether `b` holds a zero byte.
pub open spec fn has_nul(b: Seq<u8>) -> bool {
    exists|i: int| 0 <= i < b.len() && b[i] == 0
}

/// `p` is the position of the first zero byte of `b`.
pub open spec fn is_first_nul(b: Seq<u8>, p: int) -> bool {
    &&& 0 <= p < b.len()
    &&& b[p] == 0
    &&& forall|i: int| 0 <= i < p ==> b[i] != 0
}

/// The characters that native bytes stand for, where they are valid UTF-8.
pub open spec fn text_of(b: Seq<u8>) -> Option<Seq<char>> {
    if valid_utf8(b) {
        Some(decode_utf8(b))
    } else {
        None
    }
}

/// The text that a native accessor's result stands for: nothing for no
/// result, and for bytes what `text_of` gives.
pub open spec fn native_text(raw: Option<Seq<u8>>) -> Option<Seq<char>> {
    match raw {
        Some(b) => text_of(b),
        None => None,
    }
}

pub open spec fn opt_bytes(v: Option<Vec<u8>>) -> Option<Seq<u8>> {
    match v {
        Some(b) => Some(b@),
        None => None,
    }
}

pub open spec fn opt_chars(s: Option<String>) -> Option<Seq<char>> {
    match s {
        Some(t) => Some(t@),
        None => None,
    }
}

/// The code of the error that a native record, or its absence, translates to.
pub open spec fn spec_error_code(e: Option<NativeError>) -> i32 {
    match e {
        Some(n) => FileError::spec_normalized_code(n.code),
        None => FileError::spec_normalized_code(0),
    }
}

/// The message of the error that a native record, or its absence, translates to.
pub open spec fn spec_error_message(e: Option<NativeError>) -> Seq<char> {
    match e {
        Some(n) => match n.message {
            Some(b) => if valid_utf8(b@) {
                decode_utf8(b@)
            } else {
                INVALID_MESSAGE@
            },
            None => INVALID_MESSAGE@,
        },
        None => NULL_ERROR_MESSAGE@,
    }
}

/// `g` is the translation of the native record `e`.
pub open spec fn is_translation(g: GlibError, e: Option<NativeError>) -> bool {
    &&& g.kind.spec_code() == spec_error_code(e)
    &&& g.message@ == spec_error_message(e)
}

/// Relies on `String::from_utf8`: it accepts exactly the valid UTF-8
/// byte strings and then holds the characters they encode.
#[verifier::external_body]
fn string_from_utf8(bytes: &[u8]) -> (r: Option<String>)
    ensures
        r.is_some() == valid_utf8(bytes@),
        opt_chars(r) == text_of(bytes@),
{
    String::from_utf8(bytes.to_vec()).ok()
}

/// An owned copy of `b`.
pub fn bytes_to_vec(b: &[u8]) -> (r: Vec<u8>)
    ensures
        r@ == b@,
{
    let mut r: Vec<u8> = Vec::new();
    let mut i: usize = 0;
    while i < b.len()
        invariant
            i <= b.len(),
            r@ == b@.subrange(0, i as int),
        decreases b.len() - i,
    {
        r.push(b[i]);
        i = i + 1;
    }
    assert(r@ =~= b@);
    r
}

/// The position of the first zero byte of `b`, if it holds one.
pub fn first_nul(b: &[u8]) -> (r: Option<usize>)
    ensures
        match r {
            Some(p) => is_first_nul(b@, p as int),
            None => !has_nul(b@),
        },
{
    let mut i: usize = 0;
    while i < b.len()
        invariant
            i <= b.len(),
            forall|j: int| 0 <= j < i ==> b@[j] != 0,
        decreases b.len() - i,
    {
        if b[i] == 0 {
            return Some(i);
        }
        i = i + 1;
    }
    None
}

/// `bytes` as a zero-terminated C string, or the position of the zero byte
/// that it already holds, which a C string cannot carry.
pub fn to_c_string(bytes: &[u8]) -> (r: Result<Vec<u8>, NulError>)
    ensures
        match r {
            Ok(v) => !has_nul(bytes@) && v@ == bytes@.push(0),
            Err(e) => is_first_nul(bytes@, e.position as int) && e.bytes@ == bytes@,
        },
{
    match first_nul(bytes) {
        Some(p) => Err(NulError { position: p, bytes: bytes_to_vec(bytes) }),
        None => {
            let mut v = bytes_to_vec(bytes);
            v.push(0);
            Ok(v)
        },
    }
}

/// The owned text of a native string: nothing where the native side gave
/// none or where its bytes are not UTF-8.
pub fn owned_text(raw: Option<Vec<u8>>) -> (r: Option<String>)
    ensures
        opt_chars(r) == native_text(opt_bytes(raw)),
{
    match raw {
        Some(b) => string_from_utf8(b.as_slice()),
        None => None,
    }
}

/// Translates a native error record into an error of this crate. A missing
/// record gives the error for code 0 with a fixed message; an unknown code
/// is read as `Failed`, a missing or non-UTF-8 message as a fixed one.
pub fn to_glib_error(e: Option<NativeError>) -> (r: GlibError)
    ensures
        is_translation(r, e),
{
    match e {
        Some(n) => {
            let kind = FileError::from_code(n.code);
            let message = match n.message {
                Some(b) => match string_from_utf8(b.as_slice()) {
                    Some(s) => s,
                    None => INVALID_MESSAGE.to_owned(),
                },
                None => INVALID_MESSAGE.to_owned(),
            };
            GlibError { kind, message }
        },
        None => GlibError { kind: FileError::from_code(0), message: NULL_ERROR_MESSAGE.to_owned() },
    }
}

/// `r` is what a native call's outcome `o` gives: its result, or else the
/// translation of the error record that came with nothing.
pub open spec fn gerror_outcome<T>(o: (Option<T>, Option<NativeError>), r: Result<T, GlibError>) -> bool {
    match o.0 {
        Some(h) => r == Ok::<T, GlibError>(h),
        None => match r {
            Err(g) => is_translation(g, o.1),
            Ok(_) => false,
        },
    }
}

/// Runs a native call that hands back a result, or nothing together with
/// the error record it filled in, and turns a failure into the translation
/// of that record. The record is looked at only when no result came back.
pub fn call_with_gerror<T, F: FnOnce() -> (Option<T>, Option<NativeError>)>(f: F) -> (r: Result<T, GlibError>)
    requires
        f.requires(()),
    ensures
        exists|o: (Option<T>, Option<NativeError>)| #[trigger] f.ensures((), o) && gerror_outcome(o, r),
{
    let outcome = f();
    let ghost o = outcome;
    let r = match outcome {
        (Some(h), _) => Ok(h),
        (None, error) => Err(to_glib_error(error)),
    };
    assert(f.ensures((), o) && gerror_outcome(o, r));
    r
}

/// A native string that holds the UTF-8 encoding of a text is read back as
/// exactly that text.
pub proof fn lemma_text_of_encoding(s: Seq<char>)
    ensures
        text_of(encode_utf8(s)) == Some(s),
        native_text(Some(encode_utf8(s))) == Some(s),
{
    encode_utf8_valid_utf8(s);
    encode_utf8_decode_utf8(s);
}

/// A native record whose code is that of a kind, and whose message is the
/// UTF-8 encoding of a text, translates to that kind and that text.
pub proof fn lemma_translation_keeps_known_record(k: FileError, text: Seq<char>, e: NativeError, g: GlibError)
    requires
        e.code == k.spec_code(),
        opt_bytes(e.message) == Some(encode_utf8(text)),
        is_translation(g, Some(e)),
    ensures
        g@ == (k, text),
{
    encode_utf8_valid_utf8(text);
    encode_utf8_decode_utf8(text);
    crate::error::lemma_code_injective(g.kind, k);
}

/// The scheme prefix of a local file's URI, `file:///`.
pub open spec fn file_uri_prefix() -> Seq<u8> {
    seq![102u8, 105u8, 108u8, 101u8, 58u8, 47u8, 47u8, 47u8]
}

/// The URI of a local file at the canonical path `p`.
pub open spec fn file_uri(p: Seq<u8>) -> Seq<u8> {
    file_uri_prefix() + p
}

/// What resolving a file for the native loader gives: the zero-terminated
/// URI of the canonical path `canonical`, or the kind and message of the
/// error that stops it.
pub open spec fn spec_url(canonical: Option<Seq<u8>>) -> Result<Seq<u8>, (FileError, Seq<char>)> {
    match canonical {
        None => Err((FileError::Noent, NOT_FOUND_MESSAGE@)),
        Some(p) => if !valid_utf8(file_uri(p)) {
            Err((FileError::Inval, NON_UTF8_MESSAGE@))
        } else if has_nul(file_uri(p)) {
            Err((FileError::Inval, NUL_PATH_MESSAGE@))
        } else {
            Ok(file_uri(p).push(0))
        },
    }
}

/// The zero-terminated URI under which the native loader opens the file
/// whose canonical path is `canonical` (`None` where the path could not be
/// resolved).
pub fn path_to_glib_url(canonical: Option<Vec<u8>>) -> (r: Result<Vec<u8>, GlibError>)
    ensures
        match r {
            Ok(v) => spec_url(opt_bytes(canonical)) == Ok::<Seq<u8>, (FileError, Seq<char>)>(v@),
            Err(g) => spec_url(opt_bytes(canonical)) == Err::<Seq<u8>, (FileError, Seq<char>)>(g@),
        },
{
    match canonical {
        None => Err(GlibError { kind: FileError::Noent, message: NOT_FOUND_MESSAGE.to_owned() }),
        Some(p) => {
            let mut url: Vec<u8> = vec![102u8, 105u8, 108u8, 101u8, 58u8, 47u8, 47u8, 47u8];
            let mut rest = p;
            url.append(&mut rest);
            assert(url@ =~= file_uri(p@));
            if string_from_utf8(url.as_slice()).is_none() {
                return Err(GlibError { kind: FileError::Inval, message: NON_UTF8_MESSAGE.to_owned() });
            }
            match to_c_string(url.as_slice()) {
                Ok(v) => Ok(v),
                Err(_) => Err(GlibError { kind: FileError::Inval, message: NUL_PATH_MESSAGE.to_owned() }),
            }
        },
    }
}

} // verus!
