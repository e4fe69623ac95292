//! Verified rules at the boundary of the Poppler document library: what is
//! checked before a document is opened, how native results and error records
//! become values of this crate, and which page lookups may reach the native
//! side at all.
use vstd::prelude::*;

pub mod document;
pub mod error;
pub mod util;

pub use document::{
    page_count_from_native, page_index, permissions_from_native, prepare_open_data,
    prepare_open_file, DataRequest, FileRequest, NATIVE_INT_MAX,
};
pub use error::{Error, FileError, GlibError, NulError};
pub use util::{
    call_with_gerror, first_nul, owned_text, path_to_glib_url, to_c_string,
    to_glib_error, NativeError,
};

verus! {

} // verus!
