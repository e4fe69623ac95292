use poppler_rs::util::{
    INVALID_MESSAGE, NON_UTF8_MESSAGE, NOT_FOUND_MESSAGE, NUL_PATH_MESSAGE, NULL_ERROR_MESSAGE,
};
use poppler_rs::{
    call_with_gerror, first_nul, owned_text, page_count_from_native, page_index,
    path_to_glib_url, permissions_from_native, prepare_open_data, prepare_open_file, to_c_string,
    to_glib_error, Error, FileError, NativeError,
};

#[test]
fn create_document_from_data_failure() {
    let data: Vec<u8> = vec![];
    let file = prepare_open_data(&data[..], "");
    assert!(file.is_err());
}

#[test]
fn create_document_from_path_failure() {
    // "NOFILE.pdf" does not exist, so it has no canonical path.
    let file = prepare_open_file(None, "");
    assert!(file.is_err());
}

#[test]
fn test3() {
    let mut data: Vec<u8> = vec![];
    assert!(prepare_open_data(&mut data[..], "upw").is_err());
}

#[test]
fn empty_data_is_refused_whatever_the_password() {
    for pw in ["", "upw", "a\0b"] {
        assert!(matches!(prepare_open_data(&[], pw), Err(Error::EmptyData)));
    }
}

#[test]
fn data_request_carries_length_and_password() {
    let data = b"%PDF-1.3 body";
    let q = prepare_open_data(&data[..], "upw").unwrap();
    assert_eq!(q.length, 13);
    assert_eq!(q.password, b"upw\0".to_vec());
}

#[test]
fn data_request_refuses_nul_in_password() {
    match prepare_open_data(b"x", "ab\0c\0") {
        Err(Error::NullError(e)) => {
            assert_eq!(e.position, 2);
            assert_eq!(e.bytes, b"ab\0c\0".to_vec());
        }
        _ => panic!("expected a NUL error"),
    }
}

#[test]
fn data_request_checks_password_after_emptiness() {
    assert!(matches!(prepare_open_data(b"%PDF", "\0"), Err(Error::NullError(_))));
    assert!(matches!(prepare_open_data(b"", "\0"), Err(Error::EmptyData)));
}

#[test]
fn file_request_checks_password_before_path() {
    assert!(matches!(prepare_open_file(None, "\0"), Err(Error::NullError(_))));
    match prepare_open_file(None, "upw") {
        Err(Error::GlibError(g)) => {
            assert_eq!(g.kind, FileError::Noent);
            assert_eq!(g.message, NOT_FOUND_MESSAGE);
        }
        _ => panic!("expected a path error"),
    }
}

#[test]
fn file_request_builds_uri() {
    let q = prepare_open_file(Some(b"/home/u/text.pdf".to_vec()), "").unwrap();
    assert_eq!(q.uri, b"file:////home/u/text.pdf\0".to_vec());
    assert_eq!(q.password, vec![0u8]);
}

#[test]
fn url_of_missing_path() {
    let g = path_to_glib_url(None).unwrap_err();
    assert_eq!(g.kind, FileError::Noent);
    assert_eq!(g.message, NOT_FOUND_MESSAGE);
}

#[test]
fn url_of_non_utf8_path() {
    let g = path_to_glib_url(Some(vec![b'/', 0xff, b'a'])).unwrap_err();
    assert_eq!(g.kind, FileError::Inval);
    assert_eq!(g.message, NON_UTF8_MESSAGE);
}

#[test]
fn url_of_path_with_nul() {
    let g = path_to_glib_url(Some(b"/a\0b".to_vec())).unwrap_err();
    assert_eq!(g.kind, FileError::Inval);
    assert_eq!(g.message, NUL_PATH_MESSAGE);
}

#[test]
fn url_of_unicode_path() {
    let u = path_to_glib_url(Some("/tmp/é.pdf".as_bytes().to_vec())).unwrap();
    assert_eq!(u, "file:////tmp/é.pdf\0".as_bytes().to_vec());
}

#[test]
fn missing_error_record() {
    let g = to_glib_error(None);
    assert_eq!(g.kind, FileError::Exist);
    assert_eq!(g.message, NULL_ERROR_MESSAGE);
}

#[test]
fn error_record_with_known_code() {
    let g = to_glib_error(Some(NativeError { code: 4, message: Some(b"no such file".to_vec()) }));
    assert_eq!(g.kind, FileError::Noent);
    assert_eq!(g.message, "no such file");
}

#[test]
fn error_record_with_unknown_code() {
    for code in [-1, 25, 1000] {
        let g = to_glib_error(Some(NativeError { code, message: Some(b"x".to_vec()) }));
        assert_eq!(g.kind, FileError::Failed);
    }
}

#[test]
fn error_record_with_bad_message() {
    let g = to_glib_error(Some(NativeError { code: 1, message: Some(vec![0xc3]) }));
    assert_eq!(g.kind, FileError::Isdir);
    assert_eq!(g.message, INVALID_MESSAGE);
    let g = to_glib_error(Some(NativeError { code: 1, message: None }));
    assert_eq!(g.message, INVALID_MESSAGE);
}

#[test]
fn error_record_with_unicode_message() {
    let g = to_glib_error(Some(NativeError { code: 24, message: Some("mot de passe erroné".as_bytes().to_vec()) }));
    assert_eq!(g.kind, FileError::Failed);
    assert_eq!(g.message, "mot de passe erroné");
}

#[test]
fn file_error_codes_round_trip() {
    for code in 0..25 {
        assert_eq!(FileError::from_code(code).code(), code);
    }
    assert_eq!(FileError::from_code(17), FileError::Inval);
    assert_eq!(FileError::Failed.code(), 24);
}

#[test]
fn call_with_gerror_outcomes() {
    let rec = NativeError { code: 4, message: Some(b"No such file".to_vec()) };
    assert_eq!(call_with_gerror(|| (Some(7u8), None)).unwrap(), 7);
    assert_eq!(call_with_gerror(|| (Some(7u8), Some(rec.clone()))).unwrap(), 7);
    let g = call_with_gerror(|| (None::<u8>, Some(rec))).unwrap_err();
    assert_eq!(g.kind, FileError::Noent);
    assert_eq!(g.message, "No such file");
    let g = call_with_gerror(|| (None::<u8>, None)).unwrap_err();
    assert_eq!(g.kind, FileError::Exist);
    assert_eq!(g.message, NULL_ERROR_MESSAGE);
}

#[test]
fn page_count_values() {
    assert_eq!(page_count_from_native(1), 1);
    assert_eq!(page_count_from_native(0), 0);
    assert_eq!(page_count_from_native(-3), 0);
    assert_eq!(page_count_from_native(i32::MAX), i32::MAX as usize);
}

#[test]
fn permissions_values() {
    assert_eq!(permissions_from_native(0xff), 0xff);
    assert_eq!(permissions_from_native(0x1ff), 0xff);
    assert_eq!(permissions_from_native(0x100), 0);
}

#[test]
fn page_index_in_and_out_of_range() {
    assert_eq!(page_index(0, 1), Some(0));
    assert_eq!(page_index(1, 1), None);
    assert_eq!(page_index(0, 0), None);
    assert_eq!(page_index(usize::MAX, usize::MAX), None);
    assert_eq!(page_index(1usize << 32, usize::MAX), None);
    assert_eq!(page_index(41, 42), Some(41));
}

#[test]
fn native_text_values() {
    assert_eq!(owned_text(Some(b"PDF-1.3".to_vec())), Some("PDF-1.3".to_string()));
    assert_eq!(owned_text(Some(b"TEST".to_vec())), Some("TEST".to_string()));
    assert_eq!(owned_text(None), None);
    assert_eq!(owned_text(Some(vec![0xff, 0xfe])), None);
    assert_eq!(owned_text(Some(vec![0xc3, 0xa9])), Some("é".to_string()));
    assert_eq!(owned_text(Some(vec![])), Some(String::new()));
}

#[test]
fn c_string_values() {
    assert_eq!(to_c_string(b"upw").unwrap(), b"upw\0".to_vec());
    assert_eq!(to_c_string(b"").unwrap(), vec![0u8]);
    assert_eq!(to_c_string(b"a\0").unwrap_err().position, 1);
    assert_eq!(first_nul(b"\0\0"), Some(0));
    assert_eq!(first_nul(b"abc"), None);
}
