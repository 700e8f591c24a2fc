use iup::xerror::{xerror, XError};

#[test]
fn messages_name_the_kind_and_context() {
    assert_eq!(
        XError::LibraryLoadFailed("/x/libiup.so".to_string()).message(),
        "failed to load library: /x/libiup.so"
    );
    assert_eq!(
        XError::SymbolNotFound("IupOpen".to_string()).message(),
        "symbol not found: IupOpen"
    );
    assert_eq!(
        XError::InitializationFailed("code 1".to_string()).message(),
        "initialization failed: code 1"
    );
    assert_eq!(XError::IoFailure("spawn".to_string()).message(), "i/o failure: spawn");
    assert_eq!(
        XError::TextEncodingFailed("a\0b".to_string()).message(),
        "text encoding failed: a\0b"
    );
}

#[test]
fn equality_compares_kind_and_context() {
    assert_eq!(
        XError::SymbolNotFound("IupShow".to_string()),
        XError::SymbolNotFound("IupShow".to_string())
    );
    assert_ne!(
        XError::SymbolNotFound("IupShow".to_string()),
        XError::SymbolNotFound("IupHide".to_string())
    );
    assert_ne!(
        XError::SymbolNotFound("x".to_string()),
        XError::IoFailure("x".to_string())
    );
}

#[test]
fn new_builds_an_initialization_failure() {
    assert_eq!(
        XError::new("no good"),
        XError::InitializationFailed("no good".to_string())
    );
}

#[test]
fn xerror_builds_a_failed_result() {
    let r: Result<i32, XError> = xerror("nope");
    assert_eq!(r, Err(XError::InitializationFailed("nope".to_string())));
}
