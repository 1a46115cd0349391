use passkey_enclave::platforms::supported_named_platforms_for_testing;
use passkey_enclave::validation::ValidationError;

#[test]
fn validation_errors_have_stable_names() {
    assert_eq!(
        ValidationError::IllegalMemoryRange.to_str(),
        "VALIDATION_ERROR_ILLEGAL_MEMORY_RANGE"
    );
    assert_eq!(
        ValidationError::UnexpectedStructHeader.to_str(),
        "VALIDATION_ERROR_UNEXPECTED_STRUCT_HEADER"
    );
    assert_eq!(
        ValidationError::MessageHeaderInvalidFlags.to_str(),
        "VALIDATION_ERROR_MESSAGE_HEADER_INVALID_FLAGS"
    );
    assert_eq!(
        ValidationError::MessageHeaderMissingRequestId.to_str(),
        "VALIDATION_ERROR_MESSAGE_HEADER_MISSING_REQUEST_ID"
    );
}

#[test]
fn named_platforms_are_enumerated() {
    let platforms = supported_named_platforms_for_testing();
    assert_eq!(platforms.len(), 16);
    assert!(platforms.contains(&"x86_64-unknown-linux-gnu"));
    assert!(platforms.contains(&"aarch64-apple-darwin"));
}
