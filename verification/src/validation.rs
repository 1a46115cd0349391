//! Classified reasons for rejecting a serialized message.

use vstd::prelude::*;

verus! {

/// Describes why a serialized message is invalid.
///
/// There is no variant for "no error"; use `Result<(), ValidationError>` if
/// needed.
#[derive(Clone, Copy, Debug, PartialEq, Eq, Structural)]
pub enum ValidationError {
    IllegalMemoryRange,
    UnexpectedStructHeader,
    MessageHeaderInvalidFlags,
    MessageHeaderMissingRequestId,
}

impl ValidationError {
    /// The stable diagnostic name of this error.
    pub fn to_str(self) -> (r: &'static str)
        ensures
            self is IllegalMemoryRange ==> r@ == "VALIDATION_ERROR_ILLEGAL_MEMORY_RANGE"@,
            self is UnexpectedStructHeader ==> r@ == "VALIDATION_ERROR_UNEXPECTED_STRUCT_HEADER"@,
            self is MessageHeaderInvalidFlags ==> r@ == "VALIDATION_ERROR_MESSAGE_HEADER_INVALID_FLAGS"@,
            self is MessageHeaderMissingRequestId ==> r@
                == "VALIDATION_ERROR_MESSAGE_HEADER_MISSING_REQUEST_ID"@,
    {
        match self {
            ValidationError::IllegalMemoryRange => "VALIDATION_ERROR_ILLEGAL_MEMORY_RANGE",
            ValidationError::UnexpectedStructHeader => "VALIDATION_ERROR_UNEXPECTED_STRUCT_HEADER",
            ValidationError::MessageHeaderInvalidFlags => "VALIDATION_ERROR_MESSAGE_HEADER_INVALID_FLAGS",
            ValidationError::MessageHeaderMissingRequestId => "VALIDATION_ERROR_MESSAGE_HEADER_MISSING_REQUEST_ID",
        }
    }
}

} // verus!
