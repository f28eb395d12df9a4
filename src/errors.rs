//! The error kinds of the identity core.
use vstd::prelude::*;

verus! {

/// Why an identity operation was refused.
#[derive(Clone, Debug, PartialEq, Eq)]
pub enum UserErrors {
    NameParsingError,
    EmailParsingError,
    InvalidEmailError,
    PasswordParsingError,
    CompanyNameParsingError,
    MerchantIdParsingError,
    RoleNameParsingError,
    UserExists,
    DuplicateOrganizationId,
    MerchantAccountCreationError(String),
    InvalidCredentials,
    UnverifiedUser,
    InternalServerError,
}

/// How a call into the account store failed.
#[derive(Clone, Copy, Debug, PartialEq, Eq, Structural)]
pub enum StoreError {
    /// No row matched the lookup.
    NotFound,
    /// A uniqueness constraint refused the row.
    UniqueViolation,
    /// Any other failure of the store.
    Other,
}

} // verus!
