//! The failures of the library, and the one place that maps each to a
//! transport status code.
use vstd::prelude::*;

verus! {

/// Every way an operation of the library can fail.
#[derive(Debug)]
pub enum AppError {
    /// The credentials given at login do not match a user.
    LoginError,
    /// No session token was presented, or it does not resolve to a user.
    Unauthenticated,
    /// The authenticated user does not own the resource.
    Forbidden,
    /// A record that was asked for does not exist.
    NotFoundError(String),
    /// Input that the operation refuses, such as a page below one.
    ValidationError(String),
    /// A sign-up named a username that is already taken.
    DuplicateUsername,
    /// A sign-up named an empty username, or one with characters other than
    /// ASCII letters, digits and `_`.
    InvalidUsername,
    /// Password hashing or hash verification failed.
    HashingError(String),
    /// A form sent by the client could not be read.
    FormError(String),
    /// A store refused a write, such as a key that is already present.
    StorageError(String),
    /// Any other failure.
    InternalError(String),
}

/// The status code that the transport layer answers with for `e`.
pub open spec fn status_of(e: AppError) -> u16 {
    match e {
        AppError::LoginError => 401,
        AppError::Unauthenticated => 401,
        AppError::Forbidden => 403,
        AppError::NotFoundError(_) => 404,
        AppError::ValidationError(_) => 400,
        AppError::InvalidUsername => 400,
        AppError::DuplicateUsername => 409,
        AppError::HashingError(_) => 500,
        AppError::FormError(_) => 500,
        AppError::StorageError(_) => 500,
        AppError::InternalError(_) => 500,
    }
}

impl AppError {
    /// The status code of this failure: 401 for bad credentials or a missing
    /// session, 403 for a foreign resource, 404 for a missing record, 400 for
    /// refused input, 409 for a taken username, 500 for the rest.
    pub fn status_code(&self) -> (r: u16)
        ensures
            r == status_of(*self),
    {
        match self {
            AppError::LoginError => 401,
            AppError::Unauthenticated => 401,
            AppError::Forbidden => 403,
            AppError::NotFoundError(_) => 404,
            AppError::ValidationError(_) => 400,
            AppError::InvalidUsername => 400,
            AppError::DuplicateUsername => 409,
            AppError::HashingError(_) => 500,
            AppError::FormError(_) => 500,
            AppError::StorageError(_) => 500,
            AppError::InternalError(_) => 500,
        }
    }

    /// The message shown to the client: the one carried, or a fixed text
    /// for the variants that carry none.
    pub fn message(&self) -> (r: String)
        ensures
            match *self {
                AppError::LoginError => r@ == "Invalid credentials"@,
                AppError::Unauthenticated => r@ == "Not authenticated"@,
                AppError::Forbidden => r@ == "Not the owner of this resource"@,
                AppError::DuplicateUsername => r@ == "Username already exists"@,
                AppError::InvalidUsername => r@ == "Username is invalid"@,
                AppError::NotFoundError(m) => r@ == m@,
                AppError::ValidationError(m) => r@ == m@,
                AppError::HashingError(m) => r@ == m@,
                AppError::FormError(m) => r@ == m@,
                AppError::StorageError(m) => r@ == m@,
                AppError::InternalError(m) => r@ == m@,
            },
    {
        match self {
            AppError::LoginError => "Invalid credentials".to_string(),
            AppError::Unauthenticated => "Not authenticated".to_string(),
            AppError::Forbidden => "Not the owner of this resource".to_string(),
            AppError::NotFoundError(m) => m.clone(),
            AppError::ValidationError(m) => m.clone(),
            AppError::DuplicateUsername => "Username already exists".to_string(),
            AppError::InvalidUsername => "Username is invalid".to_string(),
            AppError::HashingError(m) => m.clone(),
            AppError::FormError(m) => m.clone(),
            AppError::StorageError(m) => m.clone(),
            AppError::InternalError(m) => m.clone(),
        }
    }
}

} // verus!
