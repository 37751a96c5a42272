//! API response helpers

use vstd::prelude::*;
use vstd::string::StringExecFns;

use crate::database::summary::SlugFoundSummary;
use crate::database::summary::SlugFoundSummaryView;
use crate::ids::hyphenated;
use crate::ids::id_text;
use crate::users::Role;

verus! {

/// Status code `200 Ok`
pub const OK: u16 = 200;

/// Status code `201 Created`
pub const CREATED: u16 = 201;

/// Status code `204 No content`
pub const NO_CONTENT: u16 = 204;

/// Status code `400 Bad request`
pub const BAD_REQUEST: u16 = 400;

/// Status code `403 Forbidden`
pub const FORBIDDEN: u16 = 403;

/// Status code `404 Not found`
pub const NOT_FOUND: u16 = 404;

/// Status code `500 Internal server error`
pub const INTERNAL_SERVER_ERROR: u16 = 500;

/// Hold data for a successful API response
pub struct Success<V> {
    /// Status code for the response
    pub status_code: u16,
    /// Optional data of the successful response
    pub data: Option<V>,
}

impl<V> Success<V> {
    /// Create new Success response with `200 Ok` status code
    pub fn ok(data: V) -> (success: Self)
        ensures
            success.status_code == OK,
            success.data == Some(data),
    {
        Self { status_code: OK, data: Some(data) }
    }

    /// Create new Success response with `201 Created` status code
    pub fn created(data: V) -> (success: Self)
        ensures
            success.status_code == CREATED,
            success.data == Some(data),
    {
        Self { status_code: CREATED, data: Some(data) }
    }

    /// Create new Success response with `204 No content` status code
    pub fn no_content() -> (success: Self)
        ensures
            success.status_code == NO_CONTENT,
            success.data is None,
    {
        Self { status_code: NO_CONTENT, data: None }
    }
}

/// Hold data for a failed API response
#[derive(Debug)]
pub struct Error {
    /// The failed status code
    pub status_code: u16,
    /// The error message
    pub message: String,
    /// An optional error description
    pub description: Option<String>,
}

/// What a failed response holds, as mathematical values
pub struct ErrorView {
    pub status_code: u16,
    pub message: Seq<char>,
    pub description: Option<Seq<char>>,
}

impl View for Error {
    type V = ErrorView;

    open spec fn view(&self) -> ErrorView {
        ErrorView {
            status_code: self.status_code,
            message: self.message@,
            description: match self.description {
                Some(description) => Some(description@),
                None => None,
            },
        }
    }
}

/// The failed response with a status code and a message, and no description
pub open spec fn failure(status_code: u16, message: Seq<char>) -> ErrorView {
    ErrorView { status_code, message, description: None }
}

impl Error {
    /// Create new Error response with `400 Bad request` status code
    pub fn bad_request(message: &str) -> (error: Self)
        ensures
            error@ == failure(BAD_REQUEST, message@),
    {
        Self { status_code: BAD_REQUEST, message: String::from_str(message), description: None }
    }

    /// Create new Error response with `403 Forbidden` status code
    pub fn forbidden(message: &str) -> (error: Self)
        ensures
            error@ == failure(FORBIDDEN, message@),
    {
        Self { status_code: FORBIDDEN, message: String::from_str(message), description: None }
    }

    /// Create new Error response with `404 Not found` status code
    pub fn not_found(message: &str) -> (error: Self)
        ensures
            error@ == failure(NOT_FOUND, message@),
    {
        Self { status_code: NOT_FOUND, message: String::from_str(message), description: None }
    }

    /// Create new Error response with `500 Internal server error` status code
    pub fn internal_server_error(message: &str) -> (error: Self)
        ensures
            error@ == failure(INTERNAL_SERVER_ERROR, message@),
    {
        Self {
            status_code: INTERNAL_SERVER_ERROR,
            message: String::from_str(message),
            description: None,
        }
    }

    /// Create a version of the error with a description
    pub fn with_description(&self, description: &str) -> (error: Self)
        ensures
            error@ == (ErrorView { description: Some(description@), ..self@ }),
    {
        Self {
            status_code: self.status_code,
            message: self.message.clone(),
            description: Some(String::from_str(description)),
        }
    }
}

impl SlugFoundSummaryView {
    /// The message that tells what already uses a slug
    pub open spec fn in_use_message(self) -> Seq<char> {
        match self {
            SlugFoundSummaryView::DestinationExists(destination) => {
                "Slug already in use by destination ID "@ + hyphenated(destination.id)
            },
            SlugFoundSummaryView::DestinationDeleted(destination, _) => {
                "Slug already in use by now deleted destination ID "@ + hyphenated(destination.id)
            },
            SlugFoundSummaryView::AliasExists(alias, destination) => {
                "Slug already in use by alias ID "@ + hyphenated(alias.id)
                    + " for destination ID "@ + hyphenated(destination.id)
            },
            SlugFoundSummaryView::AliasDeleted(alias, destination) => {
                "Slug already in use by now deleted alias ID "@ + hyphenated(alias.id)
                    + " for destination ID "@ + hyphenated(destination.id)
            },
        }
    }
}

impl SlugFoundSummary {
    /// Convert the slug found summary into a proper API error
    pub fn into_error(self) -> (error: Error)
        ensures
            error@ == failure(BAD_REQUEST, self@.in_use_message()),
    {
        let message = match &self {
            SlugFoundSummary::DestinationExists(destination) => {
                String::from_str("Slug already in use by destination ID ").concat(
                    id_text(destination.id).as_str(),
                )
            },
            SlugFoundSummary::DestinationDeleted(destination, _) => {
                String::from_str("Slug already in use by now deleted destination ID ").concat(
                    id_text(destination.id).as_str(),
                )
            },
            SlugFoundSummary::AliasExists(alias, destination) => {
                String::from_str("Slug already in use by alias ID ").concat(
                    id_text(alias.id).as_str(),
                ).concat(" for destination ID ").concat(id_text(destination.id).as_str())
            },
            SlugFoundSummary::AliasDeleted(alias, destination) => {
                String::from_str("Slug already in use by now deleted alias ID ").concat(
                    id_text(alias.id).as_str(),
                ).concat(" for destination ID ").concat(id_text(destination.id).as_str())
            },
        };
        Error::bad_request(message.as_str())
    }
}

impl Role {
    /// Whether a holder of this role may do what `target_role` is needed for
    pub open spec fn allows(self, target_role: Role) -> bool {
        self == Role::Admin || target_role == Role::Manager
    }

    /// Check if the current role matches the target role
    ///
    /// Will return a forbidden [`Error`](Error) where it does not
    pub fn is_allowed(self, target_role: Role) -> (allowed: Result<(), Error>)
        ensures
            allowed is Ok <==> self.allows(target_role),
            allowed matches Err(error) ==> error@ == failure(FORBIDDEN, "Not allowed to acces"@),
    {
        match self {
            Role::Admin => Ok(()),
            Role::Manager => match target_role {
                Role::Admin => Err(Error::forbidden("Not allowed to acces")),
                Role::Manager => Ok(()),
            },
        }
    }
}

} // verus!
