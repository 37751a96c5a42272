//! Utility functions for the API

use vstd::prelude::*;

use super::response::failure;
use super::response::Error;
use super::response::ErrorView;
use super::response::INTERNAL_SERVER_ERROR;
use super::response::NOT_FOUND;
use super::response::BAD_REQUEST;
use crate::database::summary::SlugFoundSummary;
use crate::destinations::Destination;

verus! {

/// The failed response for a failure of the storage: an internal server
/// error with the text of the failure
pub open spec fn storage_failure(error: crate::database::ErrorView) -> ErrorView {
    failure(INTERNAL_SERVER_ERROR, error.text())
}

/// What a handler goes on with after an answer of the storage: the answer,
/// or an internal server error where the storage failed
pub fn stored<T>(answer: Result<T, crate::database::Error>) -> (checked: Result<T, Error>)
    ensures
        match answer {
            Ok(value) => checked == Ok::<T, Error>(value),
            Err(error) => checked matches Err(failed) && failed@ == storage_failure(error@),
        },
{
    match answer {
        Ok(value) => Ok(value),
        Err(error) => Err(Error::internal_server_error(error.to_string().as_str())),
    }
}

/// What a handler goes on with after the storage looked something up: what
/// was found, a not found response with the given message where nothing was,
/// or an internal server error where the storage failed
pub fn found_or_not_found<T>(
    found: Result<Option<T>, crate::database::Error>,
    message: &str,
) -> (checked: Result<T, Error>)
    ensures
        match found {
            Ok(Some(value)) => checked == Ok::<T, Error>(value),
            Ok(None) => checked matches Err(failed) && failed@ == failure(NOT_FOUND, message@),
            Err(error) => checked matches Err(failed) && failed@ == storage_failure(error@),
        },
{
    match found {
        Ok(Some(value)) => Ok(value),
        Ok(None) => Err(Error::not_found(message)),
        Err(error) => Err(Error::internal_server_error(error.to_string().as_str())),
    }
}

/// Fetch destination from database: what the handler goes on with after the
/// storage looked the destination up
pub fn fetch_destination(found: Result<Option<Destination>, crate::database::Error>) -> (checked:
    Result<Destination, Error>)
    ensures
        match found {
            Ok(Some(destination)) => checked == Ok::<Destination, Error>(destination),
            Ok(None) => checked matches Err(failed) && failed@ == failure(
                NOT_FOUND,
                "Destination not found"@,
            ),
            Err(error) => checked matches Err(failed) && failed@ == storage_failure(error@),
        },
{
    found_or_not_found(found, "Destination not found")
}

/// Why a slug cannot be given to something new, if so: the storage has to
/// answer, and nothing, deleted or not, may have the slug
pub open spec fn slug_refused(
    found: Result<Option<SlugFoundSummary>, crate::database::Error>,
) -> Option<ErrorView> {
    match found {
        Err(error) => Some(storage_failure(error@)),
        Ok(Some(summary)) => Some(failure(BAD_REQUEST, summary@.in_use_message())),
        Ok(None) => None,
    }
}

/// Check that a slug is free for something new, from what the storage found
/// for it
pub fn unused_slug(found: Result<Option<SlugFoundSummary>, crate::database::Error>) -> (checked:
    Result<(), Error>)
    ensures
        match slug_refused(found) {
            Some(refused) => checked matches Err(error) && error@ == refused,
            None => checked is Ok,
        },
{
    match found {
        Err(error) => Err(Error::internal_server_error(error.to_string().as_str())),
        Ok(Some(summary)) => Err(summary.into_error()),
        Ok(None) => Ok(()),
    }
}

} // verus!
