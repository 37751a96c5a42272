//! Aliases API endpoints
//!
//! Everything related to the aliases management

use vstd::prelude::*;

use super::request::slug_refusal;
use super::response::failure;
use super::response::Error;
use super::response::BAD_REQUEST;
use super::response::NOT_FOUND;
use super::utils::found_or_not_found;
use super::utils::storage_failure;
use crate::aliases::Alias;
use crate::aliases::AliasView;
use crate::normalization::nfc_of;
use crate::text::begins_with;
use crate::text::trimmed;
use crate::timestamp::Timestamp;

verus! {

/// Alias response going to the user
///
/// Basically filtering which fields are shown to the user
#[derive(Debug)]
pub struct AliasResponse {
    /// Alias ID
    pub id: u128,
    /// Destination ID
    pub destination_id: u128,
    /// Slug of the alias
    pub slug: String,
    /// Creation date
    pub created_at: Timestamp,
    /// Last updated at
    pub updated_at: Timestamp,
}

/// What an alias response holds, as mathematical values
pub struct AliasResponseView {
    pub id: u128,
    pub destination_id: u128,
    pub slug: Seq<char>,
    pub created_at: Timestamp,
    pub updated_at: Timestamp,
}

impl View for AliasResponse {
    type V = AliasResponseView;

    open spec fn view(&self) -> AliasResponseView {
        AliasResponseView {
            id: self.id,
            destination_id: self.destination_id,
            slug: self.slug@,
            created_at: self.created_at,
            updated_at: self.updated_at,
        }
    }
}

impl AliasView {
    /// The response that shows the alias
    pub open spec fn response(self) -> AliasResponseView {
        AliasResponseView {
            id: self.id,
            destination_id: self.destination_id,
            slug: self.slug,
            created_at: self.created_at,
            updated_at: self.updated_at,
        }
    }
}

/// The responses that show the aliases, in their order
pub open spec fn alias_responses(aliases: Seq<Alias>) -> Seq<AliasResponseView> {
    aliases.map_values(|alias: Alias| alias@.response())
}

/// The views of the alias responses
pub open spec fn alias_response_views(responses: Seq<AliasResponse>) -> Seq<AliasResponseView> {
    responses.map_values(|response: AliasResponse| response@)
}

impl AliasResponse {
    /// Create a response from a [`Alias`](Alias)
    ///
    /// Basically filtering which fields are shown to the user
    pub fn from_alias(alias: Alias) -> (response: Self)
        ensures
            response@ == alias@.response(),
    {
        Self {
            id: alias.id,
            destination_id: alias.destination_id,
            slug: alias.slug,
            created_at: alias.created_at,
            updated_at: alias.updated_at,
        }
    }

    /// Create a response from multiple [`Alias`](Alias)s
    ///
    /// Basically filtering which fields are shown to the user
    pub fn from_alias_multiple(aliases: Vec<Alias>) -> (responses: Vec<Self>)
        ensures
            alias_response_views(responses@) == alias_responses(aliases@),
    {
        let mut responses: Vec<Self> = Vec::new();
        for alias in it: aliases
            invariant
                it.seq() == aliases@,
                alias_response_views(responses@) == alias_responses(
                    aliases@.take(it.index() as int),
                ),
        {
            proof {
                assert(aliases@.take(it.index() + 1) =~= aliases@.take(it.index() as int).push(
                    alias,
                ));
                assert(alias_responses(aliases@.take(it.index() as int).push(alias))
                    =~= alias_responses(aliases@.take(it.index() as int)).push(alias@.response()));
            }
            let response = Self::from_alias(alias);
            proof {
                assert(alias_response_views(responses@.push(response)) =~= alias_response_views(
                    responses@,
                ).push(response@));
            }
            responses.push(response);
        }
        proof {
            assert(aliases@.take(aliases@.len() as int) =~= aliases@);
        }
        responses
    }
}

/// Create alias form
///
/// Fields to create an alias
#[derive(Debug)]
pub struct CreateAliasForm {
    /// Slug for an alias
    pub slug: String,
}

/// The prefix that no slug may have: it belongs to the API
pub open spec fn is_reserved(slug: Seq<char>) -> bool {
    "api/"@.is_prefix_of(slug)
}

/// What comes of a slug that a form gives: the slug as it is stored, or the
/// message that refuses it
pub open spec fn new_slug_of(slug: Seq<char>) -> Result<Seq<char>, Seq<char>> {
    match slug_refusal(trimmed(slug)) {
        Some(message) => Err(message),
        None => if is_reserved(nfc_of(trimmed(slug))) {
            Err("Slug can not start with 'api/'"@)
        } else {
            Ok(nfc_of(trimmed(slug)))
        },
    }
}

/// Check the slug that a form gives for something new: parse and normalize
/// it, and refuse one that starts with the prefix of the API
pub fn new_slug(slug: &str) -> (checked: Result<String, Error>)
    ensures
        match new_slug_of(slug@) {
            Ok(text) => checked matches Ok(parsed) && parsed@ == text,
            Err(message) => checked matches Err(error) && error@ == failure(BAD_REQUEST, message),
        },
{
    let slug = super::request::parse_slug(slug)?;
    if begins_with(slug.as_str(), "api/") {
        return Err(Error::bad_request("Slug can not start with 'api/'"));
    }
    Ok(slug)
}

/// Check the form to create an alias: its slug is parsed and normalized, and
/// may not start with the prefix of the API
pub fn create(form: &CreateAliasForm) -> (checked: Result<String, Error>)
    ensures
        match new_slug_of(form.slug@) {
            Ok(text) => checked matches Ok(parsed) && parsed@ == text,
            Err(message) => checked matches Err(error) && error@ == failure(BAD_REQUEST, message),
        },
{
    new_slug(form.slug.as_str())
}

/// Fetch alias from database: what the handler goes on with after the storage
/// looked the alias up
pub fn fetch_alias(found: Result<Option<Alias>, crate::database::Error>) -> (checked: Result<
    Alias,
    Error,
>)
    ensures
        match found {
            Ok(Some(alias)) => checked == Ok::<Alias, Error>(alias),
            Ok(None) => checked matches Err(failed) && failed@ == failure(
                NOT_FOUND,
                "Alias not found"@,
            ),
            Err(error) => checked matches Err(failed) && failed@ == storage_failure(error@),
        },
{
    found_or_not_found(found, "Alias not found")
}

} // verus!
