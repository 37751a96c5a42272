//! All things related to the storage of destinations and notes

use vstd::prelude::*;
use vstd::string::StringExecFns;

use crate::aliases::Alias;
use crate::destinations::Destination;

pub mod form_types;
pub mod page_hits;
pub mod summary;
pub mod types;

pub use form_types::AuditEntry;
pub use form_types::ChangePasswordValues;
pub use form_types::CreateAliasValues;
pub use form_types::CreateDestinationValues;
pub use form_types::CreateNoteValues;
pub use form_types::CreateUserValues;
pub use form_types::UpdateDestinationValues;
pub use form_types::UpdateNoteValues;

pub use page_hits::schedule_save_hit;
pub use page_hits::PageHitInformation;
pub use summary::SlugFoundSummary;

verus! {

/// Storage errors
#[derive(Debug)]
pub enum Error {
    /// A connection error with the storage
    Connection(String),
    /// A problem scheduling a page hit save
    PageHitScheduling(String),
}

/// What a storage error holds, as mathematical values
pub enum ErrorView {
    Connection(Seq<char>),
    PageHitScheduling(Seq<char>),
}

impl View for Error {
    type V = ErrorView;

    open spec fn view(&self) -> ErrorView {
        match self {
            Error::Connection(error) => ErrorView::Connection(error@),
            Error::PageHitScheduling(error) => ErrorView::PageHitScheduling(error@),
        }
    }
}

impl ErrorView {
    /// The text that describes the error
    pub open spec fn text(self) -> Seq<char> {
        match self {
            ErrorView::Connection(error) => "Connection error: "@ + error,
            ErrorView::PageHitScheduling(error) => "Page hit scheduling error: "@ + error,
        }
    }
}

impl Error {
    /// The text that describes the error
    pub fn to_string(&self) -> (text: String)
        ensures
            text@ == self@.text(),
    {
        match self {
            Error::Connection(error) => {
                String::from_str("Connection error: ").concat(error.as_str())
            },
            Error::PageHitScheduling(error) => {
                String::from_str("Page hit scheduling error: ").concat(error.as_str())
            },
        }
    }
}

/// Convert the text of a failure of the storage into a connection error
pub fn connection_error(err: &str) -> (error: Error)
    ensures
        error@ == ErrorView::Connection(err@),
{
    Error::Connection(String::from_str(err))
}

/// The default maximum capacity of the slug found cache
pub const DEFAULT_CACHE_MAX_CAPACITY: u64 = 10_000;

/// A change to what the store holds that changes what a slug stands for
pub enum SlugChange<'a> {
    /// A destination was created, with the values
    CreateDestination(&'a CreateDestinationValues<'a>),
    /// The destination was updated
    UpdateDestination(&'a Destination),
    /// The destination was deleted
    DeleteDestination(&'a Destination),
    /// An alias was created, with the values
    CreateAlias(&'a CreateAliasValues<'a>),
    /// The alias was deleted
    DeleteAlias(&'a Alias),
}

impl<'a> SlugChange<'a> {
    /// The slug whose entry in the cache is stale once the change is stored
    pub open spec fn stale_slug(self) -> Seq<char> {
        match self {
            SlugChange::CreateDestination(values) => values.slug@,
            SlugChange::UpdateDestination(destination) => destination.slug@,
            SlugChange::DeleteDestination(destination) => destination.slug@,
            SlugChange::CreateAlias(values) => values.slug@,
            SlugChange::DeleteAlias(alias) => alias.slug@,
        }
    }

    /// The slug to invalidate in the cache once the change is stored, before
    /// the change is reported as done: the slug of what was created, updated
    /// or deleted. A change to an alias leaves the entry for the slug of its
    /// destination as it is.
    pub fn invalidated_slug(&self) -> (slug: &'a str)
        ensures
            slug@ == self.stale_slug(),
    {
        match self {
            SlugChange::CreateDestination(values) => values.slug,
            SlugChange::UpdateDestination(destination) => destination.slug.as_str(),
            SlugChange::DeleteDestination(destination) => destination.slug.as_str(),
            SlugChange::CreateAlias(values) => values.slug,
            SlugChange::DeleteAlias(alias) => alias.slug.as_str(),
        }
    }
}

/// The identifiers to ask the store for when the aliases or the notes of
/// destinations are wanted: those of the destinations; none where there are
/// no destinations, as the store then need not be asked
pub fn queried_ids(ids: Vec<u128>) -> (queried: Option<Vec<u128>>)
    ensures
        match queried {
            Some(queried) => ids@.len() > 0 && queried == ids,
            None => ids@.len() == 0,
        },
{
    if ids.len() == 0 {
        None
    } else {
        Some(ids)
    }
}

} // verus!
