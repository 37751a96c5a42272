//! Destinations

use vstd::prelude::*;

use crate::timestamp::Timestamp;

verus! {

/// Destination in all its glory
#[derive(Debug)]
pub struct Destination {
    /// Destination ID
    pub id: u128,
    /// The ID of the user that created it
    pub user_id: u128,
    /// External identifier for the root
    pub slug: String,
    /// Location where the destination goes
    pub url: String,
    /// Type of destination
    pub is_permanent: bool,
    /// Should the query parameters of the root endpoint be forwarded to the destination?
    ///
    /// Only query parameters that are _not_ present in the `url` will be added
    pub forward_query_parameters: bool,
    /// Creation date
    pub created_at: Timestamp,
    /// Last updated at
    pub updated_at: Timestamp,
    /// Soft-deleted at
    pub deleted_at: Option<Timestamp>,
}

/// What a destination holds, as mathematical values
pub struct DestinationView {
    pub id: u128,
    pub user_id: u128,
    pub slug: Seq<char>,
    pub url: Seq<char>,
    pub is_permanent: bool,
    pub forward_query_parameters: bool,
    pub created_at: Timestamp,
    pub updated_at: Timestamp,
    pub deleted_at: Option<Timestamp>,
}

impl View for Destination {
    type V = DestinationView;

    open spec fn view(&self) -> DestinationView {
        DestinationView {
            id: self.id,
            user_id: self.user_id,
            slug: self.slug@,
            url: self.url@,
            is_permanent: self.is_permanent,
            forward_query_parameters: self.forward_query_parameters,
            created_at: self.created_at,
            updated_at: self.updated_at,
            deleted_at: self.deleted_at,
        }
    }
}

impl Clone for Destination {
    fn clone(&self) -> (copy: Self)
        ensures
            copy@ == self@,
    {
        Destination {
            id: self.id,
            user_id: self.user_id,
            slug: self.slug.clone(),
            url: self.url.clone(),
            is_permanent: self.is_permanent,
            forward_query_parameters: self.forward_query_parameters,
            created_at: self.created_at,
            updated_at: self.updated_at,
            deleted_at: self.deleted_at,
        }
    }
}

impl Destination {
    /// Is the destination soft-deleted?
    pub fn is_deleted(&self) -> (deleted: bool)
        ensures
            deleted == self@.deleted_at.is_some(),
    {
        self.deleted_at.is_some()
    }
}

} // verus!
