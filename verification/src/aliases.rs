//! Aliases

use vstd::prelude::*;

use crate::timestamp::Timestamp;

verus! {

/// Alias for a destination
#[derive(Debug)]
pub struct Alias {
    /// Alias ID
    pub id: u128,
    /// The ID of the user that created it
    pub user_id: u128,
    /// External identifier for the alias
    pub slug: String,
    /// The destination that the alias stands for
    pub destination_id: u128,
    /// Creation date
    pub created_at: Timestamp,
    /// Last updated at
    pub updated_at: Timestamp,
    /// Soft-deleted at
    pub deleted_at: Option<Timestamp>,
}

/// What an alias holds, as mathematical values
pub struct AliasView {
    pub id: u128,
    pub user_id: u128,
    pub slug: Seq<char>,
    pub destination_id: u128,
    pub created_at: Timestamp,
    pub updated_at: Timestamp,
    pub deleted_at: Option<Timestamp>,
}

impl View for Alias {
    type V = AliasView;

    open spec fn view(&self) -> AliasView {
        AliasView {
            id: self.id,
            user_id: self.user_id,
            slug: self.slug@,
            destination_id: self.destination_id,
            created_at: self.created_at,
            updated_at: self.updated_at,
            deleted_at: self.deleted_at,
        }
    }
}

impl Clone for Alias {
    fn clone(&self) -> (copy: Self)
        ensures
            copy@ == self@,
    {
        Alias {
            id: self.id,
            user_id: self.user_id,
            slug: self.slug.clone(),
            destination_id: self.destination_id,
            created_at: self.created_at,
            updated_at: self.updated_at,
            deleted_at: self.deleted_at,
        }
    }
}

impl Alias {
    /// Is the alias soft-deleted?
    pub fn is_deleted(&self) -> (deleted: bool)
        ensures
            deleted == self@.deleted_at.is_some(),
    {
        self.deleted_at.is_some()
    }
}

} // verus!
