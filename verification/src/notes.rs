//! Notes

use vstd::prelude::*;

use crate::timestamp::Timestamp;

verus! {

/// A note in all its glory
#[derive(Debug)]
pub struct Note {
    /// The note ID
    pub id: u128,
    /// The ID of the user that created it
    pub user_id: u128,
    /// Destination this note belongs to
    pub destination_id: u128,
    /// The actual content of the note
    pub content: String,
    /// Creation date
    pub created_at: Timestamp,
    /// Last updated at
    pub updated_at: Timestamp,
    /// Soft-deleted at
    pub deleted_at: Option<Timestamp>,
}

/// What a note holds, as mathematical values
pub struct NoteView {
    pub id: u128,
    pub user_id: u128,
    pub destination_id: u128,
    pub content: Seq<char>,
    pub created_at: Timestamp,
    pub updated_at: Timestamp,
    pub deleted_at: Option<Timestamp>,
}

impl View for Note {
    type V = NoteView;

    open spec fn view(&self) -> NoteView {
        NoteView {
            id: self.id,
            user_id: self.user_id,
            destination_id: self.destination_id,
            content: self.content@,
            created_at: self.created_at,
            updated_at: self.updated_at,
            deleted_at: self.deleted_at,
        }
    }
}

impl Clone for Note {
    fn clone(&self) -> (copy: Self)
        ensures
            copy@ == self@,
    {
        Note {
            id: self.id,
            user_id: self.user_id,
            destination_id: self.destination_id,
            content: self.content.clone(),
            created_at: self.created_at,
            updated_at: self.updated_at,
            deleted_at: self.deleted_at,
        }
    }
}

} // verus!
