//! Notes API endpoints
//!
//! Everything related to the notes management

use vstd::prelude::*;

use super::response::failure;
use super::response::Error;
use super::response::NOT_FOUND;
use super::utils::found_or_not_found;
use super::utils::storage_failure;
use crate::database::form_types::CreateNoteValues;
use crate::database::form_types::UpdateNoteValues;
use crate::notes::Note;
use crate::notes::NoteView;
use crate::users::User;
use crate::timestamp::Timestamp;

verus! {

/// Note response going to the user
///
/// Basically filtering which fields are shown to the user
#[derive(Debug)]
pub struct NoteResponse {
    /// Note ID
    pub id: u128,
    /// Content of the note
    pub content: String,
    /// Creation date
    pub created_at: Timestamp,
    /// Last updated at
    pub updated_at: Timestamp,
}

/// What a note response holds, as mathematical values
pub struct NoteResponseView {
    pub id: u128,
    pub content: Seq<char>,
    pub created_at: Timestamp,
    pub updated_at: Timestamp,
}

impl View for NoteResponse {
    type V = NoteResponseView;

    open spec fn view(&self) -> NoteResponseView {
        NoteResponseView {
            id: self.id,
            content: self.content@,
            created_at: self.created_at,
            updated_at: self.updated_at,
        }
    }
}

impl NoteView {
    /// The response that shows the note
    pub open spec fn response(self) -> NoteResponseView {
        NoteResponseView {
            id: self.id,
            content: self.content,
            created_at: self.created_at,
            updated_at: self.updated_at,
        }
    }
}

/// The responses that show the notes, in their order
pub open spec fn note_responses(notes: Seq<Note>) -> Seq<NoteResponseView> {
    notes.map_values(|note: Note| note@.response())
}

/// The views of the note responses
pub open spec fn note_response_views(responses: Seq<NoteResponse>) -> Seq<NoteResponseView> {
    responses.map_values(|response: NoteResponse| response@)
}

impl NoteResponse {
    /// Create a response from a [`Note`](Note)
    ///
    /// Basically filtering which fields are shown to the user
    pub fn from_note(note: Note) -> (response: Self)
        ensures
            response@ == note@.response(),
    {
        Self {
            id: note.id,
            content: note.content,
            created_at: note.created_at,
            updated_at: note.updated_at,
        }
    }

    /// Create a response from multiple [`Note`](Note)s
    ///
    /// Basically filtering which fields are shown to the user
    pub fn from_note_multiple(notes: Vec<Note>) -> (responses: Vec<Self>)
        ensures
            note_response_views(responses@) == note_responses(notes@),
    {
        let mut responses: Vec<Self> = Vec::new();
        for note in it: notes
            invariant
                it.seq() == notes@,
                note_response_views(responses@) == note_responses(notes@.take(it.index() as int)),
        {
            proof {
                assert(notes@.take(it.index() + 1) =~= notes@.take(it.index() as int).push(note));
                assert(note_responses(notes@.take(it.index() as int).push(note)) =~= note_responses(
                    notes@.take(it.index() as int),
                ).push(note@.response()));
            }
            let response = Self::from_note(note);
            proof {
                assert(note_response_views(responses@.push(response)) =~= note_response_views(
                    responses@,
                ).push(response@));
            }
            responses.push(response);
        }
        proof {
            assert(notes@.take(notes@.len() as int) =~= notes@);
        }
        responses
    }
}

/// Create note form
///
/// Fields to create a note
#[derive(Debug)]
pub struct CreateNoteForm {
    /// Content for note
    pub content: String,
}

/// Update note form
///
/// Fields to update a note with, all fields are optional and are not touched when not
/// provided
#[derive(Debug)]
pub struct UpdateNoteForm {
    /// New content for note
    pub content: Option<String>,
}

/// The values to create a note with, from the form and the user that sent it
pub fn create<'a>(current_user: &'a User, form: &'a CreateNoteForm) -> (values: CreateNoteValues<'a>)
    ensures
        *values.user == *current_user,
        values.content@ == form.content@,
{
    CreateNoteValues { user: current_user, content: form.content.as_str() }
}

/// The values to update a note with, from the form: a content that is not
/// given is not touched
pub fn update<'a>(form: &'a UpdateNoteForm) -> (values: UpdateNoteValues<'a>)
    ensures
        match form.content {
            Some(content) => values.content matches Some(given) && *given == content,
            None => values.content is None,
        },
{
    UpdateNoteValues { content: form.content.as_ref() }
}

/// Fetch note from storage: what the handler goes on with after the storage
/// looked the note up
pub fn fetch_note(found: Result<Option<Note>, crate::database::Error>) -> (checked: Result<
    Note,
    Error,
>)
    ensures
        match found {
            Ok(Some(note)) => checked == Ok::<Note, Error>(note),
            Ok(None) => checked matches Err(failed) && failed@ == failure(
                NOT_FOUND,
                "Note not found"@,
            ),
            Err(error) => checked matches Err(failed) && failed@ == storage_failure(error@),
        },
{
    found_or_not_found(found, "Note not found")
}

} // verus!
