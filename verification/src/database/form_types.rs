//! Form types

use vstd::prelude::*;

use url::Url;

use crate::aliases::Alias;
use crate::destinations::Destination;
use crate::notes::Note;
use crate::urls::as_str;
use crate::urls::url_text;
use crate::users::Role;
use crate::users::User;

verus! {

/// Values to create a User
pub struct CreateUserValues<'a> {
    /// The initial session ID for the user
    pub session_id: &'a u128,
    /// The role of the user
    pub role: Role,
    /// The username
    pub username: &'a str,
    /// The hashed password
    pub hashed_password: &'a str,
}

/// Values to change a password of a user
pub struct ChangePasswordValues<'a> {
    /// New session ID to invalidate current tokens
    pub session_id: &'a u128,
    /// The new hashed password
    pub hashed_password: &'a str,
}

/// Values to create a Destination
pub struct CreateDestinationValues<'a> {
    /// The user creating the destination
    pub user: &'a User,
    /// The slug of the destination
    pub slug: &'a str,
    /// The URL the destination redirects to
    pub url: &'a Url,
    /// Make the destination as permanent
    pub is_permanent: &'a bool,
    /// Should the query parameters of the root endpoint be forwarded to the destination?
    pub forward_query_parameters: &'a bool,
}

/// Values to update an Destination
pub struct UpdateDestinationValues<'a> {
    /// New (optional) url of the destination
    pub url: Option<Url>,
    /// Type to update destination with
    ///
    /// Can only be set to `false` if the destination already has `is_permanent=true`, otherwise
    /// only `true` is valid
    pub is_permanent: Option<&'a bool>,
    /// Should the query parameters of the root endpoint be forwarded to the destination?
    pub forward_query_parameters: Option<&'a bool>,
}

/// Values to create an Alias
pub struct CreateAliasValues<'a> {
    /// The user creating the alias
    pub user: &'a User,
    /// The slug of the alias
    pub slug: &'a str,
}

/// Values to create an Note
pub struct CreateNoteValues<'a> {
    /// User creating the note
    pub user: &'a User,
    /// Content of the note
    ///
    /// Can be anything
    pub content: &'a str,
}

/// Values to update an Note
pub struct UpdateNoteValues<'a> {
    /// New content of the note
    pub content: Option<&'a String>,
}

/// What a destination holds after an update, where the store is to write it
#[derive(Debug)]
pub struct UpdatedDestination {
    /// The URL the destination redirects to
    pub url: String,
    /// Type of destination
    pub is_permanent: bool,
    /// Should the query parameters of the root endpoint be forwarded to the destination?
    pub forward_query_parameters: bool,
}

impl<'a> UpdateDestinationValues<'a> {
    /// What the destination holds after the update: each value that is given,
    /// and for the others what the destination holds already
    pub fn updated(&self, destination: &Destination) -> (updated: UpdatedDestination)
        ensures
            updated.url@ == match self.url {
                Some(url) => url_text(url),
                None => destination@.url,
            },
            updated.is_permanent == match self.is_permanent {
                Some(is_permanent) => *is_permanent,
                None => destination@.is_permanent,
            },
            updated.forward_query_parameters == match self.forward_query_parameters {
                Some(forward_query_parameters) => *forward_query_parameters,
                None => destination@.forward_query_parameters,
            },
    {
        UpdatedDestination {
            url: match &self.url {
                Some(url) => as_str(url).to_owned(),
                None => destination.url.clone(),
            },
            is_permanent: match self.is_permanent {
                Some(is_permanent) => *is_permanent,
                None => destination.is_permanent,
            },
            forward_query_parameters: match self.forward_query_parameters {
                Some(forward_query_parameters) => *forward_query_parameters,
                None => destination.forward_query_parameters,
            },
        }
    }
}

impl<'a> UpdateNoteValues<'a> {
    /// The content of the note after the update: the new content where one is
    /// given, else what the note holds already
    pub fn updated<'b>(&'b self, note: &'b Note) -> (content: &'b String)
        ensures
            content@ == match self.content {
                Some(content) => content@,
                None => note@.content,
            },
    {
        match self.content {
            Some(content) => content,
            None => &note.content,
        }
    }
}

/// Possible audit trail entry types
pub enum AuditEntry<'a> {
    /// User is created
    CreateUser(&'a User),
    /// User has a changed password
    ChangePassword(&'a User),
    /// User is deleted
    DeleteUser(&'a User),
    /// Destination is created
    CreateDestination(&'a Destination),
    /// Destination is updated
    UpdateDestination(&'a Destination),
    /// Destination is deleted
    DeleteDestination(&'a Destination),
    /// Alias is created
    CreateAlias(&'a Destination, &'a Alias),
    /// Alias is deleted
    DeleteAlias(&'a Destination, &'a Alias),
    /// Note is created
    CreateNote(&'a Destination, &'a Note),
    /// Note is updated
    UpdateNote(&'a Destination, &'a Note),
    /// Note is deleted
    DeleteNote(&'a Destination, &'a Note),
}

/// What an entry on the audit trail is about
#[derive(Clone, Copy, Debug, PartialEq, Eq, Structural)]
pub struct AuditSubject {
    /// The user, for an entry about a user
    pub user_id: Option<u128>,
    /// The destination, for an entry about a destination or about something
    /// of a destination
    pub destination_id: Option<u128>,
    /// The alias, for an entry about an alias
    pub alias_id: Option<u128>,
    /// The note, for an entry about a note
    pub note_id: Option<u128>,
}

impl<'a> AuditEntry<'a> {
    /// What the entry is about
    pub open spec fn subject_of(self) -> AuditSubject {
        match self {
            AuditEntry::CreateUser(user)
            | AuditEntry::ChangePassword(user)
            | AuditEntry::DeleteUser(user) => AuditSubject {
                user_id: Some(user.id),
                destination_id: None,
                alias_id: None,
                note_id: None,
            },
            AuditEntry::CreateDestination(destination)
            | AuditEntry::UpdateDestination(destination)
            | AuditEntry::DeleteDestination(destination) => AuditSubject {
                user_id: None,
                destination_id: Some(destination.id),
                alias_id: None,
                note_id: None,
            },
            AuditEntry::CreateAlias(destination, alias)
            | AuditEntry::DeleteAlias(destination, alias) => AuditSubject {
                user_id: None,
                destination_id: Some(destination.id),
                alias_id: Some(alias.id),
                note_id: None,
            },
            AuditEntry::CreateNote(destination, note)
            | AuditEntry::UpdateNote(destination, note)
            | AuditEntry::DeleteNote(destination, note) => AuditSubject {
                user_id: None,
                destination_id: Some(destination.id),
                alias_id: None,
                note_id: Some(note.id),
            },
        }
    }

    /// What the entry is about: the columns that the audit trail fills for it
    pub fn subject(&self) -> (subject: AuditSubject)
        ensures
            subject == self.subject_of(),
    {
        match self {
            AuditEntry::CreateUser(user)
            | AuditEntry::ChangePassword(user)
            | AuditEntry::DeleteUser(user) => AuditSubject {
                user_id: Some(user.id),
                destination_id: None,
                alias_id: None,
                note_id: None,
            },
            AuditEntry::CreateDestination(destination)
            | AuditEntry::UpdateDestination(destination)
            | AuditEntry::DeleteDestination(destination) => AuditSubject {
                user_id: None,
                destination_id: Some(destination.id),
                alias_id: None,
                note_id: None,
            },
            AuditEntry::CreateAlias(destination, alias)
            | AuditEntry::DeleteAlias(destination, alias) => AuditSubject {
                user_id: None,
                destination_id: Some(destination.id),
                alias_id: Some(alias.id),
                note_id: None,
            },
            AuditEntry::CreateNote(destination, note)
            | AuditEntry::UpdateNote(destination, note)
            | AuditEntry::DeleteNote(destination, note) => AuditSubject {
                user_id: None,
                destination_id: Some(destination.id),
                alias_id: None,
                note_id: Some(note.id),
            },
        }
    }
}

} // verus!
