//! Users

use vstd::prelude::*;

use crate::api::response::failure;
use crate::api::response::Error;
use crate::api::response::INTERNAL_SERVER_ERROR;
use crate::api::users::new_password;
use crate::ids::hyphenated;
use crate::ids::id_text;
use crate::password::password_matches;
use crate::timestamp::Timestamp;
use crate::utils::given;
use crate::utils::is_given;

verus! {

/// User roles
#[derive(Clone, Copy, Debug, PartialEq, Eq, Structural)]
pub enum Role {
    /// Manage users/destinations/notes
    Admin,
    /// Manage destinations/notes
    Manager,
}

/// The user
#[derive(Debug)]
pub struct User {
    /// User ID
    pub id: u128,
    /// Sessions ID, linked to the token generation
    pub session_id: u128,
    /// Username
    pub username: String,
    /// Hashed password
    pub hashed_password: String,
    /// Role of the user
    pub role: Role,
    /// Creation date
    pub created_at: Timestamp,
    /// Last updated at
    pub updated_at: Timestamp,
    /// Soft-deleted at
    pub deleted_at: Option<Timestamp>,
}

/// What a user holds, as mathematical values
pub struct UserView {
    pub id: u128,
    pub session_id: u128,
    pub username: Seq<char>,
    pub hashed_password: Seq<char>,
    pub role: Role,
    pub created_at: Timestamp,
    pub updated_at: Timestamp,
    pub deleted_at: Option<Timestamp>,
}

impl View for User {
    type V = UserView;

    open spec fn view(&self) -> UserView {
        UserView {
            id: self.id,
            session_id: self.session_id,
            username: self.username@,
            hashed_password: self.hashed_password@,
            role: self.role,
            created_at: self.created_at,
            updated_at: self.updated_at,
            deleted_at: self.deleted_at,
        }
    }
}

impl Clone for User {
    fn clone(&self) -> (copy: Self)
        ensures
            copy@ == self@,
    {
        User {
            id: self.id,
            session_id: self.session_id,
            username: self.username.clone(),
            hashed_password: self.hashed_password.clone(),
            role: self.role,
            created_at: self.created_at,
            updated_at: self.updated_at,
            deleted_at: self.deleted_at,
        }
    }
}

impl User {
    /// Is the user soft-deleted?
    pub fn is_deleted(&self) -> (deleted: bool)
        ensures
            deleted == self@.deleted_at.is_some(),
    {
        self.deleted_at.is_some()
    }
}

/// The first user, to create where the storage holds none
#[derive(Debug)]
pub struct InitialUser {
    /// The username
    pub username: String,
    /// Whether the username was generated, as none was given
    pub username_is_generated: bool,
    /// The password
    pub password: String,
    /// Whether the password was generated, as none was given
    pub password_is_generated: bool,
    /// The hash of the password, to store
    pub hashed_password: String,
    /// The role: the first user is an admin
    pub role: Role,
}

/// On startup, ensure there is at least a single user
///
/// Where the storage found no user, the first user is to be created, as an
/// admin: with the username and the password that are given or, where one is
/// not set or empty, with the text of a fresh identifier as the username and
/// a generated password. Which of the two were generated is told, for the
/// logs.
///
/// Gives an internal server error where no password could be generated or
/// hashed.
pub fn ensure_initial_user(
    found: &Option<User>,
    initial_username: Option<String>,
    fresh_id: u128,
    initial_password: Option<String>,
) -> (initial: Result<Option<InitialUser>, Error>)
    ensures
        match initial {
            Ok(None) => found is Some,
            Ok(Some(user)) => found is None && user.role == Role::Admin
                && user.username_is_generated == !is_given(initial_username)
                && user.password_is_generated == !is_given(initial_password) && (if is_given(
                initial_username,
            ) {
                Some(user.username) == initial_username
            } else {
                user.username@ == hyphenated(fresh_id)
            }) && (is_given(initial_password) ==> Some(user.password) == initial_password)
                && password_matches(user.hashed_password@, user.password@),
            Err(error) => found is None && (error@ == failure(
                INTERNAL_SERVER_ERROR,
                "Could not generate password"@,
            ) || error@ == failure(INTERNAL_SERVER_ERROR, "Could not hash password"@)),
        },
{
    if found.is_some() {
        return Ok(None);
    }
    let (username_is_generated, username) = match given(initial_username) {
        Some(username) => (false, username),
        None => (true, id_text(fresh_id)),
    };
    let chosen = new_password(given(initial_password))?;
    Ok(
        Some(
            InitialUser {
                username,
                username_is_generated,
                password: chosen.password,
                password_is_generated: chosen.is_generated,
                hashed_password: chosen.hashed_password,
                role: Role::Admin,
            },
        ),
    )
}

} // verus!
