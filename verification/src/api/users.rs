//! User API management

use vstd::prelude::*;

use super::response::failure;
use super::response::Error;
use super::response::ErrorView;
use super::response::BAD_REQUEST;
use super::response::INTERNAL_SERVER_ERROR;
use super::response::NOT_FOUND;
use super::utils::found_or_not_found;
use super::utils::storage_failure;
use crate::password::generate;
use crate::password::hash;
use crate::password::password_matches;
use crate::password::verify;
use crate::users::Role;
use crate::users::User;
use crate::users::UserView;

verus! {

/// The user response information
///
/// A subset of all the information, ready to be shown to the outside world
#[derive(Debug)]
pub struct UserResponse {
    /// The user ID
    pub id: u128,
    /// The username
    pub username: String,
    /// The role of the user
    pub role: Role,
    /// The password, if generated
    pub password: Option<String>,
}

/// What a user response holds, as mathematical values
pub struct UserResponseView {
    pub id: u128,
    pub username: Seq<char>,
    pub role: Role,
    pub password: Option<Seq<char>>,
}

impl View for UserResponse {
    type V = UserResponseView;

    open spec fn view(&self) -> UserResponseView {
        UserResponseView {
            id: self.id,
            username: self.username@,
            role: self.role,
            password: match self.password {
                Some(password) => Some(password@),
                None => None,
            },
        }
    }
}

impl UserView {
    /// The response that shows the user: never with a password
    pub open spec fn response(self) -> UserResponseView {
        UserResponseView { id: self.id, username: self.username, role: self.role, password: None }
    }
}

/// The responses that show the users, in their order
pub open spec fn user_responses(users: Seq<User>) -> Seq<UserResponseView> {
    users.map_values(|user: User| user@.response())
}

/// The views of the user responses
pub open spec fn user_response_views(responses: Seq<UserResponse>) -> Seq<UserResponseView> {
    responses.map_values(|response: UserResponse| response@)
}

impl UserResponse {
    /// Create a user response from a [`User`](User)
    pub fn from_user(user: User) -> (response: Self)
        ensures
            response@ == user@.response(),
    {
        Self { id: user.id, username: user.username, role: user.role, password: None }
    }

    /// Add a password to the user response
    ///
    /// This is explicit extra action to take, to make sure this is really what you want to do
    pub fn set_password(&mut self, password: &str)
        ensures
            final(self)@ == (UserResponseView { password: Some(password@), ..old(self)@ }),
    {
        self.password = Some(password.to_owned());
    }

    /// Create a user response from multiple [`User`](User)s
    pub fn from_user_multiple(users: Vec<User>) -> (responses: Vec<Self>)
        ensures
            user_response_views(responses@) == user_responses(users@),
    {
        let mut responses: Vec<Self> = Vec::new();
        for user in it: users
            invariant
                it.seq() == users@,
                user_response_views(responses@) == user_responses(users@.take(it.index() as int)),
        {
            proof {
                assert(users@.take(it.index() + 1) =~= users@.take(it.index() as int).push(user));
                assert(user_responses(users@.take(it.index() as int).push(user)) =~= user_responses(
                    users@.take(it.index() as int),
                ).push(user@.response()));
            }
            let response = Self::from_user(user);
            proof {
                assert(user_response_views(responses@.push(response)) =~= user_response_views(
                    responses@,
                ).push(response@));
            }
            responses.push(response);
        }
        proof {
            assert(users@.take(users@.len() as int) =~= users@);
        }
        responses
    }
}

/// Login form
#[derive(Debug)]
pub struct LoginForm {
    /// Username of the user
    pub username: String,
    /// Password of the user
    pub password: String,
}

/// Create user form
#[derive(Debug)]
pub struct CreateUserForm {
    /// Role of the new user
    pub role: Role,
    /// Username of the new user
    pub username: String,
    /// Optional password of the new user
    ///
    /// When not provided a new password will be generated and returned in the response, this will
    /// be the only time the password is visible -- make sure to capture it.
    pub password: Option<String>,
}

/// Change password form
///
/// New password is optional
#[derive(Debug)]
pub struct ChangePasswordForm {
    /// Current password for verification
    pub current_password: String,
    /// New (optional) password
    ///
    /// When not provided a new password will be generated and returned in the response, this will
    /// be the only time the password is visible -- make sure to capture it.
    pub password: Option<String>,
}

/// Why a login is refused, if it is: the storage has to answer, the user has
/// to be there, and the password has to be the one of the user. A login for
/// nobody and one with a wrong password are refused alike.
pub open spec fn login_refusal(
    found: Result<Option<User>, crate::database::Error>,
    password: Seq<char>,
) -> Option<ErrorView> {
    match found {
        Err(error) => Some(storage_failure(error@)),
        Ok(None) => Some(failure(BAD_REQUEST, "Invalid user"@)),
        Ok(Some(user)) => if password_matches(user@.hashed_password, password) {
            None
        } else {
            Some(failure(BAD_REQUEST, "Invalid user"@))
        },
    }
}

/// Check a login: the user that the storage found for the username of the
/// form gets a token for a "session" where the password of the form is theirs
pub fn token(found: Result<Option<User>, crate::database::Error>, form: &LoginForm) -> (checked:
    Result<User, Error>)
    ensures
        match login_refusal(found, form.password@) {
            Some(refused) => checked matches Err(error) && error@ == refused,
            None => checked matches Ok(user) && Some(user) == found->Ok_0,
        },
{
    match found {
        Err(error) => Err(Error::internal_server_error(error.to_string().as_str())),
        Ok(None) => Err(Error::bad_request("Invalid user")),
        Ok(Some(user)) => {
            if verify(user.hashed_password.as_str(), form.password.as_str()) {
                Ok(user)
            } else {
                Err(Error::bad_request("Invalid user"))
            }
        },
    }
}

/// Whom a request about a user is about
#[derive(Debug)]
pub enum Subject {
    /// The user with the identifier, to be looked up
    Other(u128),
    /// The current user
    Me(User),
}

/// The role that a request about a user asks of the current user: an admin
/// for another user, a manager for oneself
pub open spec fn needed_role(user_id: Option<u128>) -> Role {
    match user_id {
        Some(_) => Role::Admin,
        None => Role::Manager,
    }
}

/// Whom a request about a single user is about: the user that the path
/// names, for which the current user has to be an admin, or the current user
/// where the path names `me`
pub fn single(current_user: &User, user_id: Option<u128>) -> (subject: Result<Subject, Error>)
    ensures
        match subject {
            Ok(Subject::Other(id)) => user_id == Some(id) && current_user.role.allows(Role::Admin),
            Ok(Subject::Me(user)) => user_id is None && user@ == current_user@
                && current_user.role.allows(Role::Manager),
            Err(error) => !current_user.role.allows(needed_role(user_id)) && error@ == failure(
                super::response::FORBIDDEN,
                "Not allowed to acces"@,
            ),
        },
{
    match user_id {
        Some(user_id) => {
            current_user.role.is_allowed(Role::Admin)?;
            Ok(Subject::Other(user_id))
        },
        None => {
            current_user.role.is_allowed(Role::Manager)?;
            Ok(Subject::Me(current_user.clone()))
        },
    }
}

/// Why a user cannot be created, if so: the storage has to answer, and no
/// user, deleted or not, may have the username
pub open spec fn create_refusal(found: Result<Option<User>, crate::database::Error>) -> Option<
    ErrorView,
> {
    match found {
        Err(error) => Some(storage_failure(error@)),
        Ok(Some(user)) => if user@.deleted_at.is_some() {
            Some(failure(BAD_REQUEST, "User already exists and is deleted"@))
        } else {
            Some(failure(BAD_REQUEST, "User already exists"@))
        },
        Ok(None) => None,
    }
}

/// The password that a user gets, with its hash
#[derive(Debug)]
pub struct NewPassword {
    /// The password
    pub password: String,
    /// Whether the password was generated, as the form gave none
    pub is_generated: bool,
    /// The hash of the password, to store
    pub hashed_password: String,
}

/// The password for a user whose form gave none, from what generating one
/// gave: the password, or an internal server error where there is none
pub fn generated_password(generated: Option<String>) -> (password: Result<String, Error>)
    ensures
        match generated {
            Some(text) => password == Ok::<String, Error>(text),
            None => password matches Err(error) && error@ == failure(
                INTERNAL_SERVER_ERROR,
                "Could not generate password"@,
            ),
        },
{
    match generated {
        Some(password) => Ok(password),
        None => Err(Error::internal_server_error("Could not generate password")),
    }
}

/// The password that a user gets, from what hashing it gave: the password
/// with its hash, or an internal server error where there is no hash
pub fn hashed_password(password: String, is_generated: bool, hashed: Option<String>) -> (chosen:
    Result<NewPassword, Error>)
    ensures
        match hashed {
            Some(hashed_password) => chosen matches Ok(chosen) && chosen.password == password
                && chosen.is_generated == is_generated && chosen.hashed_password
                == hashed_password,
            None => chosen matches Err(error) && error@ == failure(
                INTERNAL_SERVER_ERROR,
                "Could not hash password"@,
            ),
        },
{
    match hashed {
        Some(hashed_password) => Ok(NewPassword { password, is_generated, hashed_password }),
        None => Err(Error::internal_server_error("Could not hash password")),
    }
}

/// The password that a user gets: the one of the form or, where the form has
/// none, a generated one; and its hash
///
/// Gives an internal server error where no password could be generated or
/// hashed.
pub fn new_password(given: Option<String>) -> (chosen: Result<NewPassword, Error>)
    ensures
        match chosen {
            Ok(chosen) => chosen.is_generated == (given is None) && (given matches Some(password)
                ==> chosen.password == password) && password_matches(
                chosen.hashed_password@,
                chosen.password@,
            ),
            Err(error) => error@ == failure(
                INTERNAL_SERVER_ERROR,
                "Could not generate password"@,
            ) || error@ == failure(INTERNAL_SERVER_ERROR, "Could not hash password"@),
        },
{
    let (is_generated, password) = match given {
        Some(password) => (false, password),
        None => (true, generated_password(generate())?),
    };
    let hashed = hash(password.as_str());
    hashed_password(password, is_generated, hashed)
}

/// What a user is created with, once the form was checked
#[derive(Debug)]
pub struct NewUser {
    /// The role of the new user
    pub role: Role,
    /// The username of the new user
    pub username: String,
    /// The password of the new user, with its hash
    pub password: NewPassword,
}

/// Check the form to create a user, with what the storage found for the
/// username of the form, and choose the password
///
/// Nobody, deleted or not, may have the username. The password is the one of
/// the form or, where the form has none, a generated one.
pub fn create(found: Result<Option<User>, crate::database::Error>, form: CreateUserForm) -> (checked:
    Result<NewUser, Error>)
    ensures
        match create_refusal(found) {
            Some(refused) => checked matches Err(error) && error@ == refused,
            None => match checked {
                Ok(user) => user.role == form.role && user.username == form.username
                    && user.password.is_generated == (form.password is None) && (
                form.password matches Some(password) ==> user.password.password == password)
                    && password_matches(
                    user.password.hashed_password@,
                    user.password.password@,
                ),
                Err(error) => error@ == failure(
                    INTERNAL_SERVER_ERROR,
                    "Could not generate password"@,
                ) || error@ == failure(INTERNAL_SERVER_ERROR, "Could not hash password"@),
            },
        },
{
    match found {
        Err(error) => Err(Error::internal_server_error(error.to_string().as_str())),
        Ok(Some(user)) => {
            if user.is_deleted() {
                Err(Error::bad_request("User already exists and is deleted"))
            } else {
                Err(Error::bad_request("User already exists"))
            }
        },
        Ok(None) => {
            let password = new_password(form.password)?;
            Ok(NewUser { role: form.role, username: form.username, password })
        },
    }
}

/// The response for a user that was created: with the password only where it
/// was generated, as this is the only time that anybody knows it
pub fn created(user: User, password: &NewPassword) -> (response: UserResponse)
    ensures
        response@ == (UserResponseView {
            password: if password.is_generated {
                Some(password.password@)
            } else {
                None
            },
            ..user@.response()
        }),
{
    let mut response = UserResponse::from_user(user);
    // only add the generated password, its the only time the password is known to anybody
    if password.is_generated {
        response.set_password(password.password.as_str());
    }
    response
}

/// Check the form to change the password of a user, and choose the new
/// password: the current password of the form has to be the one of the user
pub fn change_password(user: &User, form: ChangePasswordForm) -> (chosen: Result<
    NewPassword,
    Error,
>)
    ensures
        match chosen {
            Ok(chosen) => password_matches(user@.hashed_password, form.current_password@)
                && chosen.is_generated == (form.password is None) && (form.password matches Some(
                password,
            ) ==> chosen.password == password) && password_matches(
                chosen.hashed_password@,
                chosen.password@,
            ),
            Err(error) => if password_matches(user@.hashed_password, form.current_password@) {
                error@ == failure(INTERNAL_SERVER_ERROR, "Could not generate password"@) || error@
                    == failure(INTERNAL_SERVER_ERROR, "Could not hash password"@)
            } else {
                error@ == failure(BAD_REQUEST, "Invalid password"@)
            },
        },
{
    if !verify(user.hashed_password.as_str(), form.current_password.as_str()) {
        return Err(Error::bad_request("Invalid password"));
    }
    new_password(form.password)
}

/// Fetch a user from storage: what the handler goes on with after the
/// storage looked the user up
pub fn fetch_user(found: Result<Option<User>, crate::database::Error>) -> (checked: Result<
    User,
    Error,
>)
    ensures
        match found {
            Ok(Some(user)) => checked == Ok::<User, Error>(user),
            Ok(None) => checked matches Err(failed) && failed@ == failure(
                NOT_FOUND,
                "User not found"@,
            ),
            Err(error) => checked matches Err(failed) && failed@ == storage_failure(error@),
        },
{
    found_or_not_found(found, "User not found")
}

} // verus!
