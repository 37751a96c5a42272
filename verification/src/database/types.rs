//! Database storage types and functions

use vstd::prelude::*;

use super::form_types::AuditEntry;
use crate::timestamp::Timestamp;
use crate::users::Role;
use crate::users::User;
use crate::users::UserView;

verus! {

/// Storage type for user role
#[derive(Clone, Copy, Debug, PartialEq, Eq, Structural)]
pub enum UserRoleType {
    /// Admin
    Admin,
    /// Manager
    Manager,
}

impl UserRoleType {
    /// The storage type that stands for a role
    pub open spec fn of_role(role: Role) -> UserRoleType {
        match role {
            Role::Admin => UserRoleType::Admin,
            Role::Manager => UserRoleType::Manager,
        }
    }

    /// The role that a storage type stands for
    pub open spec fn role(self) -> Role {
        match self {
            UserRoleType::Admin => Role::Admin,
            UserRoleType::Manager => Role::Manager,
        }
    }

    /// Create user role type from role
    pub fn from_role(role: Role) -> (role_type: Self)
        ensures
            role_type == Self::of_role(role),
    {
        match role {
            Role::Admin => UserRoleType::Admin,
            Role::Manager => UserRoleType::Manager,
        }
    }

    /// Create role from user role type
    pub fn to_role(&self) -> (role: Role)
        ensures
            role == self.role(),
    {
        match self {
            UserRoleType::Admin => Role::Admin,
            UserRoleType::Manager => Role::Manager,
        }
    }
}

/// Storage type for audit trail entry type
#[derive(Clone, Copy, Debug, PartialEq, Eq, Structural)]
pub enum AuditEntryType {
    /// User is created
    CreateUser,
    /// User has changed password
    ChangePassword,
    /// User is deleted
    DeleteUser,
    /// Destination is created
    CreateDestination,
    /// Destination is updated
    UpdateDestination,
    /// Destination is deleted
    DeleteDestination,
    /// Alias is created
    CreateAlias,
    /// Alias is deleted
    DeleteAlias,
    /// Note is created
    CreateNote,
    /// Note is updated
    UpdateNote,
    /// Note is deleted
    DeleteNote,
}

impl AuditEntryType {
    /// The type of an audit entry
    pub open spec fn of_entry(entry: AuditEntry) -> AuditEntryType {
        match entry {
            AuditEntry::CreateUser(_) => AuditEntryType::CreateUser,
            AuditEntry::ChangePassword(_) => AuditEntryType::ChangePassword,
            AuditEntry::DeleteUser(_) => AuditEntryType::DeleteUser,
            AuditEntry::CreateDestination(_) => AuditEntryType::CreateDestination,
            AuditEntry::UpdateDestination(_) => AuditEntryType::UpdateDestination,
            AuditEntry::DeleteDestination(_) => AuditEntryType::DeleteDestination,
            AuditEntry::CreateAlias(_, _) => AuditEntryType::CreateAlias,
            AuditEntry::DeleteAlias(_, _) => AuditEntryType::DeleteAlias,
            AuditEntry::CreateNote(_, _) => AuditEntryType::CreateNote,
            AuditEntry::UpdateNote(_, _) => AuditEntryType::UpdateNote,
            AuditEntry::DeleteNote(_, _) => AuditEntryType::DeleteNote,
        }
    }

    /// Create audit entry type type from audit entry
    pub fn from_audit_entry(entry: &AuditEntry) -> (entry_type: Self)
        ensures
            entry_type == Self::of_entry(*entry),
    {
        match entry {
            AuditEntry::CreateUser(_) => Self::CreateUser,
            AuditEntry::ChangePassword(_) => Self::ChangePassword,
            AuditEntry::DeleteUser(_) => Self::DeleteUser,
            AuditEntry::CreateDestination(_) => Self::CreateDestination,
            AuditEntry::UpdateDestination(_) => Self::UpdateDestination,
            AuditEntry::DeleteDestination(_) => Self::DeleteDestination,
            AuditEntry::CreateAlias(_, _) => Self::CreateAlias,
            AuditEntry::DeleteAlias(_, _) => Self::DeleteAlias,
            AuditEntry::CreateNote(_, _) => Self::CreateNote,
            AuditEntry::UpdateNote(_, _) => Self::UpdateNote,
            AuditEntry::DeleteNote(_, _) => Self::DeleteNote,
        }
    }
}

/// Storage version of user
#[derive(Debug)]
pub struct SqlxUser {
    /// User ID
    pub id: u128,
    /// Sessions ID
    pub session_id: u128,
    /// Username
    pub username: String,
    /// Hashed password
    pub hashed_password: String,
    /// User role
    pub role: UserRoleType,
    /// Creation date
    pub created_at: Timestamp,
    /// Last updated at
    pub updated_at: Timestamp,
    /// Deleted at
    pub deleted_at: Option<Timestamp>,
}

impl SqlxUser {
    /// The user that the storage version stands for
    pub open spec fn user(self) -> UserView {
        UserView {
            id: self.id,
            session_id: self.session_id,
            username: self.username@,
            hashed_password: self.hashed_password@,
            role: self.role.role(),
            created_at: self.created_at,
            updated_at: self.updated_at,
            deleted_at: self.deleted_at,
        }
    }
}

impl User {
    /// Create user from storage version
    pub fn from_sqlx_user(user: SqlxUser) -> (converted: Self)
        ensures
            converted@ == user.user(),
    {
        Self {
            id: user.id,
            session_id: user.session_id,
            username: user.username,
            hashed_password: user.hashed_password,
            role: user.role.to_role(),
            created_at: user.created_at,
            updated_at: user.updated_at,
            deleted_at: user.deleted_at,
        }
    }

    /// Maybe create user from storage version
    pub fn from_sqlx_user_optional(user: Option<SqlxUser>) -> (converted: Option<Self>)
        ensures
            match user {
                Some(user) => converted matches Some(converted) && converted@ == user.user(),
                None => converted is None,
            },
    {
        match user {
            Some(user) => Some(Self::from_sqlx_user(user)),
            None => None,
        }
    }

    /// Create multiple user from storage version
    pub fn from_sqlx_user_multiple(users: Vec<SqlxUser>) -> (converted: Vec<Self>)
        ensures
            converted@.len() == users@.len(),
            forall|i: int| 0 <= i < users@.len() ==> #[trigger] converted@[i]@ == users@[i].user(),
    {
        let mut converted: Vec<Self> = Vec::new();
        for user in it: users
            invariant
                it.seq() == users@,
                converted@.len() == it.index(),
                forall|i: int|
                    0 <= i < converted@.len() ==> #[trigger] converted@[i]@ == users@[i].user(),
        {
            converted.push(Self::from_sqlx_user(user));
        }
        converted
    }
}

} // verus!
