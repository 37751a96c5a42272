//! Memory storage
//!
//! Will be destroyed on system shutdown

use vstd::prelude::*;

use crate::client_ip::IpAddress;
use crate::database::form_types::AuditEntry;
use crate::database::form_types::ChangePasswordValues;
use crate::database::form_types::CreateDestinationValues;
use crate::database::form_types::CreateNoteValues;
use crate::database::form_types::CreateUserValues;
use crate::database::form_types::UpdateDestinationValues;
use crate::database::form_types::UpdateNoteValues;
use crate::database::Error;
use crate::destinations::Destination;
use crate::destinations::DestinationView;
use crate::notes::Note;
use crate::notes::NoteView;
use crate::timestamp::Timestamp;
use crate::urls::as_str;
use crate::urls::url_text;
use crate::users::User;
use crate::users::UserView;

verus! {

/// The first of the items that is wanted, if one is
pub open spec fn first_of<T>(items: Seq<T>, wanted: spec_fn(T) -> bool) -> Option<T>
    decreases items.len(),
{
    if items.len() == 0 {
        None
    } else if wanted(items[0]) {
        Some(items[0])
    } else {
        first_of(items.drop_first(), wanted)
    }
}

/// The first wanted item of a list whose first items are not wanted is the
/// first wanted item of the rest.
proof fn lemma_first_of<T>(items: Seq<T>, wanted: spec_fn(T) -> bool, from: int)
    requires
        0 <= from <= items.len(),
        forall|k: int| 0 <= k < from ==> !wanted(#[trigger] items[k]),
    ensures
        first_of(items, wanted) == first_of(items.skip(from), wanted),
    decreases from,
{
    if from == 0 {
        assert(items.skip(0) =~= items);
    } else {
        assert(!wanted(items[0]));
        let rest = items.drop_first();
        assert forall|k: int| 0 <= k < from - 1 implies !wanted(#[trigger] rest[k]) by {
            assert(rest[k] == items[k + 1]);
        }
        lemma_first_of(rest, wanted, from - 1);
        assert(rest.skip(from - 1) =~= items.skip(from));
    }
}

/// The views of users
pub open spec fn user_views(users: Seq<User>) -> Seq<UserView> {
    users.map_values(|user: User| user@)
}

/// The views of destinations
pub open spec fn destination_views(destinations: Seq<Destination>) -> Seq<DestinationView> {
    destinations.map_values(|destination: Destination| destination@)
}

/// The views of notes
pub open spec fn note_views(notes: Seq<Note>) -> Seq<NoteView> {
    notes.map_values(|note: Note| note@)
}

/// The view of something that may be missing
pub open spec fn view_of<T: View>(found: Option<T>) -> Option<T::V> {
    match found {
        Some(found) => Some(found@),
        None => None,
    }
}

/// The users that are not deleted
pub open spec fn live_user() -> spec_fn(UserView) -> bool {
    |user: UserView| user.deleted_at is None
}

/// The user with the name, unless deleted
pub open spec fn live_user_named(username: Seq<char>) -> spec_fn(UserView) -> bool {
    |user: UserView| user.username == username && user.deleted_at is None
}

/// The user with the identifier, unless deleted
pub open spec fn live_user_with(id: u128) -> spec_fn(UserView) -> bool {
    |user: UserView| user.id == id && user.deleted_at is None
}

/// Every user but the one with the identifier
pub open spec fn user_without(id: u128) -> spec_fn(UserView) -> bool {
    |user: UserView| user.id != id
}

/// The user with a new session and password, where it is the one with the
/// identifier
pub open spec fn with_password(
    id: u128,
    session_id: u128,
    hashed_password: Seq<char>,
) -> spec_fn(UserView) -> UserView {
    |user: UserView|
        if user.id == id {
            UserView { session_id, hashed_password, ..user }
        } else {
            user
        }
}

/// The user deleted at a moment, where it is the one with the identifier
pub open spec fn user_deleted(id: u128, now: Timestamp) -> spec_fn(UserView) -> UserView {
    |user: UserView|
        if user.id == id {
            UserView { deleted_at: Some(now), ..user }
        } else {
            user
        }
}

/// An in-memory storage
///
/// Will be destroyed on system shutdown
#[derive(Debug)]
pub struct Memory {
    /// All users in storage, oldest first
    users: Vec<User>,
    /// All destinations in storage, oldest first
    destinations: Vec<Destination>,
    /// All notes in storage, oldest first
    notes: Vec<Note>,
}

impl Memory {
    /// All users in storage, oldest first
    pub closed spec fn users(&self) -> Seq<UserView> {
        user_views(self.users@)
    }

    /// All destinations in storage, oldest first
    pub closed spec fn destinations(&self) -> Seq<DestinationView> {
        destination_views(self.destinations@)
    }

    /// All notes in storage, oldest first
    pub closed spec fn notes(&self) -> Seq<NoteView> {
        note_views(self.notes@)
    }

    /// Create a new empty Memory storage
    pub fn new() -> (memory: Self)
        ensures
            memory.users() == Seq::<UserView>::empty(),
            memory.destinations() == Seq::<DestinationView>::empty(),
            memory.notes() == Seq::<NoteView>::empty(),
    {
        let memory = Self { users: Vec::new(), destinations: Vec::new(), notes: Vec::new() };
        proof {
            assert(memory.users() =~= Seq::<UserView>::empty());
            assert(memory.destinations() =~= Seq::<DestinationView>::empty());
            assert(memory.notes() =~= Seq::<NoteView>::empty());
        }
        memory
    }

    /// Find any single user
    ///
    /// Respects the soft-delete
    pub fn find_any_single_user(&self) -> (found: Result<Option<User>, Error>)
        ensures
            found matches Ok(user) && view_of(user) == first_of(self.users(), live_user()),
    {
        let mut i: usize = 0;
        while i < self.users.len()
            invariant
                i <= self.users.len(),
                forall|k: int| 0 <= k < i ==> !live_user()(#[trigger] self.users()[k]),
            decreases self.users.len() - i,
        {
            if self.users[i].deleted_at.is_none() {
                proof {
                    lemma_first_of(self.users(), live_user(), i as int);
                }
                return Ok(Some(self.users[i].clone()));
            }
            i = i + 1;
        }
        proof {
            lemma_first_of(self.users(), live_user(), i as int);
        }
        Ok(None)
    }

    /// Finds all users
    ///
    /// Respects the soft-delete
    pub fn find_all_users(&self) -> (found: Result<Vec<User>, Error>)
        ensures
            found matches Ok(users) && user_views(users@) == self.users().filter(live_user()),
    {
        let mut users: Vec<User> = Vec::new();
        let mut i: usize = 0;
        proof {
            reveal(Seq::filter);
            assert(self.users().take(0).filter(live_user()) =~= user_views(users@));
        }
        while i < self.users.len()
            invariant
                i <= self.users.len(),
                user_views(users@) == self.users().take(i as int).filter(live_user()),
            decreases self.users.len() - i,
        {
            proof {
                let before = self.users().take(i as int);
                assert(self.users().take(i + 1) =~= before.push(self.users()[i as int]));
                before.lemma_filter_push(self.users()[i as int], live_user());
            }
            if self.users[i].deleted_at.is_none() {
                let user = self.users[i].clone();
                proof {
                    assert(user_views(users@.push(user)) =~= user_views(users@).push(user@));
                }
                users.push(user);
            }
            i = i + 1;
        }
        proof {
            assert(self.users().take(self.users().len() as int) =~= self.users());
        }
        Ok(users)
    }

    /// Finds a single user by its username
    ///
    /// Respects the soft-delete
    pub fn find_single_user_by_username(&self, username: &str) -> (found: Result<
        Option<User>,
        Error,
    >)
        ensures
            found matches Ok(user) && view_of(user) == first_of(
                self.users(),
                live_user_named(username@),
            ),
    {
        let mut i: usize = 0;
        while i < self.users.len()
            invariant
                i <= self.users.len(),
                forall|k: int|
                    0 <= k < i ==> !live_user_named(username@)(#[trigger] self.users()[k]),
            decreases self.users.len() - i,
        {
            if crate::text::same_text(self.users[i].username.as_str(), username)
                && self.users[i].deleted_at.is_none() {
                proof {
                    lemma_first_of(self.users(), live_user_named(username@), i as int);
                }
                return Ok(Some(self.users[i].clone()));
            }
            i = i + 1;
        }
        proof {
            lemma_first_of(self.users(), live_user_named(username@), i as int);
        }
        Ok(None)
    }

    /// Finds a single user by its ID
    ///
    /// Respects the soft-delete
    pub fn find_single_user_by_id(&self, id: &u128) -> (found: Result<Option<User>, Error>)
        ensures
            found matches Ok(user) && view_of(user) == first_of(self.users(), live_user_with(*id)),
    {
        let mut i: usize = 0;
        while i < self.users.len()
            invariant
                i <= self.users.len(),
                forall|k: int| 0 <= k < i ==> !live_user_with(*id)(#[trigger] self.users()[k]),
            decreases self.users.len() - i,
        {
            if self.users[i].id == *id && self.users[i].deleted_at.is_none() {
                proof {
                    lemma_first_of(self.users(), live_user_with(*id), i as int);
                }
                return Ok(Some(self.users[i].clone()));
            }
            i = i + 1;
        }
        proof {
            lemma_first_of(self.users(), live_user_with(*id), i as int);
        }
        Ok(None)
    }

    /// Create a single user, with a fresh identifier, at a moment
    ///
    /// A user that has the identifier already is replaced.
    pub fn create_user(&mut self, id: u128, now: Timestamp, values: &CreateUserValues) -> (created:
        Result<User, Error>)
        ensures
            created matches Ok(user) && user@ == (UserView {
                id,
                session_id: *values.session_id,
                username: values.username@,
                hashed_password: values.hashed_password@,
                role: values.role,
                created_at: now,
                updated_at: now,
                deleted_at: None,
            }) && final(self).users() == old(self).users().filter(user_without(id)).push(user@),
            final(self).destinations() == old(self).destinations(),
            final(self).notes() == old(self).notes(),
    {
        let user = User {
            id,
            session_id: *values.session_id,
            username: values.username.to_owned(),
            hashed_password: values.hashed_password.to_owned(),
            role: values.role,
            created_at: now,
            updated_at: now,
            deleted_at: None,
        };
        let mut users: Vec<User> = Vec::new();
        let mut i: usize = 0;
        proof {
            reveal(Seq::filter);
            assert(self.users().take(0).filter(user_without(id)) =~= user_views(users@));
        }
        while i < self.users.len()
            invariant
                i <= self.users.len(),
                *self == *old(self),
                user_views(users@) == self.users().take(i as int).filter(user_without(id)),
            decreases self.users.len() - i,
        {
            proof {
                let before = self.users().take(i as int);
                assert(self.users().take(i + 1) =~= before.push(self.users()[i as int]));
                before.lemma_filter_push(self.users()[i as int], user_without(id));
            }
            if self.users[i].id != id {
                let other = self.users[i].clone();
                proof {
                    assert(user_views(users@.push(other)) =~= user_views(users@).push(other@));
                }
                users.push(other);
            }
            i = i + 1;
        }
        proof {
            assert(self.users().take(self.users().len() as int) =~= self.users());
            assert(user_views(users@.push(user)) =~= user_views(users@).push(user@));
        }
        let created = user.clone();
        users.push(user);
        self.users = users;
        Ok(created)
    }

    /// Whether a user with the identifier is stored, deleted or not
    pub open spec fn has_user(&self, id: u128) -> bool {
        exists|i: int| 0 <= i < self.users().len() && #[trigger] self.users()[i].id == id
    }

    /// Whether a user with the identifier is stored, deleted or not
    pub fn contains_user(&self, id: u128) -> (stored: bool)
        ensures
            stored == self.has_user(id),
    {
        let mut i: usize = 0;
        while i < self.users.len()
            invariant
                i <= self.users.len(),
                forall|k: int| 0 <= k < i ==> (#[trigger] self.users()[k]).id != id,
            decreases self.users.len() - i,
        {
            if self.users[i].id == id {
                assert(self.users()[i as int].id == id);
                return true;
            }
            i = i + 1;
        }
        false
    }

    /// Change the password of a user, which has to be stored
    pub fn change_password(&mut self, user: &User, values: &ChangePasswordValues) -> (changed:
        Result<User, Error>)
        requires
            old(self).has_user(user.id),
        ensures
            final(self).users() == old(self).users().map_values(
                with_password(user.id, *values.session_id, values.hashed_password@),
            ),
            changed matches Ok(updated) && first_of(
                final(self).users(),
                |stored: UserView| stored.id == user.id,
            ) == Some(updated@),
            final(self).destinations() == old(self).destinations(),
            final(self).notes() == old(self).notes(),
    {
        let ghost change = with_password(user.id, *values.session_id, values.hashed_password@);
        let ghost is_user = |stored: UserView| stored.id == user.id;
        let mut changed: Option<User> = None;
        let ghost mut at: int = 0;
        let mut i: usize = 0;
        while i < self.users.len()
            invariant
                i <= self.users.len(),
                self.users@.len() == old(self).users@.len(),
                self.destinations == old(self).destinations,
                self.notes == old(self).notes,
                change == with_password(user.id, *values.session_id, values.hashed_password@),
                is_user == |stored: UserView| stored.id == user.id,
                forall|k: int|
                    0 <= k < i ==> (#[trigger] self.users@[k])@ == change(old(self).users@[k]@),
                forall|k: int|
                    i <= k < self.users.len() ==> #[trigger] self.users@[k] == old(self).users@[k],
                match changed {
                    Some(updated) => 0 <= at < i && self.users@[at]@ == updated@
                        && self.users@[at].id == user.id && forall|j: int|
                        0 <= j < at ==> (#[trigger] self.users@[j]).id != user.id,
                    None => forall|k: int| 0 <= k < i ==> (#[trigger] self.users@[k]).id != user.id,
                },
            decreases self.users.len() - i,
        {
            if self.users[i].id == user.id {
                let mut updated = self.users[i].clone();
                updated.session_id = *values.session_id;
                updated.hashed_password = values.hashed_password.to_owned();
                if changed.is_none() {
                    changed = Some(updated.clone());
                    proof {
                        at = i as int;
                    }
                }
                self.users.set(i, updated);
            }
            i = i + 1;
        }
        proof {
            assert(self.users() =~= old(self).users().map_values(change));
            let k = choose|k: int|
                0 <= k < old(self).users().len() && #[trigger] old(self).users()[k].id == user.id;
            assert(self.users@[k].id == user.id);
        }
        match changed {
            Some(updated) => {
                proof {
                    let k = at;
                    assert forall|j: int| 0 <= j < k implies !is_user(
                        #[trigger] self.users()[j],
                    ) by {
                        assert(self.users@[j].id != user.id);
                    }
                    lemma_first_of(self.users(), is_user, k);
                    assert(self.users().skip(k)[0] == self.users@[k]@);
                }
                Ok(updated)
            },
            None => vstd::pervasive::unreached(),
        }
    }

    /// Soft-delete a user, at a moment
    pub fn delete_user(&mut self, user: &User, now: Timestamp) -> (deleted: Result<(), Error>)
        ensures
            deleted is Ok,
            final(self).users() == old(self).users().map_values(user_deleted(user.id, now)),
            final(self).destinations() == old(self).destinations(),
            final(self).notes() == old(self).notes(),
    {
        let ghost change = user_deleted(user.id, now);
        let mut i: usize = 0;
        while i < self.users.len()
            invariant
                i <= self.users.len(),
                self.users@.len() == old(self).users@.len(),
                self.destinations == old(self).destinations,
                self.notes == old(self).notes,
                change == user_deleted(user.id, now),
                forall|k: int|
                    0 <= k < i ==> (#[trigger] self.users@[k])@ == change(old(self).users@[k]@),
                forall|k: int|
                    i <= k < self.users.len() ==> #[trigger] self.users@[k] == old(self).users@[k],
            decreases self.users.len() - i,
        {
            if self.users[i].id == user.id {
                let mut updated = self.users[i].clone();
                updated.deleted_at = Some(now);
                self.users.set(i, updated);
            }
            i = i + 1;
        }
        proof {
            assert(self.users() =~= old(self).users().map_values(change));
        }
        Ok(())
    }
}

/// The destinations that are not deleted
pub open spec fn live_destination() -> spec_fn(DestinationView) -> bool {
    |destination: DestinationView| destination.deleted_at is None
}

/// The destination with the slug, deleted or not
pub open spec fn destination_with_slug(slug: Seq<char>) -> spec_fn(DestinationView) -> bool {
    |destination: DestinationView| destination.slug == slug
}

/// The destination with the identifier, unless deleted
pub open spec fn live_destination_with(id: u128) -> spec_fn(DestinationView) -> bool {
    |destination: DestinationView| destination.id == id && destination.deleted_at is None
}

/// Every destination but the one with the identifier
pub open spec fn destination_without(id: u128) -> spec_fn(DestinationView) -> bool {
    |destination: DestinationView| destination.id != id
}

/// The destination with the values that an update gives, where it is the one
/// with the identifier
pub open spec fn destination_updated(
    id: u128,
    url: Option<Seq<char>>,
    is_permanent: Option<bool>,
    forward_query_parameters: Option<bool>,
) -> spec_fn(DestinationView) -> DestinationView {
    |destination: DestinationView|
        if destination.id == id {
            DestinationView {
                url: match url {
                    Some(url) => url,
                    None => destination.url,
                },
                is_permanent: match is_permanent {
                    Some(is_permanent) => is_permanent,
                    None => destination.is_permanent,
                },
                forward_query_parameters: match forward_query_parameters {
                    Some(forward_query_parameters) => forward_query_parameters,
                    None => destination.forward_query_parameters,
                },
                ..destination
            }
        } else {
            destination
        }
}

/// The destination deleted at a moment, where it is the one with the
/// identifier
pub open spec fn destination_deleted(id: u128, now: Timestamp) -> spec_fn(
    DestinationView,
) -> DestinationView {
    |destination: DestinationView|
        if destination.id == id {
            DestinationView { deleted_at: Some(now), ..destination }
        } else {
            destination
        }
}

/// The URL that an update gives, if it gives one
pub open spec fn given_url(values: UpdateDestinationValues) -> Option<Seq<char>> {
    match values.url {
        Some(url) => Some(url_text(url)),
        None => None,
    }
}

/// What an update gives for a flag, if it gives something
pub open spec fn given_flag(flag: Option<&bool>) -> Option<bool> {
    match flag {
        Some(flag) => Some(*flag),
        None => None,
    }
}

impl Memory {
    /// Find all destinations
    ///
    /// Respects the soft-delete
    pub fn find_all_destinations(&self) -> (found: Result<Vec<Destination>, Error>)
        ensures
            found matches Ok(destinations) && destination_views(destinations@)
                == self.destinations().filter(live_destination()),
    {
        let mut destinations: Vec<Destination> = Vec::new();
        let mut i: usize = 0;
        proof {
            reveal(Seq::filter);
            assert(self.destinations().take(0).filter(live_destination()) =~= destination_views(
                destinations@,
            ));
        }
        while i < self.destinations.len()
            invariant
                i <= self.destinations.len(),
                destination_views(destinations@) == self.destinations().take(i as int).filter(
                    live_destination(),
                ),
            decreases self.destinations.len() - i,
        {
            proof {
                let before = self.destinations().take(i as int);
                assert(self.destinations().take(i + 1) =~= before.push(
                    self.destinations()[i as int],
                ));
                before.lemma_filter_push(self.destinations()[i as int], live_destination());
            }
            if self.destinations[i].deleted_at.is_none() {
                let destination = self.destinations[i].clone();
                proof {
                    assert(destination_views(destinations@.push(destination))
                        =~= destination_views(destinations@).push(destination@));
                }
                destinations.push(destination);
            }
            i = i + 1;
        }
        proof {
            assert(self.destinations().take(self.destinations().len() as int)
                =~= self.destinations());
        }
        Ok(destinations)
    }

    /// Find a single destination by slug
    ///
    /// DOES NOT respect the soft-delete, handle with care
    pub fn find_single_destination_by_slug(&self, slug: &str) -> (found: Result<
        Option<Destination>,
        Error,
    >)
        ensures
            found matches Ok(destination) && view_of(destination) == first_of(
                self.destinations(),
                destination_with_slug(slug@),
            ),
    {
        let mut i: usize = 0;
        while i < self.destinations.len()
            invariant
                i <= self.destinations.len(),
                forall|k: int|
                    0 <= k < i ==> !destination_with_slug(slug@)(
                        #[trigger] self.destinations()[k],
                    ),
            decreases self.destinations.len() - i,
        {
            if crate::text::same_text(self.destinations[i].slug.as_str(), slug) {
                proof {
                    lemma_first_of(self.destinations(), destination_with_slug(slug@), i as int);
                }
                return Ok(Some(self.destinations[i].clone()));
            }
            i = i + 1;
        }
        proof {
            lemma_first_of(self.destinations(), destination_with_slug(slug@), i as int);
        }
        Ok(None)
    }

    /// Find a single destination by ID
    ///
    /// Respects the soft-delete
    pub fn find_single_destination_by_id(&self, id: &u128) -> (found: Result<
        Option<Destination>,
        Error,
    >)
        ensures
            found matches Ok(destination) && view_of(destination) == first_of(
                self.destinations(),
                live_destination_with(*id),
            ),
    {
        let mut i: usize = 0;
        while i < self.destinations.len()
            invariant
                i <= self.destinations.len(),
                forall|k: int|
                    0 <= k < i ==> !live_destination_with(*id)(#[trigger] self.destinations()[k]),
            decreases self.destinations.len() - i,
        {
            if self.destinations[i].id == *id && self.destinations[i].deleted_at.is_none() {
                proof {
                    lemma_first_of(self.destinations(), live_destination_with(*id), i as int);
                }
                return Ok(Some(self.destinations[i].clone()));
            }
            i = i + 1;
        }
        proof {
            lemma_first_of(self.destinations(), live_destination_with(*id), i as int);
        }
        Ok(None)
    }

    /// Create a destination, with a fresh identifier, at a moment
    ///
    /// A destination that has the identifier already is replaced.
    pub fn create_destination(
        &mut self,
        id: u128,
        now: Timestamp,
        values: &CreateDestinationValues,
    ) -> (created: Result<Destination, Error>)
        ensures
            created matches Ok(destination) && destination@ == (DestinationView {
                id,
                user_id: values.user.id,
                slug: values.slug@,
                url: url_text(*values.url),
                is_permanent: *values.is_permanent,
                forward_query_parameters: *values.forward_query_parameters,
                created_at: now,
                updated_at: now,
                deleted_at: None,
            }) && final(self).destinations() == old(self).destinations().filter(
                destination_without(id),
            ).push(destination@),
            final(self).users() == old(self).users(),
            final(self).notes() == old(self).notes(),
    {
        let destination = Destination {
            id,
            user_id: values.user.id,
            slug: values.slug.to_owned(),
            url: as_str(values.url).to_owned(),
            is_permanent: *values.is_permanent,
            forward_query_parameters: *values.forward_query_parameters,
            created_at: now,
            updated_at: now,
            deleted_at: None,
        };
        let mut destinations: Vec<Destination> = Vec::new();
        let mut i: usize = 0;
        proof {
            reveal(Seq::filter);
            assert(self.destinations().take(0).filter(destination_without(id))
                =~= destination_views(destinations@));
        }
        while i < self.destinations.len()
            invariant
                i <= self.destinations.len(),
                *self == *old(self),
                destination_views(destinations@) == self.destinations().take(i as int).filter(
                    destination_without(id),
                ),
            decreases self.destinations.len() - i,
        {
            proof {
                let before = self.destinations().take(i as int);
                assert(self.destinations().take(i + 1) =~= before.push(
                    self.destinations()[i as int],
                ));
                before.lemma_filter_push(self.destinations()[i as int], destination_without(id));
            }
            if self.destinations[i].id != id {
                let other = self.destinations[i].clone();
                proof {
                    assert(destination_views(destinations@.push(other)) =~= destination_views(
                        destinations@,
                    ).push(other@));
                }
                destinations.push(other);
            }
            i = i + 1;
        }
        proof {
            assert(self.destinations().take(self.destinations().len() as int)
                =~= self.destinations());
            assert(destination_views(destinations@.push(destination)) =~= destination_views(
                destinations@,
            ).push(destination@));
        }
        let created = destination.clone();
        destinations.push(destination);
        self.destinations = destinations;
        Ok(created)
    }

    /// Whether a destination with the identifier is stored, deleted or not
    pub open spec fn has_destination(&self, id: u128) -> bool {
        exists|i: int|
            0 <= i < self.destinations().len() && #[trigger] self.destinations()[i].id == id
    }

    /// Whether a destination with the identifier is stored, deleted or not
    pub fn contains_destination(&self, id: u128) -> (stored: bool)
        ensures
            stored == self.has_destination(id),
    {
        let mut i: usize = 0;
        while i < self.destinations.len()
            invariant
                i <= self.destinations.len(),
                forall|k: int| 0 <= k < i ==> (#[trigger] self.destinations()[k]).id != id,
            decreases self.destinations.len() - i,
        {
            if self.destinations[i].id == id {
                assert(self.destinations()[i as int].id == id);
                return true;
            }
            i = i + 1;
        }
        false
    }

    /// Update a single destination, which has to be stored
    ///
    /// Only the values that are given are changed.
    pub fn update_destination(
        &mut self,
        destination: &Destination,
        values: &UpdateDestinationValues,
    ) -> (changed: Result<Destination, Error>)
        requires
            old(self).has_destination(destination.id),
        ensures
            final(self).destinations() == old(self).destinations().map_values(
                destination_updated(
                    destination.id,
                    given_url(*values),
                    given_flag(values.is_permanent),
                    given_flag(values.forward_query_parameters),
                ),
            ),
            changed matches Ok(updated) && first_of(
                final(self).destinations(),
                |stored: DestinationView| stored.id == destination.id,
            ) == Some(updated@),
            final(self).users() == old(self).users(),
            final(self).notes() == old(self).notes(),
    {
        let ghost change = destination_updated(
            destination.id,
            given_url(*values),
            given_flag(values.is_permanent),
            given_flag(values.forward_query_parameters),
        );
        let ghost is_destination = |stored: DestinationView| stored.id == destination.id;
        let mut changed: Option<Destination> = None;
        let ghost mut at: int = 0;
        let mut i: usize = 0;
        while i < self.destinations.len()
            invariant
                i <= self.destinations.len(),
                self.destinations@.len() == old(self).destinations@.len(),
                self.users == old(self).users,
                self.notes == old(self).notes,
                change == destination_updated(
                    destination.id,
                    given_url(*values),
                    given_flag(values.is_permanent),
                    given_flag(values.forward_query_parameters),
                ),
                forall|k: int|
                    0 <= k < i ==> (#[trigger] self.destinations@[k])@ == change(
                        old(self).destinations@[k]@,
                    ),
                forall|k: int|
                    i <= k < self.destinations.len() ==> #[trigger] self.destinations@[k] == old(
                        self,
                    ).destinations@[k],
                match changed {
                    Some(updated) => 0 <= at < i && self.destinations@[at]@ == updated@
                        && self.destinations@[at].id == destination.id && forall|j: int|
                        0 <= j < at ==> (#[trigger] self.destinations@[j]).id != destination.id,
                    None => forall|k: int|
                        0 <= k < i ==> (#[trigger] self.destinations@[k]).id != destination.id,
                },
            decreases self.destinations.len() - i,
        {
            if self.destinations[i].id == destination.id {
                let mut updated = self.destinations[i].clone();
                if let Some(url) = &values.url {
                    updated.url = as_str(url).to_owned();
                }
                if let Some(is_permanent) = values.is_permanent {
                    updated.is_permanent = *is_permanent;
                }
                if let Some(forward_query_parameters) = values.forward_query_parameters {
                    updated.forward_query_parameters = *forward_query_parameters;
                }
                if changed.is_none() {
                    changed = Some(updated.clone());
                    proof {
                        at = i as int;
                    }
                }
                self.destinations.set(i, updated);
            }
            i = i + 1;
        }
        proof {
            assert(self.destinations() =~= old(self).destinations().map_values(change));
            let k = choose|k: int|
                0 <= k < old(self).destinations().len() && #[trigger] old(
                    self,
                ).destinations()[k].id == destination.id;
            assert(self.destinations@[k].id == destination.id);
        }
        match changed {
            Some(updated) => {
                proof {
                    assert forall|j: int| 0 <= j < at implies !is_destination(
                        #[trigger] self.destinations()[j],
                    ) by {
                        assert(self.destinations@[j].id != destination.id);
                    }
                    lemma_first_of(self.destinations(), is_destination, at);
                    assert(self.destinations().skip(at)[0] == self.destinations@[at]@);
                }
                Ok(updated)
            },
            None => vstd::pervasive::unreached(),
        }
    }

    /// Soft-delete a destination, at a moment
    pub fn delete_destination(&mut self, destination: &Destination, now: Timestamp) -> (deleted:
        Result<(), Error>)
        ensures
            deleted is Ok,
            final(self).destinations() == old(self).destinations().map_values(
                destination_deleted(destination.id, now),
            ),
            final(self).users() == old(self).users(),
            final(self).notes() == old(self).notes(),
    {
        let ghost change = destination_deleted(destination.id, now);
        let mut i: usize = 0;
        while i < self.destinations.len()
            invariant
                i <= self.destinations.len(),
                self.destinations@.len() == old(self).destinations@.len(),
                self.users == old(self).users,
                self.notes == old(self).notes,
                change == destination_deleted(destination.id, now),
                forall|k: int|
                    0 <= k < i ==> (#[trigger] self.destinations@[k])@ == change(
                        old(self).destinations@[k]@,
                    ),
                forall|k: int|
                    i <= k < self.destinations.len() ==> #[trigger] self.destinations@[k] == old(
                        self,
                    ).destinations@[k],
            decreases self.destinations.len() - i,
        {
            if self.destinations[i].id == destination.id {
                let mut updated = self.destinations[i].clone();
                updated.deleted_at = Some(now);
                self.destinations.set(i, updated);
            }
            i = i + 1;
        }
        proof {
            assert(self.destinations() =~= old(self).destinations().map_values(change));
        }
        Ok(())
    }
}

/// The notes of the destination with the identifier that are not deleted
pub open spec fn live_note_of(destination_id: u128) -> spec_fn(NoteView) -> bool {
    |note: NoteView| note.destination_id == destination_id && note.deleted_at is None
}

/// The note with the identifier, unless deleted
pub open spec fn live_note_with(id: u128) -> spec_fn(NoteView) -> bool {
    |note: NoteView| note.id == id && note.deleted_at is None
}

/// Every note but the one with the identifier
pub open spec fn note_without(id: u128) -> spec_fn(NoteView) -> bool {
    |note: NoteView| note.id != id
}

/// The note with the content that an update gives, where it is the one with
/// the identifier and the update gives a content
pub open spec fn note_updated(id: u128, content: Option<Seq<char>>) -> spec_fn(NoteView) -> NoteView {
    |note: NoteView|
        if note.id == id {
            NoteView {
                content: match content {
                    Some(content) => content,
                    None => note.content,
                },
                ..note
            }
        } else {
            note
        }
}

/// The note deleted at a moment, where it is the one with the identifier
pub open spec fn note_deleted(id: u128, now: Timestamp) -> spec_fn(NoteView) -> NoteView {
    |note: NoteView|
        if note.id == id {
            NoteView { deleted_at: Some(now), ..note }
        } else {
            note
        }
}

/// The content that an update gives, if it gives one
pub open spec fn given_content(values: UpdateNoteValues) -> Option<Seq<char>> {
    match values.content {
        Some(content) => Some(content@),
        None => None,
    }
}

impl Memory {
    /// Find all notes of a destination
    ///
    /// Respects the soft-delete
    pub fn find_all_notes_by_destination(&self, destination: &Destination) -> (found: Result<
        Vec<Note>,
        Error,
    >)
        ensures
            found matches Ok(notes) && note_views(notes@) == self.notes().filter(
                live_note_of(destination.id),
            ),
    {
        let ghost wanted = live_note_of(destination.id);
        let mut notes: Vec<Note> = Vec::new();
        let mut i: usize = 0;
        proof {
            reveal(Seq::filter);
            assert(self.notes().take(0).filter(wanted) =~= note_views(notes@));
        }
        while i < self.notes.len()
            invariant
                i <= self.notes.len(),
                wanted == live_note_of(destination.id),
                note_views(notes@) == self.notes().take(i as int).filter(wanted),
            decreases self.notes.len() - i,
        {
            proof {
                let before = self.notes().take(i as int);
                assert(self.notes().take(i + 1) =~= before.push(self.notes()[i as int]));
                before.lemma_filter_push(self.notes()[i as int], wanted);
            }
            if self.notes[i].destination_id == destination.id && self.notes[i].deleted_at.is_none() {
                let note = self.notes[i].clone();
                proof {
                    assert(note_views(notes@.push(note)) =~= note_views(notes@).push(note@));
                }
                notes.push(note);
            }
            i = i + 1;
        }
        proof {
            assert(self.notes().take(self.notes().len() as int) =~= self.notes());
        }
        Ok(notes)
    }

    /// Find single note by its ID
    ///
    /// Respects the soft-delete. The destination is not looked at.
    pub fn find_single_note_by_id(&self, _destination_id: &u128, note_id: &u128) -> (found: Result<
        Option<Note>,
        Error,
    >)
        ensures
            found matches Ok(note) && view_of(note) == first_of(
                self.notes(),
                live_note_with(*note_id),
            ),
    {
        let mut i: usize = 0;
        while i < self.notes.len()
            invariant
                i <= self.notes.len(),
                forall|k: int| 0 <= k < i ==> !live_note_with(*note_id)(#[trigger] self.notes()[k]),
            decreases self.notes.len() - i,
        {
            if self.notes[i].id == *note_id && self.notes[i].deleted_at.is_none() {
                proof {
                    lemma_first_of(self.notes(), live_note_with(*note_id), i as int);
                }
                return Ok(Some(self.notes[i].clone()));
            }
            i = i + 1;
        }
        proof {
            lemma_first_of(self.notes(), live_note_with(*note_id), i as int);
        }
        Ok(None)
    }

    /// Create a note for a destination, with a fresh identifier, at a moment
    ///
    /// A note that has the identifier already is replaced.
    pub fn create_note(
        &mut self,
        id: u128,
        now: Timestamp,
        destination: &Destination,
        values: &CreateNoteValues,
    ) -> (created: Result<Note, Error>)
        ensures
            created matches Ok(note) && note@ == (NoteView {
                id,
                user_id: values.user.id,
                destination_id: destination.id,
                content: values.content@,
                created_at: now,
                updated_at: now,
                deleted_at: None,
            }) && final(self).notes() == old(self).notes().filter(note_without(id)).push(note@),
            final(self).users() == old(self).users(),
            final(self).destinations() == old(self).destinations(),
    {
        let note = Note {
            id,
            user_id: values.user.id,
            destination_id: destination.id,
            content: values.content.to_owned(),
            created_at: now,
            updated_at: now,
            deleted_at: None,
        };
        let mut notes: Vec<Note> = Vec::new();
        let mut i: usize = 0;
        proof {
            reveal(Seq::filter);
            assert(self.notes().take(0).filter(note_without(id)) =~= note_views(notes@));
        }
        while i < self.notes.len()
            invariant
                i <= self.notes.len(),
                *self == *old(self),
                note_views(notes@) == self.notes().take(i as int).filter(note_without(id)),
            decreases self.notes.len() - i,
        {
            proof {
                let before = self.notes().take(i as int);
                assert(self.notes().take(i + 1) =~= before.push(self.notes()[i as int]));
                before.lemma_filter_push(self.notes()[i as int], note_without(id));
            }
            if self.notes[i].id != id {
                let other = self.notes[i].clone();
                proof {
                    assert(note_views(notes@.push(other)) =~= note_views(notes@).push(other@));
                }
                notes.push(other);
            }
            i = i + 1;
        }
        proof {
            assert(self.notes().take(self.notes().len() as int) =~= self.notes());
            assert(note_views(notes@.push(note)) =~= note_views(notes@).push(note@));
        }
        let created = note.clone();
        notes.push(note);
        self.notes = notes;
        Ok(created)
    }

    /// Whether a note with the identifier is stored, deleted or not
    pub open spec fn has_note(&self, id: u128) -> bool {
        exists|i: int| 0 <= i < self.notes().len() && #[trigger] self.notes()[i].id == id
    }

    /// Whether a note with the identifier is stored, deleted or not
    pub fn contains_note(&self, id: u128) -> (stored: bool)
        ensures
            stored == self.has_note(id),
    {
        let mut i: usize = 0;
        while i < self.notes.len()
            invariant
                i <= self.notes.len(),
                forall|k: int| 0 <= k < i ==> (#[trigger] self.notes()[k]).id != id,
            decreases self.notes.len() - i,
        {
            if self.notes[i].id == id {
                assert(self.notes()[i as int].id == id);
                return true;
            }
            i = i + 1;
        }
        false
    }

    /// Update a note, which has to be stored
    ///
    /// The content is changed only where one is given.
    pub fn update_note(&mut self, note: &Note, values: &UpdateNoteValues) -> (changed: Result<
        Note,
        Error,
    >)
        requires
            old(self).has_note(note.id),
        ensures
            final(self).notes() == old(self).notes().map_values(
                note_updated(note.id, given_content(*values)),
            ),
            changed matches Ok(updated) && first_of(
                final(self).notes(),
                |stored: NoteView| stored.id == note.id,
            ) == Some(updated@),
            final(self).users() == old(self).users(),
            final(self).destinations() == old(self).destinations(),
    {
        let ghost change = note_updated(note.id, given_content(*values));
        let ghost is_note = |stored: NoteView| stored.id == note.id;
        let mut changed: Option<Note> = None;
        let ghost mut at: int = 0;
        let mut i: usize = 0;
        while i < self.notes.len()
            invariant
                i <= self.notes.len(),
                self.notes@.len() == old(self).notes@.len(),
                self.users == old(self).users,
                self.destinations == old(self).destinations,
                change == note_updated(note.id, given_content(*values)),
                forall|k: int|
                    0 <= k < i ==> (#[trigger] self.notes@[k])@ == change(old(self).notes@[k]@),
                forall|k: int|
                    i <= k < self.notes.len() ==> #[trigger] self.notes@[k] == old(self).notes@[k],
                match changed {
                    Some(updated) => 0 <= at < i && self.notes@[at]@ == updated@
                        && self.notes@[at].id == note.id && forall|j: int|
                        0 <= j < at ==> (#[trigger] self.notes@[j]).id != note.id,
                    None => forall|k: int| 0 <= k < i ==> (#[trigger] self.notes@[k]).id != note.id,
                },
            decreases self.notes.len() - i,
        {
            if self.notes[i].id == note.id {
                let mut updated = self.notes[i].clone();
                if let Some(content) = values.content {
                    updated.content = content.clone();
                }
                if changed.is_none() {
                    changed = Some(updated.clone());
                    proof {
                        at = i as int;
                    }
                }
                self.notes.set(i, updated);
            }
            i = i + 1;
        }
        proof {
            assert(self.notes() =~= old(self).notes().map_values(change));
            let k = choose|k: int|
                0 <= k < old(self).notes().len() && #[trigger] old(self).notes()[k].id == note.id;
            assert(self.notes@[k].id == note.id);
        }
        match changed {
            Some(updated) => {
                proof {
                    assert forall|j: int| 0 <= j < at implies !is_note(
                        #[trigger] self.notes()[j],
                    ) by {
                        assert(self.notes@[j].id != note.id);
                    }
                    lemma_first_of(self.notes(), is_note, at);
                    assert(self.notes().skip(at)[0] == self.notes@[at]@);
                }
                Ok(updated)
            },
            None => vstd::pervasive::unreached(),
        }
    }

    /// Soft-delete a note, at a moment
    pub fn delete_note(&mut self, note: &Note, now: Timestamp) -> (deleted: Result<(), Error>)
        ensures
            deleted is Ok,
            final(self).notes() == old(self).notes().map_values(note_deleted(note.id, now)),
            final(self).users() == old(self).users(),
            final(self).destinations() == old(self).destinations(),
    {
        let ghost change = note_deleted(note.id, now);
        let mut i: usize = 0;
        while i < self.notes.len()
            invariant
                i <= self.notes.len(),
                self.notes@.len() == old(self).notes@.len(),
                self.users == old(self).users,
                self.destinations == old(self).destinations,
                change == note_deleted(note.id, now),
                forall|k: int|
                    0 <= k < i ==> (#[trigger] self.notes@[k])@ == change(old(self).notes@[k]@),
                forall|k: int|
                    i <= k < self.notes.len() ==> #[trigger] self.notes@[k] == old(self).notes@[k],
            decreases self.notes.len() - i,
        {
            if self.notes[i].id == note.id {
                let mut updated = self.notes[i].clone();
                updated.deleted_at = Some(now);
                self.notes.set(i, updated);
            }
            i = i + 1;
        }
        proof {
            assert(self.notes() =~= old(self).notes().map_values(change));
        }
        Ok(())
    }

    /// Save a hit on a destination: this storage keeps none
    pub fn save_hit(
        &self,
        _destination: &Destination,
        _ip_address: Option<&IpAddress>,
        _user_agent: Option<&String>,
    ) -> (saved: Result<(), Error>)
        ensures
            saved is Ok,
    {
        Ok(())
    }

    /// Register a creative/destructive action on the audit trail: this
    /// storage keeps none
    pub fn register_audit_trail(
        &self,
        _created_by: &User,
        _entry: &AuditEntry,
        _ip_address: Option<&IpAddress>,
    ) -> (registered: Result<(), Error>)
        ensures
            registered is Ok,
    {
        Ok(())
    }
}

} // verus!
