use shurly::database::CreateDestinationValues;
use shurly::database::CreateNoteValues;
use shurly::database::CreateUserValues;
use shurly::database::ChangePasswordValues;
use shurly::database::UpdateDestinationValues;
use shurly::database::UpdateNoteValues;
use shurly::database::AuditEntry;
use shurly::storage::Memory;
use shurly::timestamp::Timestamp;
use shurly::users::Role;
use shurly::users::User;

fn tick(seconds: i64) -> Timestamp {
    Timestamp { seconds, nanoseconds: 0 }
}

fn add_user(memory: &mut Memory, id: u128, username: &str) -> User {
    let values = CreateUserValues {
        session_id: &(id + 100),
        role: Role::Manager,
        username,
        hashed_password: "hash",
    };
    memory.create_user(id, tick(1), &values).unwrap()
}

fn add_destination(memory: &mut Memory, user: &User, id: u128, slug: &str) -> shurly::destinations::Destination {
    let url = url::Url::parse("https://www.example.com").unwrap();
    let values = CreateDestinationValues {
        user,
        slug,
        url: &url,
        is_permanent: &false,
        forward_query_parameters: &true,
    };
    memory.create_destination(id, tick(2), &values).unwrap()
}

#[test]
fn new_memory_is_empty() {
    let memory = Memory::new();
    assert!(memory.find_any_single_user().unwrap().is_none());
    assert!(memory.find_all_users().unwrap().is_empty());
    assert!(memory.find_all_destinations().unwrap().is_empty());
    assert!(memory.find_single_destination_by_slug("x").unwrap().is_none());
    assert!(memory.find_single_note_by_id(&1, &2).unwrap().is_none());
    assert!(!memory.contains_user(1));
    assert!(!memory.contains_destination(1));
    assert!(!memory.contains_note(1));
}

#[test]
fn created_user_is_found() {
    let mut memory = Memory::new();
    let user = add_user(&mut memory, 4, "first");
    assert_eq!(user.id, 4);
    assert_eq!(user.session_id, 104);
    assert_eq!(user.username, "first");
    assert_eq!(user.hashed_password, "hash");
    assert_eq!(user.role, Role::Manager);
    assert_eq!(user.created_at, tick(1));
    assert_eq!(user.updated_at, tick(1));
    assert_eq!(user.deleted_at, None);
    add_user(&mut memory, 2, "second");

    assert!(memory.contains_user(4));
    assert!(!memory.contains_user(5));
    assert_eq!(memory.find_any_single_user().unwrap().unwrap().id, 4);
    assert_eq!(memory.find_single_user_by_id(&2).unwrap().unwrap().username, "second");
    assert!(memory.find_single_user_by_id(&3).unwrap().is_none());
    assert_eq!(memory.find_single_user_by_username("second").unwrap().unwrap().id, 2);
    assert!(memory.find_single_user_by_username("third").unwrap().is_none());
    let ids: Vec<u128> = memory.find_all_users().unwrap().iter().map(|user| user.id).collect();
    assert_eq!(ids, vec![4, 2]);
}

#[test]
fn user_with_a_stored_identifier_replaces_it() {
    let mut memory = Memory::new();
    add_user(&mut memory, 4, "first");
    add_user(&mut memory, 2, "second");
    add_user(&mut memory, 4, "again");
    let names: Vec<String> =
        memory.find_all_users().unwrap().into_iter().map(|user| user.username).collect();
    assert_eq!(names, vec!["second".to_string(), "again".to_string()]);
}

#[test]
fn deleted_user_is_no_longer_found() {
    let mut memory = Memory::new();
    let first = add_user(&mut memory, 4, "first");
    add_user(&mut memory, 2, "second");
    assert!(memory.delete_user(&first, tick(9)).is_ok());
    assert!(memory.contains_user(4));
    assert!(memory.find_single_user_by_id(&4).unwrap().is_none());
    assert!(memory.find_single_user_by_username("first").unwrap().is_none());
    assert_eq!(memory.find_any_single_user().unwrap().unwrap().id, 2);
    let ids: Vec<u128> = memory.find_all_users().unwrap().iter().map(|user| user.id).collect();
    assert_eq!(ids, vec![2]);
}

#[test]
fn changed_password_gives_a_new_session() {
    let mut memory = Memory::new();
    let first = add_user(&mut memory, 4, "first");
    add_user(&mut memory, 2, "second");
    let values = ChangePasswordValues { session_id: &77, hashed_password: "other" };
    let changed = memory.change_password(&first, &values).unwrap();
    assert_eq!(changed.id, 4);
    assert_eq!(changed.session_id, 77);
    assert_eq!(changed.hashed_password, "other");
    assert_eq!(changed.username, "first");
    let stored = memory.find_single_user_by_id(&4).unwrap().unwrap();
    assert_eq!(stored.session_id, 77);
    assert_eq!(stored.hashed_password, "other");
    let untouched = memory.find_single_user_by_id(&2).unwrap().unwrap();
    assert_eq!(untouched.session_id, 102);
    assert_eq!(untouched.hashed_password, "hash");
}

#[test]
fn created_destination_is_found() {
    let mut memory = Memory::new();
    let user = add_user(&mut memory, 4, "first");
    let destination = add_destination(&mut memory, &user, 10, "some-slug");
    assert_eq!(destination.id, 10);
    assert_eq!(destination.user_id, 4);
    assert_eq!(destination.slug, "some-slug");
    assert_eq!(destination.url, "https://www.example.com/");
    assert!(!destination.is_permanent);
    assert!(destination.forward_query_parameters);
    assert_eq!(destination.created_at, tick(2));
    assert_eq!(destination.deleted_at, None);
    add_destination(&mut memory, &user, 11, "other-slug");

    assert!(memory.contains_destination(10));
    assert_eq!(memory.find_single_destination_by_slug("other-slug").unwrap().unwrap().id, 11);
    assert!(memory.find_single_destination_by_slug("no-slug").unwrap().is_none());
    assert_eq!(memory.find_single_destination_by_id(&10).unwrap().unwrap().slug, "some-slug");
    let ids: Vec<u128> =
        memory.find_all_destinations().unwrap().iter().map(|destination| destination.id).collect();
    assert_eq!(ids, vec![10, 11]);
    // the users are as they were
    assert_eq!(memory.find_all_users().unwrap().len(), 1);
}

#[test]
fn deleted_destination_is_found_by_slug_only() {
    let mut memory = Memory::new();
    let user = add_user(&mut memory, 4, "first");
    let destination = add_destination(&mut memory, &user, 10, "some-slug");
    add_destination(&mut memory, &user, 11, "other-slug");
    assert!(memory.delete_destination(&destination, tick(9)).is_ok());

    let found = memory.find_single_destination_by_slug("some-slug").unwrap().unwrap();
    assert_eq!(found.deleted_at, Some(tick(9)));
    assert!(found.is_deleted());
    assert!(memory.find_single_destination_by_id(&10).unwrap().is_none());
    let ids: Vec<u128> =
        memory.find_all_destinations().unwrap().iter().map(|destination| destination.id).collect();
    assert_eq!(ids, vec![11]);
}

#[test]
fn updated_destination_keeps_what_is_not_given() {
    let mut memory = Memory::new();
    let user = add_user(&mut memory, 4, "first");
    let destination = add_destination(&mut memory, &user, 10, "some-slug");
    add_destination(&mut memory, &user, 11, "other-slug");

    let values = UpdateDestinationValues {
        url: Some(url::Url::parse("https://www.example.org/x").unwrap()),
        is_permanent: Some(&true),
        forward_query_parameters: None,
    };
    let updated = memory.update_destination(&destination, &values).unwrap();
    assert_eq!(updated.id, 10);
    assert_eq!(updated.url, "https://www.example.org/x");
    assert!(updated.is_permanent);
    assert!(updated.forward_query_parameters);
    assert_eq!(updated.slug, "some-slug");

    let stored = memory.find_single_destination_by_id(&10).unwrap().unwrap();
    assert_eq!(stored.url, "https://www.example.org/x");
    assert!(stored.is_permanent);
    let other = memory.find_single_destination_by_id(&11).unwrap().unwrap();
    assert_eq!(other.url, "https://www.example.com/");
    assert!(!other.is_permanent);

    let values = UpdateDestinationValues { url: None, is_permanent: None, forward_query_parameters: Some(&false) };
    let updated = memory.update_destination(&destination, &values).unwrap();
    assert_eq!(updated.url, "https://www.example.org/x");
    assert!(updated.is_permanent);
    assert!(!updated.forward_query_parameters);
}

#[test]
fn notes_belong_to_a_destination() {
    let mut memory = Memory::new();
    let user = add_user(&mut memory, 4, "first");
    let first = add_destination(&mut memory, &user, 10, "some-slug");
    let second = add_destination(&mut memory, &user, 11, "other-slug");

    let note = memory
        .create_note(20, tick(3), &first, &CreateNoteValues { user: &user, content: "one" })
        .unwrap();
    assert_eq!(note.id, 20);
    assert_eq!(note.user_id, 4);
    assert_eq!(note.destination_id, 10);
    assert_eq!(note.content, "one");
    assert_eq!(note.created_at, tick(3));
    assert_eq!(note.deleted_at, None);
    memory
        .create_note(21, tick(3), &second, &CreateNoteValues { user: &user, content: "two" })
        .unwrap();
    let third = memory
        .create_note(22, tick(3), &first, &CreateNoteValues { user: &user, content: "three" })
        .unwrap();

    let ids: Vec<u128> =
        memory.find_all_notes_by_destination(&first).unwrap().iter().map(|note| note.id).collect();
    assert_eq!(ids, vec![20, 22]);
    assert!(memory.contains_note(21));
    assert_eq!(memory.find_single_note_by_id(&10, &21).unwrap().unwrap().content, "two");

    let content = "changed".to_string();
    let updated = memory.update_note(&third, &UpdateNoteValues { content: Some(&content) }).unwrap();
    assert_eq!(updated.id, 22);
    assert_eq!(updated.content, "changed");
    let updated = memory.update_note(&third, &UpdateNoteValues { content: None }).unwrap();
    assert_eq!(updated.content, "changed");
    assert_eq!(memory.find_single_note_by_id(&10, &20).unwrap().unwrap().content, "one");

    assert!(memory.delete_note(&note, tick(9)).is_ok());
    assert!(memory.find_single_note_by_id(&10, &20).unwrap().is_none());
    let ids: Vec<u128> =
        memory.find_all_notes_by_destination(&first).unwrap().iter().map(|note| note.id).collect();
    assert_eq!(ids, vec![22]);
}

#[test]
fn memory_keeps_no_hits_and_no_audit_trail() {
    let mut memory = Memory::new();
    let user = add_user(&mut memory, 4, "first");
    let destination = add_destination(&mut memory, &user, 10, "some-slug");
    assert!(memory.save_hit(&destination, None, Some(&"agent".to_string())).is_ok());
    assert!(memory
        .register_audit_trail(&user, &AuditEntry::CreateDestination(&destination), None)
        .is_ok());
}
