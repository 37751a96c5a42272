use shurly::aliases::Alias;
use shurly::api::aliases::fetch_alias;
use shurly::api::aliases::new_slug;
use shurly::api::aliases::CreateAliasForm;
use shurly::api::aliases::AliasResponse;
use shurly::api::current_user::claims;
use shurly::api::current_user::current_user;
use shurly::api::current_user::decoded;
use shurly::api::current_user::generate_token;
use shurly::api::current_user::Claims;
use shurly::api::current_user::Token;
use shurly::api::current_user::EXPIRES_IN;
use shurly::api::destinations::CreateDestinationForm;
use shurly::api::destinations::DestinationResponse;
use shurly::api::destinations::DestinationResponseBuilder;
use shurly::api::destinations::UpdateDestinationForm;
use shurly::api::notes::fetch_note;
use shurly::api::notes::CreateNoteForm;
use shurly::api::notes::UpdateNoteForm;
use shurly::api::notes::NoteResponse;
use shurly::api::utils::fetch_destination;
use shurly::api::utils::found_or_not_found;
use shurly::api::utils::stored;
use shurly::api::request::JsonFailure;
use shurly::api::request::PathFailure;
use shurly::api::CurrentUser;
use shurly::api::Form;
use shurly::api::PathParameters;
use shurly::api::Error;
use shurly::api::Success;
use shurly::database::types::AuditEntryType;
use shurly::database::types::SqlxUser;
use shurly::database::types::UserRoleType;
use shurly::database::AuditEntry;
use shurly::database::UpdateDestinationValues;
use shurly::database::UpdateNoteValues;
use shurly::destinations::Destination;
use shurly::notes::Note;
use shurly::timestamp::Timestamp;
use shurly::users::Role;
use shurly::users::User;

fn at(seconds: i64) -> Timestamp {
    Timestamp { seconds, nanoseconds: 5 }
}

fn destination_with(id: u128, is_permanent: bool) -> Destination {
    Destination {
        id,
        user_id: 1,
        slug: format!("slug-{id}"),
        url: "https://www.example.com/".to_string(),
        is_permanent,
        forward_query_parameters: true,
        created_at: at(10),
        updated_at: at(20),
        deleted_at: None,
    }
}

fn alias_with(id: u128, destination_id: u128) -> Alias {
    Alias {
        id,
        user_id: 1,
        slug: format!("alias-{id}"),
        destination_id,
        created_at: at(11),
        updated_at: at(21),
        deleted_at: None,
    }
}

fn note_with(id: u128, destination_id: u128) -> Note {
    Note {
        id,
        user_id: 1,
        destination_id,
        content: format!("note-{id}"),
        created_at: at(12),
        updated_at: at(22),
        deleted_at: None,
    }
}

fn user_with(id: u128, role: Role) -> User {
    User {
        id,
        session_id: 1000 + id,
        username: format!("user-{id}"),
        hashed_password: "hash".to_string(),
        role,
        created_at: at(1),
        updated_at: at(2),
        deleted_at: None,
    }
}

fn ids_of_aliases(response: &DestinationResponse) -> Option<Vec<u128>> {
    response.aliases.as_ref().map(|aliases| aliases.iter().map(|alias| alias.id).collect())
}

fn ids_of_notes(response: &DestinationResponse) -> Option<Vec<u128>> {
    response.notes.as_ref().map(|notes| notes.iter().map(|note| note.id).collect())
}

#[test]
fn success_carries_status_and_data() {
    let success = Success::ok(5);
    assert_eq!(success.status_code, 200);
    assert_eq!(success.data, Some(5));
    let success = Success::created("x");
    assert_eq!(success.status_code, 201);
    assert_eq!(success.data, Some("x"));
    let success = Success::<u8>::no_content();
    assert_eq!(success.status_code, 204);
    assert_eq!(success.data, None);
}

#[test]
fn errors_carry_status_and_message() {
    let error = Error::bad_request("a");
    assert_eq!((error.status_code, error.message.as_str(), error.description), (400, "a", None));
    let error = Error::forbidden("b");
    assert_eq!((error.status_code, error.message.as_str(), error.description), (403, "b", None));
    let error = Error::not_found("c");
    assert_eq!((error.status_code, error.message.as_str(), error.description), (404, "c", None));
    let error = Error::internal_server_error("d");
    assert_eq!((error.status_code, error.message.as_str(), error.description), (500, "d", None));
}

#[test]
fn with_description_keeps_status_and_message() {
    let error = Error::not_found("a").with_description("because");
    assert_eq!(error.status_code, 404);
    assert_eq!(error.message, "a");
    assert_eq!(error.description, Some("because".to_string()));
    let error = error.with_description("again");
    assert_eq!(error.description, Some("again".to_string()));
}

#[test]
fn admin_is_allowed_everything() {
    assert!(Role::Admin.is_allowed(Role::Admin).is_ok());
    assert!(Role::Admin.is_allowed(Role::Manager).is_ok());
}

#[test]
fn manager_is_allowed_what_a_manager_may() {
    assert!(Role::Manager.is_allowed(Role::Manager).is_ok());
    let error = Role::Manager.is_allowed(Role::Admin).unwrap_err();
    assert_eq!(error.status_code, 403);
    assert_eq!(error.message, "Not allowed to acces");
    assert_eq!(error.description, None);
}

#[test]
fn role_types_stand_for_roles() {
    assert_eq!(UserRoleType::from_role(Role::Admin), UserRoleType::Admin);
    assert_eq!(UserRoleType::from_role(Role::Manager), UserRoleType::Manager);
    assert_eq!(UserRoleType::Admin.to_role(), Role::Admin);
    assert_eq!(UserRoleType::Manager.to_role(), Role::Manager);
}

#[test]
fn audit_entries_have_a_type_and_a_subject() {
    let user = user_with(1, Role::Admin);
    let destination = destination_with(2, false);
    let alias = alias_with(3, 2);
    let note = note_with(4, 2);

    let entry = AuditEntry::CreateUser(&user);
    assert_eq!(AuditEntryType::from_audit_entry(&entry), AuditEntryType::CreateUser);
    let subject = entry.subject();
    assert_eq!(
        (subject.user_id, subject.destination_id, subject.alias_id, subject.note_id),
        (Some(1), None, None, None)
    );
    let entry = AuditEntry::ChangePassword(&user);
    assert_eq!(AuditEntryType::from_audit_entry(&entry), AuditEntryType::ChangePassword);
    assert_eq!(entry.subject().user_id, Some(1));
    let entry = AuditEntry::DeleteUser(&user);
    assert_eq!(AuditEntryType::from_audit_entry(&entry), AuditEntryType::DeleteUser);
    assert_eq!(entry.subject().user_id, Some(1));

    let entry = AuditEntry::CreateDestination(&destination);
    assert_eq!(AuditEntryType::from_audit_entry(&entry), AuditEntryType::CreateDestination);
    let subject = entry.subject();
    assert_eq!(
        (subject.user_id, subject.destination_id, subject.alias_id, subject.note_id),
        (None, Some(2), None, None)
    );
    let entry = AuditEntry::UpdateDestination(&destination);
    assert_eq!(AuditEntryType::from_audit_entry(&entry), AuditEntryType::UpdateDestination);
    let entry = AuditEntry::DeleteDestination(&destination);
    assert_eq!(AuditEntryType::from_audit_entry(&entry), AuditEntryType::DeleteDestination);
    assert_eq!(entry.subject().destination_id, Some(2));

    let entry = AuditEntry::CreateAlias(&destination, &alias);
    assert_eq!(AuditEntryType::from_audit_entry(&entry), AuditEntryType::CreateAlias);
    let subject = entry.subject();
    assert_eq!(
        (subject.user_id, subject.destination_id, subject.alias_id, subject.note_id),
        (None, Some(2), Some(3), None)
    );
    let entry = AuditEntry::DeleteAlias(&destination, &alias);
    assert_eq!(AuditEntryType::from_audit_entry(&entry), AuditEntryType::DeleteAlias);
    assert_eq!(entry.subject().alias_id, Some(3));

    let entry = AuditEntry::CreateNote(&destination, &note);
    assert_eq!(AuditEntryType::from_audit_entry(&entry), AuditEntryType::CreateNote);
    let subject = entry.subject();
    assert_eq!(
        (subject.user_id, subject.destination_id, subject.alias_id, subject.note_id),
        (None, Some(2), None, Some(4))
    );
    let entry = AuditEntry::UpdateNote(&destination, &note);
    assert_eq!(AuditEntryType::from_audit_entry(&entry), AuditEntryType::UpdateNote);
    let entry = AuditEntry::DeleteNote(&destination, &note);
    assert_eq!(AuditEntryType::from_audit_entry(&entry), AuditEntryType::DeleteNote);
    assert_eq!(entry.subject().note_id, Some(4));
}

#[test]
fn users_come_from_their_storage_version() {
    let stored_user = |id: u128, role: UserRoleType| SqlxUser {
        id,
        session_id: id + 1,
        username: format!("name-{id}"),
        hashed_password: format!("hash-{id}"),
        role,
        created_at: at(1),
        updated_at: at(2),
        deleted_at: Some(at(3)),
    };
    let user = User::from_sqlx_user(stored_user(4, UserRoleType::Manager));
    assert_eq!(user.id, 4);
    assert_eq!(user.session_id, 5);
    assert_eq!(user.username, "name-4");
    assert_eq!(user.hashed_password, "hash-4");
    assert_eq!(user.role, Role::Manager);
    assert_eq!(user.created_at, at(1));
    assert_eq!(user.updated_at, at(2));
    assert_eq!(user.deleted_at, Some(at(3)));
    assert!(user.is_deleted());

    assert!(User::from_sqlx_user_optional(None).is_none());
    assert_eq!(User::from_sqlx_user_optional(Some(stored_user(6, UserRoleType::Admin))).unwrap().id, 6);

    let users = User::from_sqlx_user_multiple(vec![
        stored_user(3, UserRoleType::Admin),
        stored_user(1, UserRoleType::Manager),
        stored_user(2, UserRoleType::Admin),
    ]);
    let ids: Vec<u128> = users.iter().map(|user| user.id).collect();
    assert_eq!(ids, vec![3, 1, 2]);
    assert_eq!(users[1].role, Role::Manager);
    assert_eq!(User::from_sqlx_user_multiple(Vec::new()).len(), 0);
}

#[test]
fn alias_responses_show_an_alias() {
    let response = AliasResponse::from_alias(alias_with(3, 2));
    assert_eq!(response.id, 3);
    assert_eq!(response.destination_id, 2);
    assert_eq!(response.slug, "alias-3");
    assert_eq!(response.created_at, at(11));
    assert_eq!(response.updated_at, at(21));

    let responses = AliasResponse::from_alias_multiple(vec![alias_with(3, 2), alias_with(1, 2)]);
    let ids: Vec<u128> = responses.iter().map(|response| response.id).collect();
    assert_eq!(ids, vec![3, 1]);
}

#[test]
fn note_responses_show_a_note() {
    let response = NoteResponse::from_note(note_with(4, 2));
    assert_eq!(response.id, 4);
    assert_eq!(response.content, "note-4");
    assert_eq!(response.created_at, at(12));
    assert_eq!(response.updated_at, at(22));

    let responses = NoteResponse::from_note_multiple(vec![note_with(4, 2), note_with(1, 3)]);
    let ids: Vec<u128> = responses.iter().map(|response| response.id).collect();
    assert_eq!(ids, vec![4, 1]);
}

#[test]
fn destination_response_shows_a_destination() {
    let response = DestinationResponse::from_destination(
        destination_with(2, true),
        Some(vec![alias_with(3, 2)]),
        None,
    );
    assert_eq!(response.id, 2);
    assert_eq!(response.slug, "slug-2");
    assert_eq!(response.url, "https://www.example.com/");
    assert!(response.is_permanent);
    assert!(response.forward_query_parameters);
    assert_eq!(response.created_at, at(10));
    assert_eq!(response.updated_at, at(20));
    assert_eq!(ids_of_aliases(&response), Some(vec![3]));
    assert_eq!(ids_of_notes(&response), None);
}

#[test]
fn single_builder_includes_what_it_was_given() {
    let builder = DestinationResponseBuilder::single(destination_with(2, false));
    assert_eq!(builder.destination_ids(), vec![2]);
    let response = builder.build();
    assert_eq!(ids_of_aliases(&response), None);
    assert_eq!(ids_of_notes(&response), None);

    let response = DestinationResponseBuilder::single(destination_with(2, false))
        .with_aliases(vec![alias_with(3, 2), alias_with(4, 9)])
        .with_notes(Vec::new())
        .build();
    assert_eq!(response.id, 2);
    assert_eq!(ids_of_aliases(&response), Some(vec![3, 4]));
    assert_eq!(ids_of_notes(&response), Some(Vec::new()));
}

#[test]
fn multiple_builder_gives_each_destination_its_own() {
    let destinations = vec![destination_with(2, false), destination_with(1, false), destination_with(5, false)];
    let builder = DestinationResponseBuilder::multiple(destinations);
    assert_eq!(builder.destination_ids(), vec![2, 1, 5]);
    let responses = builder
        .with_aliases(vec![
            alias_with(10, 1),
            alias_with(11, 2),
            alias_with(12, 1),
            alias_with(13, 7),
            alias_with(14, 2),
        ])
        .with_notes(vec![note_with(20, 5), note_with(21, 5), note_with(22, 2)])
        .build();
    assert_eq!(responses.len(), 3);
    assert_eq!(responses[0].id, 2);
    assert_eq!(ids_of_aliases(&responses[0]), Some(vec![11, 14]));
    assert_eq!(ids_of_notes(&responses[0]), Some(vec![22]));
    assert_eq!(responses[1].id, 1);
    assert_eq!(ids_of_aliases(&responses[1]), Some(vec![10, 12]));
    assert_eq!(ids_of_notes(&responses[1]), Some(Vec::new()));
    assert_eq!(responses[2].id, 5);
    assert_eq!(ids_of_aliases(&responses[2]), Some(Vec::new()));
    assert_eq!(ids_of_notes(&responses[2]), Some(vec![20, 21]));
}

#[test]
fn multiple_builder_without_aliases_and_notes() {
    let responses =
        DestinationResponseBuilder::multiple(vec![destination_with(2, false), destination_with(1, false)])
            .build();
    assert_eq!(responses.len(), 2);
    assert_eq!(ids_of_aliases(&responses[0]), None);
    assert_eq!(ids_of_notes(&responses[1]), None);
    assert_eq!(DestinationResponseBuilder::multiple(Vec::new()).with_aliases(Vec::new()).build().len(), 0);
}

#[test]
fn multiple_builder_gives_a_repeated_destination_nothing_twice() {
    let responses =
        DestinationResponseBuilder::multiple(vec![destination_with(2, false), destination_with(2, false)])
            .with_aliases(vec![alias_with(11, 2)])
            .build();
    assert_eq!(ids_of_aliases(&responses[0]), Some(vec![11]));
    assert_eq!(ids_of_aliases(&responses[1]), Some(Vec::new()));
}

#[test]
fn new_slug_is_parsed_and_not_reserved() {
    assert_eq!(new_slug("/example/").unwrap(), "example");
    assert_eq!(new_slug("api-blabla").unwrap(), "api-blabla");
    assert_eq!(new_slug("").unwrap(), "");
    let error = new_slug("api/blabla").unwrap_err();
    assert_eq!(error.status_code, 400);
    assert_eq!(error.message, "Slug can not start with 'api/'");
    let error = new_slug("/api/blabla").unwrap_err();
    assert_eq!(error.message, "Slug can not start with 'api/'");
    let error = new_slug("api/bla?bla").unwrap_err();
    assert_eq!(error.message, "Slug can not contain \"?\"");
}

#[test]
fn create_alias_form_is_checked() {
    let form = CreateAliasForm { slug: "/example/".to_string() };
    assert_eq!(shurly::api::aliases::create(&form).unwrap(), "example");
    let form = CreateAliasForm { slug: "api/example".to_string() };
    let error = shurly::api::aliases::create(&form).unwrap_err();
    assert_eq!((error.status_code, error.message.as_str()), (400, "Slug can not start with 'api/'"));
    let form = CreateAliasForm { slug: "exa#mple".to_string() };
    let error = shurly::api::aliases::create(&form).unwrap_err();
    assert_eq!(error.message, "Slug can not contain \"#\"");
}

#[test]
fn note_forms_give_the_values() {
    let user = user_with(4, Role::Manager);
    let form = CreateNoteForm { content: "Used on the 26-07 ad campaign".to_string() };
    let values = shurly::api::notes::create(&user, &form);
    assert_eq!(values.user.id, 4);
    assert_eq!(values.content, "Used on the 26-07 ad campaign");

    let form = UpdateNoteForm { content: Some("changed".to_string()) };
    assert_eq!(shurly::api::notes::update(&form).content, Some(&"changed".to_string()));
    let form = UpdateNoteForm { content: None };
    assert_eq!(shurly::api::notes::update(&form).content, None);
}

#[test]
fn forms_and_path_parameters_come_from_what_was_read() {
    let Form(form) = Form::from_request(Ok(7u8)).ok().unwrap();
    assert_eq!(form, 7);
    let error = Form::<u8>::from_request(Err(JsonFailure::MissingJsonContentType)).err().unwrap();
    assert_eq!(
        (error.status_code, error.message.as_str()),
        (400, "Missing `application/json` content type")
    );

    let PathParameters(parameters) = PathParameters::from_request_parts(Ok((1u8, 2u8))).ok().unwrap();
    assert_eq!(parameters, (1, 2));
    let error = PathParameters::<u8>::from_request_parts(Err(PathFailure::MissingPathParams(
        "none".to_string(),
    )))
    .err()
    .unwrap();
    assert_eq!((error.status_code, error.message.as_str()), (400, "Missing path parameter"));
    assert_eq!(error.description, Some("none".to_string()));
}

#[test]
fn create_destination_form_is_checked() {
    let form = |slug: &str, url: &str| CreateDestinationForm {
        slug: slug.to_string(),
        url: url.to_string(),
        is_permanent: None,
        forward_query_parameters: Some(true),
    };
    let values = shurly::api::destinations::create(&form("/hello-world/", "https://www.example.com"))
        .ok()
        .unwrap();
    assert_eq!(values.slug, "hello-world");
    assert_eq!(values.url.as_str(), "https://www.example.com/");
    assert!(!values.is_permanent);
    assert!(values.forward_query_parameters);

    let mut permanent = form("x", "https://www.example.com/");
    permanent.is_permanent = Some(true);
    permanent.forward_query_parameters = None;
    let values = shurly::api::destinations::create(&permanent).ok().unwrap();
    assert!(values.is_permanent);
    assert!(!values.forward_query_parameters);

    let error =
        shurly::api::destinations::create(&form("hello?world", "no url")).err().unwrap();
    assert_eq!(error.message, "Slug can not contain \"?\"");
    let error = shurly::api::destinations::create(&form("api/x", "no url")).err().unwrap();
    assert_eq!(error.status_code, 400);
    assert_eq!(error.message, "relative URL without a base");
    let error = shurly::api::destinations::create(&form("api/x", "https://www.example.com/"))
        .err()
        .unwrap();
    assert_eq!(error.message, "Slug can not start with 'api/'");
}

#[test]
fn update_destination_form_is_checked() {
    let form = UpdateDestinationForm {
        url: Some("https://www.example.org".to_string()),
        is_permanent: Some(true),
        forward_query_parameters: None,
    };
    let destination = destination_with(2, false);
    let values = shurly::api::destinations::update(&destination, &form).ok().unwrap();
    assert_eq!(values.url.as_ref().unwrap().as_str(), "https://www.example.org/");
    assert_eq!(values.is_permanent, Some(&true));
    assert_eq!(values.forward_query_parameters, None);
    let updated = values.updated(&destination);
    assert_eq!(updated.url, "https://www.example.org/");
    assert!(updated.is_permanent);
    assert!(updated.forward_query_parameters);

    let nothing = UpdateDestinationForm { url: None, is_permanent: None, forward_query_parameters: Some(false) };
    let values = shurly::api::destinations::update(&destination, &nothing).ok().unwrap();
    assert!(values.url.is_none());
    let updated = values.updated(&destination);
    assert_eq!(updated.url, "https://www.example.com/");
    assert!(!updated.is_permanent);
    assert!(!updated.forward_query_parameters);

    let error =
        shurly::api::destinations::update(&destination_with(2, true), &form).err().unwrap();
    assert_eq!(error.status_code, 400);
    assert_eq!(error.message, "Permanent URLs can not be updated");

    let bad = UpdateDestinationForm {
        url: Some("no url".to_string()),
        is_permanent: None,
        forward_query_parameters: None,
    };
    let error = shurly::api::destinations::update(&destination, &bad).err().unwrap();
    assert_eq!(error.message, "relative URL without a base");
}

#[test]
fn permanent_destinations_are_not_deleted() {
    assert!(shurly::api::destinations::delete(&destination_with(2, false)).is_ok());
    let error = shurly::api::destinations::delete(&destination_with(2, true)).unwrap_err();
    assert_eq!(error.status_code, 400);
    assert_eq!(error.message, "Permanent URLs can not be deleted");
}

#[test]
fn update_values_keep_what_is_not_given() {
    let note = note_with(4, 2);
    let content = "new".to_string();
    assert_eq!(UpdateNoteValues { content: Some(&content) }.updated(&note), "new");
    assert_eq!(UpdateNoteValues { content: None }.updated(&note), "note-4");
    let values = UpdateDestinationValues { url: None, is_permanent: None, forward_query_parameters: None };
    let updated = values.updated(&destination_with(2, true));
    assert!(updated.is_permanent);
}

#[test]
fn lookups_become_responses() {
    let down = || shurly::database::Error::Connection("down".to_string());

    assert_eq!(stored::<u8>(Ok(4)).unwrap(), 4);
    let error = stored::<u8>(Err(down())).unwrap_err();
    assert_eq!((error.status_code, error.message.as_str()), (500, "Connection error: down"));

    assert_eq!(found_or_not_found(Ok(Some(4)), "Nothing").unwrap(), 4);
    let error = found_or_not_found::<u8>(Ok(None), "Nothing").unwrap_err();
    assert_eq!((error.status_code, error.message.as_str()), (404, "Nothing"));
    let error = found_or_not_found::<u8>(Err(down()), "Nothing").unwrap_err();
    assert_eq!((error.status_code, error.message.as_str()), (500, "Connection error: down"));

    assert_eq!(fetch_destination(Ok(Some(destination_with(2, false)))).unwrap().id, 2);
    let error = fetch_destination(Ok(None)).unwrap_err();
    assert_eq!((error.status_code, error.message.as_str()), (404, "Destination not found"));

    assert_eq!(fetch_alias(Ok(Some(alias_with(3, 2)))).unwrap().id, 3);
    let error = fetch_alias(Ok(None)).unwrap_err();
    assert_eq!((error.status_code, error.message.as_str()), (404, "Alias not found"));

    assert_eq!(fetch_note(Ok(Some(note_with(4, 2)))).unwrap().id, 4);
    let error = fetch_note(Ok(None)).unwrap_err();
    assert_eq!((error.status_code, error.message.as_str()), (404, "Note not found"));
    let error = fetch_note(Err(down())).unwrap_err();
    assert_eq!(error.status_code, 500);
}

#[test]
fn token_is_a_bearer_token() {
    let token = Token::new("abc".to_string(), 60);
    assert_eq!(token.token_type, "Bearer");
    assert_eq!(token.expires_in, 60);
    assert_eq!(token.access_token, "abc");
}

#[test]
fn claims_expire_an_hour_later() {
    assert_eq!(EXPIRES_IN, 3600);
    let user = user_with(4, Role::Manager);
    assert_eq!(claims(&user, 1_700_000_000), Claims { sub: 4, exp: 1_700_003_600, jti: 1004 });
    assert_eq!(claims(&user, i64::MAX - 3600).exp, i64::MAX);
}

#[test]
fn generate_token_takes_what_encoding_gave() {
    let token = generate_token(Ok("abc".to_string())).unwrap();
    assert_eq!(token.token_type, "Bearer");
    assert_eq!(token.expires_in, 3600);
    assert_eq!(token.access_token, "abc");
    let error = generate_token(Err("no key".to_string())).unwrap_err();
    assert_eq!((error.status_code, error.message.as_str()), (500, "no key"));
}

#[test]
fn decoded_claims_or_forbidden() {
    let claimed = Claims { sub: 4, exp: 10, jti: 1004 };
    assert_eq!(decoded(Ok(claimed)).unwrap(), claimed);
    let error = decoded(Err("ExpiredSignature".to_string())).unwrap_err();
    assert_eq!((error.status_code, error.message.as_str()), (403, "Invalid token: ExpiredSignature"));
}

#[test]
fn current_user_needs_the_session_of_the_token() {
    let claimed = Claims { sub: 4, exp: 10, jti: 1004 };
    let found: Result<Option<User>, ()> = Ok(Some(user_with(4, Role::Manager)));
    let current: CurrentUser = current_user(&claimed, found).ok().unwrap();
    assert_eq!(current.deref().id, 4);
    assert_eq!(current.clone().user.username, "user-4");

    let stale = Claims { sub: 4, exp: 10, jti: 1 };
    let error = current_user::<()>(&stale, Ok(Some(user_with(4, Role::Manager)))).err().unwrap();
    assert_eq!((error.status_code, error.message.as_str()), (403, "Token expired"));

    let error = current_user::<()>(&claimed, Ok(None)).err().unwrap();
    assert_eq!((error.status_code, error.message.as_str()), (403, "Could not find user"));
    let error = current_user(&claimed, Err("down")).err().unwrap();
    assert_eq!((error.status_code, error.message.as_str()), (403, "Could not find user"));
}
