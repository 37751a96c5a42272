use shurly::api::users::change_password;
use shurly::api::users::created;
use shurly::api::users::fetch_user;
use shurly::api::users::generated_password;
use shurly::api::users::hashed_password;
use shurly::api::users::CreateUserForm;
use shurly::api::users::new_password;
use shurly::api::users::single;
use shurly::api::users::token;
use shurly::api::users::ChangePasswordForm;
use shurly::api::users::LoginForm;
use shurly::api::users::Subject;
use shurly::api::users::UserResponse;
use shurly::database::Error;
use shurly::password::generate;
use shurly::password::hash;
use shurly::password::verify;
use shurly::timestamp::Timestamp;
use shurly::users::ensure_initial_user;
use shurly::users::Role;
use shurly::users::User;
use shurly::utils::env_var_or_else;
use shurly::utils::given;

fn then(seconds: i64) -> Timestamp {
    Timestamp { seconds, nanoseconds: 0 }
}

fn user_of(id: u128, role: Role, hashed_password: &str, deleted: bool) -> User {
    User {
        id,
        session_id: 1000 + id,
        username: format!("user-{id}"),
        hashed_password: hashed_password.to_string(),
        role,
        created_at: then(1),
        updated_at: then(2),
        deleted_at: if deleted { Some(then(3)) } else { None },
    }
}

#[test]
fn hashed_password_verifies() {
    let hashed = hash("verysecret").unwrap();
    assert!(hashed.starts_with("$argon2id$"));
    assert_ne!(hashed, "verysecret");
    assert!(verify(&hashed, "verysecret"));
    assert!(!verify(&hashed, "verysecret "));
    assert!(!verify(&hashed, ""));
}

#[test]
fn hash_salts_every_password_anew() {
    let first = hash("verysecret").unwrap();
    let second = hash("verysecret").unwrap();
    assert_ne!(first, second);
    assert!(verify(&first, "verysecret"));
    assert!(verify(&second, "verysecret"));
}

#[test]
fn verify_refuses_what_is_no_hash() {
    assert!(!verify("", ""));
    assert!(!verify("verysecret", "verysecret"));
    assert!(!verify("$argon2id$", "verysecret"));
}

#[test]
fn generate_gives_a_fresh_password() {
    let first = generate().unwrap();
    let second = generate().unwrap();
    assert!(!first.is_empty());
    assert_ne!(first, second);
}

#[test]
fn user_responses_show_no_password() {
    let response = UserResponse::from_user(user_of(4, Role::Manager, "hash", false));
    assert_eq!(response.id, 4);
    assert_eq!(response.username, "user-4");
    assert_eq!(response.role, Role::Manager);
    assert_eq!(response.password, None);

    let responses = UserResponse::from_user_multiple(vec![
        user_of(4, Role::Manager, "hash", false),
        user_of(2, Role::Admin, "hash", false),
    ]);
    let ids: Vec<u128> = responses.iter().map(|response| response.id).collect();
    assert_eq!(ids, vec![4, 2]);
    assert!(responses.iter().all(|response| response.password.is_none()));
}

#[test]
fn set_password_adds_the_password() {
    let mut response = UserResponse::from_user(user_of(4, Role::Manager, "hash", false));
    response.set_password("generated");
    assert_eq!(response.password, Some("generated".to_string()));
    assert_eq!(response.id, 4);
    assert_eq!(response.username, "user-4");
}

#[test]
fn login_needs_the_user_and_the_password() {
    let hashed = hash("verysecret").unwrap();
    let form = |password: &str| LoginForm {
        username: "user-4".to_string(),
        password: password.to_string(),
    };
    let user = token(Ok(Some(user_of(4, Role::Manager, &hashed, false))), &form("verysecret"))
        .ok()
        .unwrap();
    assert_eq!(user.id, 4);

    let error = token(Ok(Some(user_of(4, Role::Manager, &hashed, false))), &form("wrong"))
        .err()
        .unwrap();
    assert_eq!((error.status_code, error.message.as_str()), (400, "Invalid user"));

    let error = token(Ok(None), &form("verysecret")).err().unwrap();
    assert_eq!((error.status_code, error.message.as_str()), (400, "Invalid user"));

    let error = token(Err(Error::Connection("down".to_string())), &form("verysecret"))
        .err()
        .unwrap();
    assert_eq!((error.status_code, error.message.as_str()), (500, "Connection error: down"));
}

#[test]
fn single_user_is_oneself_or_for_admins() {
    let admin = user_of(1, Role::Admin, "hash", false);
    let manager = user_of(2, Role::Manager, "hash", false);

    assert!(matches!(single(&admin, Some(9)), Ok(Subject::Other(9))));
    assert!(matches!(single(&admin, None), Ok(Subject::Me(user)) if user.id == 1));
    assert!(matches!(single(&manager, None), Ok(Subject::Me(user)) if user.id == 2));
    let error = single(&manager, Some(9)).err().unwrap();
    assert_eq!((error.status_code, error.message.as_str()), (403, "Not allowed to acces"));
    let error = single(&manager, Some(2)).err().unwrap();
    assert_eq!(error.status_code, 403);
}

fn create_form(password: Option<&str>) -> CreateUserForm {
    CreateUserForm {
        role: Role::Manager,
        username: "user-4".to_string(),
        password: password.map(|password| password.to_string()),
    }
}

#[test]
fn user_is_created_only_for_a_free_username() {
    let user = shurly::api::users::create(Ok(None), create_form(Some("given"))).ok().unwrap();
    assert_eq!(user.role, Role::Manager);
    assert_eq!(user.username, "user-4");
    assert_eq!(user.password.password, "given");
    assert!(!user.password.is_generated);
    assert!(verify(&user.password.hashed_password, "given"));

    let user = shurly::api::users::create(Ok(None), create_form(None)).ok().unwrap();
    assert!(user.password.is_generated);
    assert!(verify(&user.password.hashed_password, &user.password.password));

    let error = shurly::api::users::create(
        Ok(Some(user_of(4, Role::Manager, "hash", false))),
        create_form(None),
    )
    .err()
    .unwrap();
    assert_eq!((error.status_code, error.message.as_str()), (400, "User already exists"));
    let error = shurly::api::users::create(
        Ok(Some(user_of(4, Role::Manager, "hash", true))),
        create_form(None),
    )
    .err()
    .unwrap();
    assert_eq!(
        (error.status_code, error.message.as_str()),
        (400, "User already exists and is deleted")
    );
    let error =
        shurly::api::users::create(Err(Error::Connection("down".to_string())), create_form(None))
            .err()
            .unwrap();
    assert_eq!((error.status_code, error.message.as_str()), (500, "Connection error: down"));
}

#[test]
fn password_that_could_not_be_made_is_an_internal_server_error() {
    assert_eq!(generated_password(Some("fresh".to_string())).unwrap(), "fresh");
    let error = generated_password(None).unwrap_err();
    assert_eq!(
        (error.status_code, error.message.as_str()),
        (500, "Could not generate password")
    );

    let chosen =
        hashed_password("given".to_string(), true, Some("hash".to_string())).ok().unwrap();
    assert_eq!(chosen.password, "given");
    assert!(chosen.is_generated);
    assert_eq!(chosen.hashed_password, "hash");
    let error = hashed_password("given".to_string(), false, None).err().unwrap();
    assert_eq!((error.status_code, error.message.as_str()), (500, "Could not hash password"));
}

#[test]
fn new_password_is_given_or_generated() {
    let chosen = new_password(Some("given".to_string())).ok().unwrap();
    assert_eq!(chosen.password, "given");
    assert!(!chosen.is_generated);
    assert!(verify(&chosen.hashed_password, "given"));

    let chosen = new_password(None).ok().unwrap();
    assert!(chosen.is_generated);
    assert!(!chosen.password.is_empty());
    assert!(verify(&chosen.hashed_password, &chosen.password));
}

#[test]
fn created_user_shows_only_a_generated_password() {
    let given = new_password(Some("given".to_string())).ok().unwrap();
    let response = created(user_of(4, Role::Manager, &given.hashed_password, false), &given);
    assert_eq!(response.id, 4);
    assert_eq!(response.password, None);

    let generated = new_password(None).ok().unwrap();
    let response = created(user_of(4, Role::Manager, &generated.hashed_password, false), &generated);
    assert_eq!(response.password, Some(generated.password.clone()));
}

#[test]
fn change_password_needs_the_current_password() {
    let hashed = hash("verysecret").unwrap();
    let user = user_of(4, Role::Manager, &hashed, false);

    let form = ChangePasswordForm {
        current_password: "verysecret".to_string(),
        password: Some("veryverysecret".to_string()),
    };
    let chosen = change_password(&user, form).ok().unwrap();
    assert_eq!(chosen.password, "veryverysecret");
    assert!(!chosen.is_generated);
    assert!(verify(&chosen.hashed_password, "veryverysecret"));

    let form = ChangePasswordForm { current_password: "verysecret".to_string(), password: None };
    let chosen = change_password(&user, form).ok().unwrap();
    assert!(chosen.is_generated);
    assert!(verify(&chosen.hashed_password, &chosen.password));

    let form = ChangePasswordForm {
        current_password: "wrong".to_string(),
        password: Some("veryverysecret".to_string()),
    };
    let error = change_password(&user, form).err().unwrap();
    assert_eq!((error.status_code, error.message.as_str()), (400, "Invalid password"));
}

#[test]
fn fetch_user_or_not_found() {
    assert_eq!(fetch_user(Ok(Some(user_of(4, Role::Manager, "hash", false)))).unwrap().id, 4);
    let error = fetch_user(Ok(None)).unwrap_err();
    assert_eq!((error.status_code, error.message.as_str()), (404, "User not found"));
    let error = fetch_user(Err(Error::Connection("down".to_string()))).unwrap_err();
    assert_eq!((error.status_code, error.message.as_str()), (500, "Connection error: down"));
}

#[test]
fn initial_user_is_made_only_without_users() {
    let existing = Some(user_of(4, Role::Manager, "hash", false));
    let initial = ensure_initial_user(&existing, Some("admin".to_string()), 7, None).ok().unwrap();
    assert!(initial.is_none());
}

#[test]
fn initial_user_takes_what_is_given() {
    let initial = ensure_initial_user(
        &None,
        Some("admin".to_string()),
        7,
        Some("verysecret".to_string()),
    )
    .ok()
    .unwrap()
    .unwrap();
    assert_eq!(initial.username, "admin");
    assert!(!initial.username_is_generated);
    assert_eq!(initial.password, "verysecret");
    assert!(!initial.password_is_generated);
    assert!(verify(&initial.hashed_password, "verysecret"));
    assert_eq!(initial.role, Role::Admin);
}

#[test]
fn initial_user_generates_what_is_missing_or_empty() {
    let initial = ensure_initial_user(&None, None, 0x2a, Some(String::new())).ok().unwrap().unwrap();
    assert_eq!(initial.username, "00000000-0000-0000-0000-00000000002a");
    assert!(initial.username_is_generated);
    assert!(initial.password_is_generated);
    assert!(!initial.password.is_empty());
    assert!(verify(&initial.hashed_password, &initial.password));
    assert_eq!(initial.role, Role::Admin);

    let initial =
        ensure_initial_user(&None, Some(String::new()), 1, Some("x".to_string())).ok().unwrap().unwrap();
    assert_eq!(initial.username, "00000000-0000-0000-0000-000000000001");
    assert!(initial.username_is_generated);
    assert!(!initial.password_is_generated);
}

#[test]
fn given_is_set_and_not_empty() {
    assert_eq!(given(Some("7000".to_string())), Some("7000".to_string()));
    assert_eq!(given(Some(String::new())), None);
    assert_eq!(given(None), None);
}

#[test]
fn env_var_or_else_takes_a_value_that_is_set_and_not_empty() {
    assert_eq!(env_var_or_else(Some("0.0.0.0:7000".to_string()), || "default".to_string()), "0.0.0.0:7000");
    assert_eq!(env_var_or_else(Some(String::new()), || "default".to_string()), "default");
    assert_eq!(env_var_or_else(None, || "default".to_string()), "default");
    assert_eq!(env_var_or_else(Some(" ".to_string()), || "default".to_string()), " ");
}

#[test]
fn env_var_or_else_makes_the_default_only_when_needed() {
    let mut made = 0;
    let value = env_var_or_else(Some("set".to_string()), || {
        made += 1;
        "default".to_string()
    });
    assert_eq!(value, "set");
    assert_eq!(made, 0);
}
