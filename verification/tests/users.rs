use pokedex_rncp_backend::identity::CurrentUser;
use pokedex_rncp_backend::models::{CreateUser, UpdateUser};
use pokedex_rncp_backend::password::verify_password;
use pokedex_rncp_backend::response::Status;
use pokedex_rncp_backend::token::UserId;
use pokedex_rncp_backend::users::{
    create_user, delete_user, same_user, update_user, user_created, user_deleted, user_updated,
    Inserted, UserWrite,
};

fn user(n: u128) -> UserId {
    UserId { value: n }
}

#[test]
fn create_user_hashes_the_password() {
    let payload = CreateUser {
        username: "alice".to_string(),
        email: Some("alice@example.com".to_string()),
        password: "Password123!".to_string(),
    };
    let new_user = create_user(payload).unwrap();
    assert_eq!(new_user.username, "alice");
    assert_eq!(new_user.email, Some("alice@example.com".to_string()));
    assert_ne!(new_user.credential, "Password123!");
    assert!(verify_password(&new_user.credential, "Password123!"));
}

#[test]
fn create_user_201_et_conflit_409() {
    assert_eq!(user_created(Inserted::Done), Ok((Status::Created, "User created.".to_string())));
    assert_eq!(
        user_created(Inserted::Duplicate),
        Err((Status::Conflict, "User already exists.".to_string()))
    );
    assert_eq!(Status::Created.code(), 201);
    assert_eq!(Status::Conflict.code(), 409);
}

#[test]
fn create_user_reports_a_store_fault_in_the_stores_words() {
    assert_eq!(
        user_created(Inserted::Failed("❌ connection reset ".to_string())),
        Err((Status::InternalServerError, "connection reset".to_string()))
    );
}

#[test]
fn update_user_refuse_si_different() {
    let payload = UpdateUser { username: Some("hacker".to_string()), email: None, password: None };
    let refusal = update_user(CurrentUser(user(1)), user(2), payload).err().unwrap();
    assert_eq!(refusal, (Status::Unauthorized, "ACCESS DENIED".to_string()));
    assert_eq!(
        same_user(CurrentUser(user(1)), user(2)),
        Err((Status::Unauthorized, "ACCESS DENIED".to_string()))
    );
    assert_eq!(same_user(CurrentUser(user(2)), user(2)), Ok(()));
}

#[test]
fn update_user_soi_meme_modifie_username_email_et_password() {
    let me = CurrentUser(user(3));
    let payload = UpdateUser {
        username: Some("user_self_new".to_string()),
        email: Some("new_user_self@example.com".to_string()),
        password: None,
    };
    let writes = update_user(me, user(3), payload).ok().unwrap();
    assert_eq!(writes.len(), 2);
    assert!(matches!(&writes[0], UserWrite::Username(u) if u == "user_self_new"));
    assert!(matches!(&writes[1], UserWrite::Email(e) if e == "new_user_self@example.com"));

    let payload =
        UpdateUser { username: None, email: None, password: Some("AnotherPass123!".to_string()) };
    let writes = update_user(me, user(3), payload).ok().unwrap();
    assert_eq!(writes.len(), 1);
    match &writes[0] {
        UserWrite::Password(hash) => assert!(verify_password(hash, "AnotherPass123!")),
        _ => panic!("no credential to write"),
    }
    assert_eq!(user_updated(), Ok((Status::Success, "User updated.".to_string())));
}

#[test]
fn update_user_writes_in_a_fixed_order() {
    let payload = UpdateUser {
        username: Some("n".to_string()),
        email: Some("e".to_string()),
        password: Some("p".to_string()),
    };
    let writes = update_user(CurrentUser(user(4)), user(4), payload).ok().unwrap();
    assert_eq!(writes.len(), 3);
    assert!(matches!(&writes[0], UserWrite::Password(_)));
    assert!(matches!(&writes[1], UserWrite::Username(_)));
    assert!(matches!(&writes[2], UserWrite::Email(_)));
    let nothing = UpdateUser { username: None, email: None, password: None };
    assert!(update_user(CurrentUser(user(4)), user(4), nothing).ok().unwrap().is_empty());
}

#[test]
fn delete_user_soi_meme() {
    assert_eq!(delete_user(CurrentUser(user(5)), user(5)), Ok(()));
    assert_eq!(user_deleted(1), Ok((Status::Success, "User deleted.".to_string())));
    assert_eq!(user_deleted(0), Err((Status::NotFound, "User not found".to_string())));
    assert_eq!(
        delete_user(CurrentUser(user(5)), user(6)),
        Err((Status::Unauthorized, "ACCESS DENIED".to_string()))
    );
}
