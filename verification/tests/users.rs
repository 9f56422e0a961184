use keycloak_gateway::users::{
    creation_result, find_or_create_user, login, plan_creation, LoginOutcome, NewUser, User,
    UserLookup, UserPlan,
};

fn hash_of(password: &str) -> String {
    bcrypt::hash(password, 4).unwrap()
}

fn user(id: &str, password: &str) -> User {
    User {
        id: String::from(id),
        username: String::from("ada"),
        email: String::from("ada@example.org"),
        password: String::from(password),
    }
}

#[test]
fn new_user_keeps_name_and_email_and_hides_the_password() {
    let created = NewUser::new(
        String::from("ada"),
        String::from("ada@example.org"),
        String::from("hunter2"),
    )
    .unwrap();
    assert_eq!(created.username, "ada");
    assert_eq!(created.email, "ada@example.org");
    assert_ne!(created.password, "hunter2");
    assert_eq!(created.id.len(), 36);
    assert_eq!(created.id.matches('-').count(), 4);
    let stored = user(&created.id, &created.password);
    assert_eq!(stored.verify_checked(String::from("hunter2")), Some(true));
}

#[test]
fn record_holds_the_id_and_the_hash_it_is_given() {
    let created = NewUser::with_credentials(
        String::from("id-1"),
        String::from("ada"),
        String::from("ada@example.org"),
        Some(String::from("$2b$12$hash")),
    );
    assert_eq!(
        created,
        Some(NewUser {
            id: String::from("id-1"),
            username: String::from("ada"),
            email: String::from("ada@example.org"),
            password: String::from("$2b$12$hash"),
        })
    );
}

#[test]
fn there_is_no_record_without_a_hash() {
    let created = NewUser::with_credentials(
        String::from("id-1"),
        String::from("ada"),
        String::from("ada@example.org"),
        None,
    );
    assert_eq!(created, None);
}

#[test]
fn password_is_checked_against_the_stored_hash() {
    let hash = hash_of("hunter2");
    assert!(user("u1", &hash).verify(String::from("hunter2")));
    assert!(!user("u1", &hash).verify(String::from("hunter3")));
    assert_eq!(user("u1", &hash).verify_checked(String::from("hunter2")), Some(true));
    assert_eq!(user("u1", &hash).verify_checked(String::from("")), Some(false));
}

#[test]
fn stored_text_that_is_no_hash_cannot_be_checked() {
    assert_eq!(user("u1", "hunter2").verify_checked(String::from("hunter2")), None);
    assert_eq!(user("u1", "").verify_checked(String::from("")), None);
}

#[test]
fn existing_user_is_used() {
    let hash = hash_of("hunter2");
    let plan = find_or_create_user("sub-1", "e", "n", UserLookup::Found(user("sub-1", &hash)));
    assert_eq!(plan, UserPlan::Use(user("sub-1", &hash)));
}

#[test]
fn unknown_user_is_created_under_the_subject() {
    match find_or_create_user("sub-1", "ada@example.org", "ada", UserLookup::NotFound) {
        UserPlan::Create(created) => {
            assert_eq!(created.id, "sub-1");
            assert_eq!(created.username, "ada");
            assert_eq!(created.email, "ada@example.org");
            let stored = user("sub-1", &created.password);
            assert_eq!(stored.verify_checked(String::from("DUMMY_PASSWORD")), Some(true));
        }
        other => panic!("unexpected plan {:?}", other),
    }
}

#[test]
fn new_record_is_planned_under_the_subject() {
    let fresh = NewUser {
        id: String::from("random-id"),
        username: String::from("ada"),
        email: String::from("ada@example.org"),
        password: String::from("$2b$12$hash"),
    };
    assert_eq!(
        plan_creation("sub-1", Some(fresh)),
        UserPlan::Create(NewUser {
            id: String::from("sub-1"),
            username: String::from("ada"),
            email: String::from("ada@example.org"),
            password: String::from("$2b$12$hash"),
        })
    );
}

#[test]
fn without_a_record_the_plan_is_to_give_up() {
    assert_eq!(
        plan_creation("sub-1", None),
        UserPlan::Fail(String::from("Failed to create user: the password could not be hashed"))
    );
}

#[test]
fn failed_lookup_is_reported_with_the_stores_message() {
    let plan =
        find_or_create_user("sub-1", "e", "n", UserLookup::Failed(String::from("connection lost")));
    assert_eq!(plan, UserPlan::Fail(String::from("Database error: connection lost")));
}

#[test]
fn failed_insert_is_reported_with_the_stores_message() {
    assert_eq!(creation_result(Ok(user("sub-1", "h"))), Ok(user("sub-1", "h")));
    assert_eq!(
        creation_result(Err(String::from("duplicate key"))),
        Err(String::from("Failed to create user: duplicate key"))
    );
}

#[test]
fn login_needs_exactly_one_user_and_the_right_password() {
    let hash = hash_of("hunter2");
    assert_eq!(login(vec![], String::from("hunter2")), LoginOutcome::NotFound);
    assert_eq!(
        login(vec![user("u1", &hash), user("u2", &hash)], String::from("hunter2")),
        LoginOutcome::Conflict
    );
    assert_eq!(
        login(vec![user("u1", &hash)], String::from("hunter2")),
        LoginOutcome::Granted(String::from("u1"))
    );
    assert_eq!(login(vec![user("u1", &hash)], String::from("wrong")), LoginOutcome::Denied);
    assert_eq!(login(vec![user("u1", "no hash")], String::from("no hash")), LoginOutcome::Denied);
}
