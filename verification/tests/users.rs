use chat_backend::dto::{
    user_violation_report, CreateUserRequest, UpdateUserRequest, UserResponse,
};
use chat_backend::error::AppError;
use chat_backend::handler::{
    create_user, delete_user, get_user, get_users, show_user, show_users, update_user,
    UNSHOWABLE_USER, USER_DELETED,
};
use chat_backend::model::{Timestamp, User};
use chat_backend::repository::UserRepository;
use chat_backend::schema::{
    answer_plain, answer_removal, answer_user, MutationRoot, QueryRoot,
};
use chat_backend::service::UserService;
use std::sync::{Arc, Mutex};

const EPOCH: Timestamp = Timestamp { seconds: 0, nanoseconds: 0 };

fn user(id: u128, name: &str, email: &str) -> User {
    User {
        id,
        name: name.to_string(),
        email: email.to_string(),
        created_at: EPOCH,
        updated_at: EPOCH,
    }
}

/// A store in memory that can be told to fail, and that keeps a log of what it was asked.
struct MemoryStore {
    users: Mutex<Vec<User>>,
    failure: Option<String>,
    log: Mutex<Vec<String>>,
}

impl MemoryStore {
    fn with(users: Vec<User>) -> Arc<MemoryStore> {
        Arc::new(MemoryStore { users: Mutex::new(users), failure: None, log: Mutex::new(vec![]) })
    }

    fn failing(detail: &str) -> Arc<MemoryStore> {
        Arc::new(MemoryStore {
            users: Mutex::new(vec![]),
            failure: Some(detail.to_string()),
            log: Mutex::new(vec![]),
        })
    }

    fn note(&self, entry: String) -> Result<(), String> {
        self.log.lock().unwrap().push(entry);
        match &self.failure {
            Some(detail) => Err(detail.clone()),
            None => Ok(()),
        }
    }

    fn log(&self) -> Vec<String> {
        self.log.lock().unwrap().clone()
    }
}

impl UserRepository for MemoryStore {
    fn find_all(&self) -> Result<Vec<User>, String> {
        self.note("find_all".to_string())?;
        Ok(self.users.lock().unwrap().clone())
    }

    fn find_by_id(&self, id: u128) -> Result<Option<User>, String> {
        self.note(format!("find_by_id {}", id))?;
        Ok(self.users.lock().unwrap().iter().find(|u| u.id == id).cloned())
    }

    fn create(&self, name: String, email: String) -> Result<User, String> {
        self.note(format!("create {} {}", name, email))?;
        let mut users = self.users.lock().unwrap();
        let created = User {
            id: users.len() as u128 + 1,
            name,
            email,
            created_at: EPOCH,
            updated_at: EPOCH,
        };
        users.push(created.clone());
        Ok(created)
    }

    fn update(&self, id: u128, name: String, email: String) -> Result<User, String> {
        self.note(format!("update {} {} {}", id, name, email))?;
        let mut users = self.users.lock().unwrap();
        match users.iter_mut().find(|u| u.id == id) {
            Some(found) => {
                found.name = name;
                found.email = email;
                Ok(found.clone())
            }
            None => Err("no rows".to_string()),
        }
    }

    fn delete(&self, id: u128) -> Result<bool, String> {
        self.note(format!("delete {}", id))?;
        let mut users = self.users.lock().unwrap();
        let before = users.len();
        users.retain(|u| u.id != id);
        Ok(users.len() < before)
    }
}

fn shown(id: u8, name: &str, email: &str) -> UserResponse {
    UserResponse {
        id: format!("00000000-0000-0000-0000-0000000000{:02x}", id),
        name: name.to_string(),
        email: email.to_string(),
        created_at: "1970-01-01T00:00:00+00:00".to_string(),
        updated_at: "1970-01-01T00:00:00+00:00".to_string(),
    }
}

fn database(detail: &str) -> AppError {
    AppError::Database(detail.to_string())
}

#[test]
fn get_users_lists_every_user() {
    let service = UserService::new(MemoryStore::with(vec![user(1, "a", "a@x.io"), user(2, "b", "b@x.io")]));
    assert_eq!(service.get_users(), Ok(vec![user(1, "a", "a@x.io"), user(2, "b", "b@x.io")]));
}

#[test]
fn store_failure_is_a_database_error() {
    let service = UserService::new(MemoryStore::failing("pool timed out"));
    assert_eq!(service.get_users(), Err(database("pool timed out")));
    assert_eq!(service.get_user(1), Err(database("pool timed out")));
    assert_eq!(
        service.create_user(CreateUserRequest { name: "a".to_string(), email: "a@x.io".to_string() }),
        Err(database("pool timed out"))
    );
    assert_eq!(
        service.update_user(1, UpdateUserRequest { name: None, email: None }),
        Err(database("pool timed out"))
    );
    assert_eq!(service.delete_user(1), Err(database("pool timed out")));
}

#[test]
fn get_user_finds_the_user() {
    let service = UserService::new(MemoryStore::with(vec![user(7, "g", "g@x.io")]));
    assert_eq!(service.get_user(7), Ok(user(7, "g", "g@x.io")));
}

#[test]
fn get_user_without_record_is_not_found() {
    let service = UserService::new(MemoryStore::with(vec![]));
    assert_eq!(service.get_user(7), Err(AppError::NotFound));
}

#[test]
fn create_user_stores_name_and_email() {
    let store = MemoryStore::with(vec![]);
    let service = UserService::new(store.clone());
    let created = service
        .create_user(CreateUserRequest { name: "Ann".to_string(), email: "ann@x.io".to_string() })
        .unwrap();
    assert_eq!(created, user(1, "Ann", "ann@x.io"));
    assert_eq!(store.log(), vec!["create Ann ann@x.io"]);
}

#[test]
fn update_user_keeps_fields_that_are_not_given() {
    let store = MemoryStore::with(vec![user(3, "old", "old@x.io")]);
    let service = UserService::new(store.clone());
    assert_eq!(
        service.update_user(3, UpdateUserRequest { name: Some("new".to_string()), email: None }),
        Ok(user(3, "new", "old@x.io"))
    );
    assert_eq!(
        service.update_user(3, UpdateUserRequest { name: None, email: Some("new@x.io".to_string()) }),
        Ok(user(3, "new", "new@x.io"))
    );
    assert_eq!(
        service.update_user(3, UpdateUserRequest { name: None, email: None }),
        Ok(user(3, "new", "new@x.io"))
    );
    assert_eq!(
        store.log(),
        vec![
            "find_by_id 3",
            "update 3 new old@x.io",
            "find_by_id 3",
            "update 3 new new@x.io",
            "find_by_id 3",
            "update 3 new new@x.io"
        ]
    );
}

#[test]
fn update_user_without_record_is_not_found_and_writes_nothing() {
    let store = MemoryStore::with(vec![]);
    let service = UserService::new(store.clone());
    assert_eq!(
        service.update_user(3, UpdateUserRequest { name: Some("n".to_string()), email: None }),
        Err(AppError::NotFound)
    );
    assert_eq!(store.log(), vec!["find_by_id 3"]);
}

#[test]
fn delete_user_removes_the_user() {
    let store = MemoryStore::with(vec![user(3, "a", "a@x.io")]);
    let service = UserService::new(store.clone());
    assert_eq!(service.delete_user(3), Ok(()));
    assert_eq!(service.delete_user(3), Err(AppError::NotFound));
}

#[test]
fn decisions_on_store_answers() {
    type Service = UserService<Arc<MemoryStore>>;
    assert_eq!(Service::from_store(Ok::<u8, String>(1)), Ok(1));
    assert_eq!(Service::from_store(Err::<u8, String>("x".to_string())), Err(database("x")));
    assert_eq!(Service::from_lookup(Ok(None)), Err(AppError::NotFound));
    assert_eq!(Service::from_removal(Ok(true)), Ok(()));
    assert_eq!(Service::from_removal(Ok(false)), Err(AppError::NotFound));
    assert_eq!(Service::from_removal(Err("x".to_string())), Err(database("x")));
}

#[test]
fn valid_create_request_passes() {
    let request = CreateUserRequest { name: "Ann".to_string(), email: "ann@example.com".to_string() };
    assert_eq!(request.validate(), Ok(()));
}

#[test]
fn empty_name_is_reported() {
    let request = CreateUserRequest { name: String::new(), email: "ann@example.com".to_string() };
    assert_eq!(request.validate(), Err("name: Name cannot be empty".to_string()));
}

#[test]
fn bad_email_is_reported() {
    for email in ["", "ann", "ann@", "@example.com", "a b@example.com", "ann@exa mple.com"] {
        let request = CreateUserRequest { name: "Ann".to_string(), email: email.to_string() };
        assert_eq!(request.validate(), Err("email: Invalid email format".to_string()), "{:?}", email);
    }
}

#[test]
fn both_violations_are_reported_in_either_order() {
    let request = CreateUserRequest { name: String::new(), email: "nope".to_string() };
    let report = request.validate().unwrap_err();
    assert!(
        report == "name: Name cannot be empty\nemail: Invalid email format"
            || report == "email: Invalid email format\nname: Name cannot be empty",
        "report {:?}",
        report
    );
}

#[test]
fn absent_fields_of_an_update_are_not_checked() {
    assert_eq!(UpdateUserRequest { name: None, email: None }.validate(), Ok(()));
    assert_eq!(
        UpdateUserRequest { name: Some("n".to_string()), email: None }.validate(),
        Ok(())
    );
    assert_eq!(
        UpdateUserRequest { name: None, email: Some("n@example.com".to_string()) }.validate(),
        Ok(())
    );
}

#[test]
fn present_fields_of_an_update_are_checked() {
    assert_eq!(
        UpdateUserRequest { name: Some(String::new()), email: None }.validate(),
        Err("name: Name cannot be empty".to_string())
    );
    assert_eq!(
        UpdateUserRequest { name: None, email: Some("n".to_string()) }.validate(),
        Err("email: Invalid email format".to_string())
    );
    let both = UpdateUserRequest { name: Some(String::new()), email: Some(String::new()) }
        .validate()
        .unwrap_err();
    assert!(both.contains("name: Name cannot be empty"));
    assert!(both.contains("email: Invalid email format"));
    assert_eq!(both.lines().count(), 2);
}

#[test]
fn endpoint_turns_invalid_create_down_before_the_store_is_asked() {
    let store = MemoryStore::with(vec![]);
    let service = UserService::new(store.clone());
    assert_eq!(
        create_user(&service, CreateUserRequest { name: String::new(), email: "a@x.io".to_string() }),
        Err(AppError::Validation("name: Name cannot be empty".to_string()))
    );
    assert!(store.log().is_empty());
    assert_eq!(
        create_user(&service, CreateUserRequest { name: "A".to_string(), email: "a@x.io".to_string() }),
        Ok(shown(1, "A", "a@x.io"))
    );
}

#[test]
fn endpoint_turns_invalid_update_down_before_the_store_is_asked() {
    let store = MemoryStore::with(vec![user(1, "A", "a@x.io")]);
    let service = UserService::new(store.clone());
    assert_eq!(
        update_user(&service, 1, UpdateUserRequest { name: None, email: Some("x".to_string()) }),
        Err(AppError::Validation("email: Invalid email format".to_string()))
    );
    assert!(store.log().is_empty());
    assert_eq!(
        update_user(&service, 1, UpdateUserRequest { name: Some("B".to_string()), email: None }),
        Ok(shown(1, "B", "a@x.io"))
    );
    assert_eq!(USER_DELETED, "User deleted");
}

#[test]
fn query_for_a_missing_user_is_an_absent_value() {
    let service = UserService::new(MemoryStore::with(vec![user(1, "A", "a@x.io")]));
    assert_eq!(QueryRoot.user(&service, 1), Ok(Some(user(1, "A", "a@x.io"))));
    assert_eq!(QueryRoot.user(&service, 2), Ok(None));
    assert_eq!(QueryRoot.users(&service), Ok(vec![user(1, "A", "a@x.io")]));
}

#[test]
fn query_errors_are_told_by_their_description() {
    let service = UserService::new(MemoryStore::failing("down"));
    assert_eq!(QueryRoot.user(&service, 1), Err("Database error: down".to_string()));
    assert_eq!(QueryRoot.users(&service), Err("Database error: down".to_string()));
    assert_eq!(MutationRoot.delete_user(&service, 1), Err("Database error: down".to_string()));
}

#[test]
fn removal_answers_whether_there_was_a_user() {
    let service = UserService::new(MemoryStore::with(vec![user(1, "A", "a@x.io")]));
    assert_eq!(MutationRoot.delete_user(&service, 1), Ok(true));
    assert_eq!(MutationRoot.delete_user(&service, 1), Ok(false));
}

#[test]
fn mutations_report_violations_without_the_error_prefix() {
    let store = MemoryStore::with(vec![user(1, "A", "a@x.io")]);
    let service = UserService::new(store.clone());
    assert_eq!(
        MutationRoot.create_user(&service, CreateUserRequest { name: "B".to_string(), email: "b".to_string() }),
        Err("email: Invalid email format".to_string())
    );
    assert_eq!(
        MutationRoot.update_user(&service, 1, UpdateUserRequest { name: Some(String::new()), email: None }),
        Err("name: Name cannot be empty".to_string())
    );
    assert!(store.log().is_empty());
    assert_eq!(
        MutationRoot.update_user(&service, 9, UpdateUserRequest { name: None, email: None }),
        Err("User not found".to_string())
    );
    assert_eq!(
        MutationRoot.create_user(&service, CreateUserRequest { name: "B".to_string(), email: "b@x.io".to_string() }),
        Ok(user(2, "B", "b@x.io"))
    );
}

#[test]
fn answer_functions_cover_every_case() {
    assert_eq!(answer_user(Ok(user(1, "A", "a@x.io"))), Ok(Some(user(1, "A", "a@x.io"))));
    assert_eq!(answer_user(Err(AppError::NotFound)), Ok(None));
    assert_eq!(
        answer_user(Err(AppError::Internal("x".to_string()))),
        Err("Internal server error".to_string())
    );
    assert_eq!(answer_removal(Ok(())), Ok(true));
    assert_eq!(answer_removal(Err(AppError::NotFound)), Ok(false));
    assert_eq!(
        answer_removal(Err(AppError::Validation("v".to_string()))),
        Err("Validation error: v".to_string())
    );
    assert_eq!(answer_plain(Ok::<u8, AppError>(3)), Ok(3));
    assert_eq!(
        answer_plain(Err::<u8, AppError>(AppError::NotFound)),
        Err("User not found".to_string())
    );
}

#[test]
fn user_response_holds_text_fields() {
    let response = UserResponse {
        id: "00000000-0000-0000-0000-000000000001".to_string(),
        name: "A".to_string(),
        email: "a@x.io".to_string(),
        created_at: "1970-01-01T00:00:00+00:00".to_string(),
        updated_at: "1970-01-01T00:00:00+00:00".to_string(),
    };
    assert_eq!(response.name, "A");
}

#[test]
fn violation_report_follows_the_two_answers() {
    assert_eq!(user_violation_report(true, true), Ok(()));
    assert_eq!(user_violation_report(false, true), Err("name: Name cannot be empty".to_string()));
    assert_eq!(user_violation_report(true, false), Err("email: Invalid email format".to_string()));
    let both = user_violation_report(false, false).unwrap_err();
    assert!(
        both == "name: Name cannot be empty\nemail: Invalid email format"
            || both == "email: Invalid email format\nname: Name cannot be empty"
    );
}

#[test]
fn identifier_is_shown_in_hyphenated_lower_case() {
    let mut someone = user(0xa1a2a3a4b1b2c1c2d1d2d3d4d5d6d7d8, "A", "a@x.io");
    assert_eq!(someone.id_string(), "a1a2a3a4-b1b2-c1c2-d1d2-d3d4d5d6d7d8");
    someone.id = 0;
    assert_eq!(someone.id_string(), "00000000-0000-0000-0000-000000000000");
    someone.id = u128::MAX;
    assert_eq!(someone.id_string(), "ffffffff-ffff-ffff-ffff-ffffffffffff");
}

#[test]
fn instant_is_shown_in_universal_time() {
    assert_eq!(
        Timestamp { seconds: 0, nanoseconds: 0 }.to_rfc3339(),
        Some("1970-01-01T00:00:00+00:00".to_string())
    );
    assert_eq!(
        Timestamp { seconds: 1431648000, nanoseconds: 0 }.to_rfc3339(),
        Some("2015-05-15T00:00:00+00:00".to_string())
    );
    assert_eq!(
        Timestamp { seconds: 1700000000, nanoseconds: 123_456_000 }.to_rfc3339(),
        Some("2023-11-14T22:13:20.123456+00:00".to_string())
    );
    assert_eq!(
        Timestamp { seconds: -1, nanoseconds: 999_999_999 }.to_rfc3339(),
        Some("1969-12-31T23:59:59.999999999+00:00".to_string())
    );
}

#[test]
fn instant_outside_the_calendar_has_no_text() {
    assert_eq!(Timestamp { seconds: i64::MAX, nanoseconds: 0 }.to_rfc3339(), None);
    assert_eq!(Timestamp { seconds: i64::MIN, nanoseconds: 0 }.to_rfc3339(), None);
    assert_eq!(Timestamp { seconds: 0, nanoseconds: 2_000_000_000 }.to_rfc3339(), None);
}

#[test]
fn user_is_shown_with_text_fields() {
    let someone = User {
        id: 0x0123456789abcdef0123456789abcdef,
        name: "Ann".to_string(),
        email: "ann@example.com".to_string(),
        created_at: Timestamp { seconds: 1431648000, nanoseconds: 0 },
        updated_at: Timestamp { seconds: 1431648001, nanoseconds: 500_000_000 },
    };
    assert_eq!(
        UserResponse::from_user(someone),
        Some(UserResponse {
            id: "01234567-89ab-cdef-0123-456789abcdef".to_string(),
            name: "Ann".to_string(),
            email: "ann@example.com".to_string(),
            created_at: "2015-05-15T00:00:00+00:00".to_string(),
            updated_at: "2015-05-15T00:00:01.500+00:00".to_string(),
        })
    );
}

#[test]
fn user_with_an_instant_outside_the_calendar_cannot_be_shown() {
    let mut someone = user(1, "A", "a@x.io");
    someone.updated_at = Timestamp { seconds: i64::MAX, nanoseconds: 0 };
    assert_eq!(UserResponse::from_user(someone.clone()), None);
    assert_eq!(UNSHOWABLE_USER, "timestamp out of range");
    assert_eq!(
        show_user(Ok(someone.clone())),
        Err(AppError::Internal("timestamp out of range".to_string()))
    );
    assert_eq!(
        show_users(Ok(vec![user(2, "B", "b@x.io"), someone])),
        Err(AppError::Internal("timestamp out of range".to_string()))
    );
}

#[test]
fn errors_pass_through_the_showing() {
    assert_eq!(show_user(Err(AppError::NotFound)), Err(AppError::NotFound));
    assert_eq!(show_users(Err(database("x"))), Err(database("x")));
}

#[test]
fn endpoints_show_what_the_service_answers() {
    let store = MemoryStore::with(vec![user(1, "A", "a@x.io"), user(2, "B", "b@x.io")]);
    let service = UserService::new(store.clone());
    assert_eq!(get_users(&service), Ok(vec![shown(1, "A", "a@x.io"), shown(2, "B", "b@x.io")]));
    assert_eq!(get_user(&service, 2), Ok(shown(2, "B", "b@x.io")));
    assert_eq!(get_user(&service, 3), Err(AppError::NotFound));
    assert_eq!(delete_user(&service, 2), Ok("User deleted"));
    assert_eq!(delete_user(&service, 2), Err(AppError::NotFound));
    assert_eq!(get_users(&service), Ok(vec![shown(1, "A", "a@x.io")]));
}

#[test]
fn endpoint_for_an_empty_store_shows_an_empty_list() {
    let service = UserService::new(MemoryStore::with(vec![]));
    assert_eq!(get_users(&service), Ok(vec![]));
}

#[test]
fn user_is_shown_with_the_texts_it_is_given() {
    assert_eq!(
        UserResponse::from_texts(
            user(1, "A", "a@x.io"),
            "one".to_string(),
            Some("then".to_string()),
            Some("now".to_string())
        ),
        Some(UserResponse {
            id: "one".to_string(),
            name: "A".to_string(),
            email: "a@x.io".to_string(),
            created_at: "then".to_string(),
            updated_at: "now".to_string(),
        })
    );
    assert_eq!(
        UserResponse::from_texts(user(1, "A", "a@x.io"), "one".to_string(), None, Some("now".to_string())),
        None
    );
    assert_eq!(
        UserResponse::from_texts(user(1, "A", "a@x.io"), "one".to_string(), Some("then".to_string()), None),
        None
    );
}
