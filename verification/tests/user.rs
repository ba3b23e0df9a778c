use data::credentials::{Algorithm, Argon2Config, Version};
use data::errors::StorageError;
use data::model::user::{PasswordUpdate, UpdateUser, User};
use data::repository::user::postgres::PostgresUserRepository;
use data::repository::user::protocol::{Action, Event, Reply};
use data::repository::user::statement::{Bind, Column, Statement};
use data::repository::user::transaction::Transaction;
use data::repository::user::UserRepository;
use data::DataError;
use uuid::Uuid;

const SEEDED_ID: &str = "a74f9b43-8a49-4d97-8270-9879d37c600d";
const SEEDED_HASH: &str =
    "$argon2id$v=19$m=19456,t=2,p=1$l9VfAtWMe+bWqP81cgsDuQ$Z+ExthpqUCPuHSwxtHI1RP17OyVGo1/bapupD+cJYzw";

/// An account table in memory, which answers the repository's statements as
/// the schema asks: unique identifiers, unique emails, a rollback that undoes.
struct Table {
    committed: Vec<User>,
    working: Option<Vec<User>>,
    clock: i64,
    statements: Vec<String>,
}

fn unique_violation() -> StorageError {
    StorageError::Database {
        code: Some("23505".to_string()),
        message: "duplicate key value violates unique constraint".to_string(),
    }
}

fn text(bind: &Bind) -> String {
    match bind {
        Bind::Text(text) => text.clone(),
        Bind::Id(id) => panic!("a text was expected, not the identifier {id}"),
    }
}

fn ident(bind: &Bind) -> u128 {
    match bind {
        Bind::Id(id) => *id,
        Bind::Text(text) => panic!("an identifier was expected, not the text {text}"),
    }
}

impl Table {
    fn seeded() -> Table {
        let id = Uuid::parse_str(SEEDED_ID).unwrap().as_u128();
        Table {
            committed: vec![User {
                id,
                email: "test@myemail.com".to_string(),
                hash: SEEDED_HASH.to_string(),
                is_admin: false,
                created_at: 1_700_000_000_000_000,
                updated_at: 1_700_000_000_000_000,
            }],
            working: None,
            clock: 1_700_000_000_000_001,
            statements: Vec::new(),
        }
    }

    fn empty() -> Table {
        Table { committed: Vec::new(), working: None, clock: 1, statements: Vec::new() }
    }

    fn execute(&mut self, statement: &Statement) -> Result<Vec<User>, StorageError> {
        let sql = statement.sql();
        let binds = statement.binds();
        self.statements.push(sql.clone());
        self.clock += 1;
        let now = self.clock;
        let rows = match self.working.as_mut() {
            Some(rows) => rows,
            None => return Err(StorageError::Other { message: "no transaction".to_string() }),
        };
        match statement {
            Statement::SelectUsers => {
                assert_eq!(sql, "SELECT * FROM users");
                assert!(binds.is_empty());
                Ok(rows.clone())
            }
            Statement::SelectUser { .. } | Statement::SelectUserForUpdate { .. } => {
                assert!(sql.starts_with("SELECT * FROM users WHERE id = $1"));
                assert_eq!(binds.len(), 1);
                let id = ident(&binds[0]);
                Ok(rows.iter().filter(|row| row.id == id).cloned().collect())
            }
            Statement::SelectUserByEmail { .. } => {
                assert_eq!(sql, "SELECT * FROM users WHERE email = $1");
                assert_eq!(binds.len(), 1);
                let email = text(&binds[0]);
                Ok(rows.iter().filter(|row| row.email == email).cloned().collect())
            }
            Statement::InsertUser { .. } => {
                assert_eq!(sql, "INSERT INTO users ( id, email, hash ) VALUES ( $1, $2, $3 ) RETURNING *");
                assert_eq!(binds.len(), 3);
                let (id, email, hash) = (ident(&binds[0]), text(&binds[1]), text(&binds[2]));
                if rows.iter().any(|row| row.id == id || row.email == email) {
                    return Err(unique_violation());
                }
                let user = User { id, email, hash, is_admin: false, created_at: now, updated_at: now };
                rows.push(user.clone());
                Ok(vec![user])
            }
            Statement::UpdateUser { changes, .. } => {
                assert_eq!(binds.len(), changes.len() + 1);
                let id = ident(&binds[changes.len()]);
                let email = changes.iter().position(|change| change.column == Column::Email);
                if let Some(at) = email {
                    let email = text(&binds[at]);
                    if rows.iter().any(|row| row.id != id && row.email == email) {
                        return Err(unique_violation());
                    }
                }
                let mut updated = Vec::new();
                for row in rows.iter_mut().filter(|row| row.id == id) {
                    for (at, change) in changes.iter().enumerate() {
                        match change.column {
                            Column::Email => row.email = text(&binds[at]),
                            Column::Hash => row.hash = text(&binds[at]),
                        }
                    }
                    row.updated_at = now;
                    updated.push(row.clone());
                }
                Ok(updated)
            }
            Statement::DeleteUser { .. } => {
                assert_eq!(sql, "DELETE FROM users WHERE id = $1 RETURNING *");
                let id = ident(&binds[0]);
                let deleted: Vec<User> = rows.iter().filter(|row| row.id == id).cloned().collect();
                rows.retain(|row| row.id != id);
                Ok(deleted)
            }
        }
    }
}

fn one_row(fetched: Result<Vec<User>, StorageError>) -> Event {
    match fetched {
        Ok(rows) => match rows.into_iter().next() {
            Some(row) => Event::Row(row),
            None => Event::Failed(StorageError::RowNotFound),
        },
        Err(failure) => Event::Failed(failure),
    }
}

/// Drives an operation to its end against the table, and hashes and verifies
/// with the repository itself.
fn run(repo: &PostgresUserRepository, table: &mut Table, tx: Transaction) -> Result<Reply, DataError> {
    let (mut tx, mut action) = tx.step(Event::Start);
    loop {
        let event = match action {
            Action::Finish(outcome) => {
                assert!(tx.is_finished());
                assert!(table.working.is_none());
                return outcome;
            }
            Action::Hash { password } => match repo.hash_password(&password) {
                Ok(digest) => Event::Hashed(digest),
                Err(_) => Event::HashFailed,
            },
            Action::Verify { password, hash } => match repo.verify_password(&password, &hash) {
                Ok(()) => Event::Verified,
                Err(_) => Event::Mismatch,
            },
            Action::Begin => {
                assert!(table.working.is_none());
                table.working = Some(table.committed.clone());
                Event::Began
            }
            Action::FetchOne(statement) => one_row(table.execute(&statement)),
            Action::FetchAll(statement) => match table.execute(&statement) {
                Ok(rows) => Event::Rows(rows),
                Err(failure) => Event::Failed(failure),
            },
            Action::Commit => {
                table.committed = table.working.take().unwrap();
                Event::Committed
            }
            Action::Rollback => {
                assert!(table.working.take().is_some());
                Event::RolledBack
            }
        };
        let next = tx.step(event);
        tx = next.0;
        action = next.1;
    }
}

fn user(outcome: Result<Reply, DataError>) -> Result<User, DataError> {
    match outcome? {
        Reply::User(user) => Ok(user),
        other => panic!("a user was expected, not {other:?}"),
    }
}

fn users(outcome: Result<Reply, DataError>) -> Result<Vec<User>, DataError> {
    match outcome? {
        Reply::Users(users) => Ok(users),
        other => panic!("users were expected, not {other:?}"),
    }
}

fn build_repo() -> PostgresUserRepository {
    let config =
        Argon2Config::new(b"mysecret".to_vec(), Algorithm::Argon2id, Version::V0x13, 19456, 2, 1, None).unwrap();
    PostgresUserRepository::new(config)
}

#[test]
fn list_users() {
    let user_repo = build_repo();
    let mut table = Table::seeded();

    let users = users(run(&user_repo, &mut table, user_repo.list_users())).unwrap();

    assert_eq!(users.len(), 1);
    let first_user = users.first().unwrap();
    assert_eq!(&first_user.email, "test@myemail.com");
}

#[test]
fn get_user() {
    let user_repo = build_repo();
    let mut table = Table::seeded();

    let user_id = Uuid::parse_str("a74f9b43-8a49-4d97-8270-9879d37c600d").unwrap().as_u128();

    let user = user(run(&user_repo, &mut table, user_repo.get_user(&user_id))).unwrap();

    assert_eq!(&user.email, "test@myemail.com");
}

#[test]
fn create_user() {
    let user_repo = build_repo();
    let mut table = Table::seeded();

    let user =
        user(run(&user_repo, &mut table, user_repo.create_user("test2@myemail.com", "my_test_password"))).unwrap();

    assert_eq!(&user.email, "test2@myemail.com");

    let users = users(run(&user_repo, &mut table, user_repo.list_users())).unwrap();

    assert_eq!(users.len(), 2);
}

#[test]
fn update_user_email() {
    let user_repo = build_repo();
    let mut table = Table::seeded();

    let update_email = "another@myemail.com";
    let user_id = Uuid::parse_str("a74f9b43-8a49-4d97-8270-9879d37c600d").unwrap().as_u128();

    let update = UpdateUser { email: Some(update_email.to_string()), password: None };

    let user = user(run(&user_repo, &mut table, user_repo.update_user(&user_id, update))).unwrap();

    assert_eq!(&user.email, update_email);

    let user = self::user(run(&user_repo, &mut table, user_repo.get_user(&user_id))).unwrap();

    assert_eq!(&user.email, update_email);
}

#[test]
fn update_user_password() {
    let user_repo = build_repo();
    let mut table = Table::seeded();

    let new_password = "brand_new_pass";
    let old_password = "dev_only_pass";

    let user_id = Uuid::parse_str("a74f9b43-8a49-4d97-8270-9879d37c600d").unwrap().as_u128();

    let update = UpdateUser {
        email: None,
        password: Some(PasswordUpdate {
            new_password: new_password.to_string(),
            old_password: old_password.to_string(),
        }),
    };

    let user = user(run(&user_repo, &mut table, user_repo.update_user(&user_id, update))).unwrap();

    let validate = user_repo.verify_password(new_password, &user.hash);

    assert!(validate.is_ok());
}

#[test]
fn update_user_email_and_password() {
    let user_repo = build_repo();
    let mut table = Table::seeded();

    let update_email = "another@myemail.com";
    let new_password = "brand_new_pass";
    let old_password = "dev_only_pass";

    let user_id = Uuid::parse_str("a74f9b43-8a49-4d97-8270-9879d37c600d").unwrap().as_u128();

    let update = UpdateUser {
        email: Some(update_email.to_string()),
        password: Some(PasswordUpdate {
            new_password: new_password.to_string(),
            old_password: old_password.to_string(),
        }),
    };

    let user = user(run(&user_repo, &mut table, user_repo.update_user(&user_id, update))).unwrap();

    let validate = user_repo.verify_password(new_password, &user.hash);

    assert!(validate.is_ok());
    assert_eq!(&user.email, update_email);
    assert_eq!(
        table.statements.last().unwrap(),
        "UPDATE users SET email = $1, hash = $2 WHERE id = $3 RETURNING *"
    );
}

#[test]
fn delete_user() {
    let user_repo = build_repo();
    let mut table = Table::seeded();

    let user =
        user(run(&user_repo, &mut table, user_repo.create_user("test2@myemail.com", "my_test_password"))).unwrap();

    assert_eq!(&user.email, "test2@myemail.com");

    let user2 = self::user(run(&user_repo, &mut table, user_repo.delete_user(&user.id))).unwrap();

    assert_eq!(user2.id, user.id);

    match self::user(run(&user_repo, &mut table, user_repo.get_user(&user.id))) {
        Ok(_) => panic!("Can get user after deletion"),
        Err(DataError::NotFound(_)) => {}
        Err(DataError::ReadError(StorageError::RowNotFound)) => {}
        Err(err) => panic!("Get wrong error after getting deleted user: {err:?}"),
    }
}

#[test]
fn verify_and_hash() {
    let user_repo = build_repo();

    let user_pass = "some_test_pass";
    let hash = user_repo.hash_password(user_pass).unwrap();

    let verify = user_repo.verify_password(user_pass, &hash);

    assert!(verify.is_ok());
}

#[test]
fn hash_password() {
    let user_repo = build_repo();

    user_repo.hash_password("dev_only_pass").unwrap();
}

#[test]
fn verify_user_password() {
    let user_repo = build_repo();
    let mut table = Table::seeded();

    let user_pass = "dev_only_pass";
    let user_email = "test@myemail.com";
    let verify = run(&user_repo, &mut table, user_repo.verify_user_password(user_email, user_pass));

    assert!(verify.is_ok());
}

#[test]
fn test_password_hashing() {
    let pass = "dev_only_pass";

    let config1 =
        Argon2Config::new(b"mysecret".to_vec(), Algorithm::Argon2id, Version::V0x13, 19456, 2, 1, None).unwrap();
    let hash1 = config1.derive(pass).unwrap();

    let config2 =
        Argon2Config::new(b"mysecret".to_vec(), Algorithm::Argon2id, Version::V0x13, 19456, 2, 1, None).unwrap();

    let verification = config2.check(pass, &hash1);

    assert!(verification.is_ok());

    let saved_hash = "$argon2id$v=19$m=19456,t=2,p=1$l9VfAtWMe+bWqP81cgsDuQ$Z+ExthpqUCPuHSwxtHI1RP17OyVGo1/bapupD+cJYzw";

    let verification = config2.check(pass, saved_hash);

    assert!(verification.is_ok());
}

#[test]
fn created_user_is_fetched_with_its_email_and_a_digest() {
    let user_repo = build_repo();
    let mut table = Table::empty();

    let created = user(run(&user_repo, &mut table, user_repo.create_user("a@b.com", "secret words"))).unwrap();
    let fetched = user(run(&user_repo, &mut table, user_repo.get_user(&created.id))).unwrap();

    assert_eq!(fetched, created);
    assert_eq!(fetched.email, "a@b.com");
    assert!(!fetched.hash.is_empty());
    assert_ne!(fetched.hash, "secret words");
    assert!(fetched.hash.starts_with("$argon2id$v=19$m=19456,t=2,p=1$"));
    assert!(!fetched.is_admin);
    assert!(user_repo.verify_password("secret words", &fetched.hash).is_ok());
}

#[test]
fn created_user_has_a_random_uuid() {
    let user_repo = build_repo();
    let mut table = Table::empty();

    let first = user(run(&user_repo, &mut table, user_repo.create_user("a@b.com", "pw one"))).unwrap();
    let second = user(run(&user_repo, &mut table, user_repo.create_user("c@d.com", "pw two"))).unwrap();

    assert_ne!(first.id, second.id);
    for id in [first.id, second.id] {
        let uuid = Uuid::from_u128(id);
        assert_eq!(uuid.get_version_num(), 4);
        assert_eq!(id & 0x0000_0000_0000_F000_C000_0000_0000_0000, 0x0000_0000_0000_4000_8000_0000_0000_0000);
    }
}

#[test]
fn second_user_with_the_same_email_already_exists() {
    let user_repo = build_repo();
    let mut table = Table::seeded();

    let first = run(&user_repo, &mut table, user_repo.create_user("twice@myemail.com", "first"));
    assert!(first.is_ok());
    let second = run(&user_repo, &mut table, user_repo.create_user("twice@myemail.com", "second"));

    assert_eq!(second, Err(DataError::AlreadyExists("twice@myemail.com".to_string())));
    let all = users(run(&user_repo, &mut table, user_repo.list_users())).unwrap();
    assert_eq!(all.iter().filter(|row| row.email == "twice@myemail.com").count(), 1);
    assert_eq!(all.len(), 2);
}

#[test]
fn email_update_leaves_the_hash_as_it_is() {
    let user_repo = build_repo();
    let mut table = Table::seeded();
    let user_id = Uuid::parse_str(SEEDED_ID).unwrap().as_u128();

    let update = UpdateUser { email: Some("a@b.com".to_string()), password: None };
    let updated = user(run(&user_repo, &mut table, user_repo.update_user(&user_id, update))).unwrap();

    assert_eq!(updated.email, "a@b.com");
    assert_eq!(updated.hash, SEEDED_HASH);
    assert_eq!(table.statements.last().unwrap(), "UPDATE users SET email = $1 WHERE id = $2 RETURNING *");
    let fetched = user(run(&user_repo, &mut table, user_repo.get_user(&user_id))).unwrap();
    assert_eq!(fetched.email, "a@b.com");
    assert_eq!(fetched.hash, SEEDED_HASH);
    assert_eq!(fetched.id, user_id);
}

#[test]
fn password_update_with_a_wrong_old_password_fails_and_changes_nothing() {
    let user_repo = build_repo();
    let mut table = Table::seeded();
    let user_id = Uuid::parse_str(SEEDED_ID).unwrap().as_u128();

    let update = UpdateUser {
        email: None,
        password: Some(PasswordUpdate { old_password: "wrong".to_string(), new_password: "x".to_string() }),
    };
    let outcome = run(&user_repo, &mut table, user_repo.update_user(&user_id, update));

    assert_eq!(outcome, Err(DataError::Hash));
    assert!(table.statements.iter().all(|sql| !sql.starts_with("UPDATE")));
    let fetched = user(run(&user_repo, &mut table, user_repo.get_user(&user_id))).unwrap();
    assert_eq!(fetched.hash, SEEDED_HASH);
}

#[test]
fn password_update_reads_the_row_under_a_lock_first() {
    let user_repo = build_repo();
    let mut table = Table::seeded();
    let user_id = Uuid::parse_str(SEEDED_ID).unwrap().as_u128();

    let update = UpdateUser {
        email: None,
        password: Some(PasswordUpdate {
            old_password: "dev_only_pass".to_string(),
            new_password: "brand_new_pass".to_string(),
        }),
    };
    let updated = user(run(&user_repo, &mut table, user_repo.update_user(&user_id, update))).unwrap();

    assert_eq!(
        table.statements,
        vec![
            "SELECT * FROM users WHERE id = $1 FOR UPDATE".to_string(),
            "UPDATE users SET hash = $1 WHERE id = $2 RETURNING *".to_string(),
        ]
    );
    assert_ne!(updated.hash, SEEDED_HASH);
    assert_eq!(updated.email, "test@myemail.com");
    assert!(user_repo.verify_password("dev_only_pass", &updated.hash).is_err());
}

#[test]
fn empty_update_returns_the_current_row_and_writes_nothing() {
    let user_repo = build_repo();
    let mut table = Table::seeded();
    let user_id = Uuid::parse_str(SEEDED_ID).unwrap().as_u128();
    let before = table.committed.clone();

    let update = UpdateUser { email: None, password: None };
    let current = user(run(&user_repo, &mut table, user_repo.update_user(&user_id, update))).unwrap();

    assert_eq!(current, before[0]);
    assert_eq!(table.committed, before);
    assert_eq!(table.statements, vec!["SELECT * FROM users WHERE id = $1".to_string()]);
}

#[test]
fn update_of_a_missing_user_is_not_found() {
    let user_repo = build_repo();
    let mut table = Table::seeded();
    let user_id: u128 = 0x0123_4567_89ab_4def_8123_4567_89ab_cdef;

    let update = UpdateUser { email: Some("a@b.com".to_string()), password: None };
    let outcome = run(&user_repo, &mut table, user_repo.update_user(&user_id, update));

    assert_eq!(outcome, Err(DataError::NotFound("01234567-89ab-4def-8123-456789abcdef".to_string())));
}

#[test]
fn update_to_a_taken_email_is_a_write_error() {
    let user_repo = build_repo();
    let mut table = Table::seeded();
    let created = user(run(&user_repo, &mut table, user_repo.create_user("second@myemail.com", "pw"))).unwrap();

    let update = UpdateUser { email: Some("test@myemail.com".to_string()), password: None };
    let outcome = run(&user_repo, &mut table, user_repo.update_user(&created.id, update));

    assert_eq!(outcome, Err(DataError::WriteError(unique_violation())));
}

#[test]
fn deleted_user_is_returned_and_then_not_found() {
    let user_repo = build_repo();
    let mut table = Table::seeded();
    let user_id = Uuid::parse_str(SEEDED_ID).unwrap().as_u128();
    let seeded = table.committed[0].clone();

    let deleted = user(run(&user_repo, &mut table, user_repo.delete_user(&user_id))).unwrap();
    assert_eq!(deleted, seeded);

    let outcome = run(&user_repo, &mut table, user_repo.get_user(&user_id));
    assert_eq!(outcome, Err(DataError::NotFound(SEEDED_ID.to_string())));
    let again = run(&user_repo, &mut table, user_repo.delete_user(&user_id));
    assert_eq!(again, Err(DataError::NotFound(SEEDED_ID.to_string())));
}

#[test]
fn list_of_an_empty_table_is_empty() {
    let user_repo = build_repo();
    let mut table = Table::empty();

    let outcome = run(&user_repo, &mut table, user_repo.list_users());

    assert_eq!(outcome, Ok(Reply::Users(Vec::new())));
}

#[test]
fn seeded_user_is_listed_fetched_deleted_and_gone() {
    let user_repo = build_repo();
    let mut table = Table::seeded();

    let listed = users(run(&user_repo, &mut table, user_repo.list_users())).unwrap();
    assert_eq!(listed.len(), 1);
    assert_eq!(listed[0].email, "test@myemail.com");
    assert_eq!(listed[0].hash, SEEDED_HASH);

    let fetched = user(run(&user_repo, &mut table, user_repo.get_user(&listed[0].id))).unwrap();
    assert_eq!(fetched, listed[0]);

    let deleted = user(run(&user_repo, &mut table, user_repo.delete_user(&fetched.id))).unwrap();
    assert_eq!(deleted, fetched);
    let gone = run(&user_repo, &mut table, user_repo.get_user(&fetched.id));
    assert!(matches!(gone, Err(DataError::NotFound(_))));
}

#[test]
fn password_check_of_an_unknown_email_is_not_found() {
    let user_repo = build_repo();
    let mut table = Table::seeded();

    let outcome = run(&user_repo, &mut table, user_repo.verify_user_password("nobody@myemail.com", "pw"));

    assert_eq!(outcome, Err(DataError::NotFound("nobody@myemail.com".to_string())));
}

#[test]
fn password_check_with_a_wrong_password_fails() {
    let user_repo = build_repo();
    let mut table = Table::seeded();

    let outcome = run(&user_repo, &mut table, user_repo.verify_user_password("test@myemail.com", "not the pass"));

    assert_eq!(outcome, Err(DataError::Hash));
    let right = run(&user_repo, &mut table, user_repo.verify_user_password("test@myemail.com", "dev_only_pass"));
    assert_eq!(right, Ok(Reply::Verified));
}
