//! The repository over PostgreSQL.

use crate::credentials::{Argon2Config, Argon2ConfigView, VerifyFailure};
use crate::identifier::new_v4;
use crate::model::user::UpdateUser;
use crate::repository::user::protocol::Request;
use crate::repository::user::transaction::Transaction;
use crate::repository::user::UserRepository;
use crate::DataError;
use std::sync::Arc;
use vstd::prelude::*;

verus! {

/// The account repository over PostgreSQL. It holds the hashing
/// configuration, made once and shared; the connection pool stays with the
/// driver of its operations.
#[derive(Debug, Clone)]
pub struct PostgresUserRepository {
    argon: Arc<Argon2Config>,
}

/// What is returned for a verification's outcome: both failures are reported
/// as the same hashing failure, so that a caller cannot tell them apart.
pub fn verification_outcome(verdict: Result<(), VerifyFailure>) -> (res: Result<(), DataError>)
    ensures
        match verdict {
            Ok(()) => res is Ok,
            Err(_) => res == Err::<(), DataError>(DataError::Hash),
        },
{
    match verdict {
        Ok(()) => Ok(()),
        Err(_) => Err(DataError::Hash),
    }
}

impl PostgresUserRepository {
    /// Makes the repository with its hashing configuration.
    pub fn new(argon: Argon2Config) -> (repository: PostgresUserRepository)
        ensures
            repository.config() == argon@,
    {
        PostgresUserRepository { argon: Arc::new(argon) }
    }
}

impl UserRepository for PostgresUserRepository {
    closed spec fn config(&self) -> Argon2ConfigView {
        self.argon@
    }

    fn get_user(&self, id: &u128) -> (tx: Transaction) {
        Transaction::new(Request::GetUser { id: *id })
    }

    fn create_user(&self, email: &str, password: &str) -> (tx: Transaction) {
        let id = new_v4();
        Transaction::new(Request::CreateUser { id, email: email.to_owned(), password: password.to_owned() })
    }

    fn update_user(&self, id: &u128, update: UpdateUser) -> (tx: Transaction) {
        Transaction::new(Request::UpdateUser { id: *id, update })
    }

    fn delete_user(&self, id: &u128) -> (tx: Transaction) {
        Transaction::new(Request::DeleteUser { id: *id })
    }

    fn list_users(&self) -> (tx: Transaction) {
        Transaction::new(Request::ListUsers)
    }

    fn verify_user_password(&self, email: &str, password: &str) -> (tx: Transaction) {
        Transaction::new(Request::VerifyUserPassword { email: email.to_owned(), password: password.to_owned() })
    }

    fn verify_password(&self, password: &str, hash: &str) -> (res: Result<(), DataError>) {
        verification_outcome(self.argon.check(password, hash))
    }

    fn hash_password(&self, password: &str) -> (res: Result<String, DataError>) {
        self.argon.derive(password)
    }
}

} // verus!
