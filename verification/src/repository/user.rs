//! The account repository: its operations, and the backends that serve
//! them.

pub mod laws;
pub mod postgres;
pub mod protocol;
pub mod statement;
pub mod table;
pub mod transaction;

use crate::credentials::{is_salt_text, Argon2ConfigView};
use crate::identifier::is_random_uuid;
use crate::model::user::UpdateUser;
use crate::repository::user::protocol::{RequestView, TransactionView};
use crate::repository::user::transaction::Transaction;
use crate::{DataError, DataErrorView};
use vstd::prelude::*;

verus! {

/// Which backend serves the repository.
#[derive(Clone, Copy, Debug, PartialEq, Eq, Structural)]
pub enum UserRepositorySettings {
    Mock,
    Postgres,
}

/// The operations on accounts. The two that only compute return their
/// result. Each of the others returns the operation as a [`Transaction`] of
/// which nothing was done yet: its driver runs it against the storage engine
/// and the workers.
pub trait UserRepository {
    /// The hashing configuration that the repository was made with.
    spec fn config(&self) -> Argon2ConfigView;

    /// The fetch of the account with the identifier `id`. It fails with
    /// `NotFound` where no row matches, and with a `ReadError` at every other
    /// failure to read.
    fn get_user(&self, id: &u128) -> (tx: Transaction)
        ensures
            tx@ == TransactionView::created(RequestView::GetUser { id: *id }),
    ;

    /// The creation of an account, under a new random identifier. The
    /// password is hashed before the transaction begins; a unique violation
    /// at the insert fails with `AlreadyExists`.
    fn create_user(&self, email: &str, password: &str) -> (tx: Transaction)
        ensures
            exists|id: u128| #[trigger]
                is_random_uuid(id) && tx@ == TransactionView::created(
                    RequestView::CreateUser { id, email: email@, password: password@ },
                ),
    ;

    /// The partial update of the account with the identifier `id`: only the
    /// fields that `update` holds are assigned. Where it holds a password,
    /// the stored row is read under a lock, the old password is verified
    /// against its digest, and only then is the new one hashed and written.
    /// Where it holds neither field, nothing is written: the row is read and
    /// returned as it is.
    fn update_user(&self, id: &u128, update: UpdateUser) -> (tx: Transaction)
        ensures
            tx@ == TransactionView::created(RequestView::UpdateUser { id: *id, update: update@ }),
    ;

    /// The deletion of the account with the identifier `id`, which returns
    /// the row that was removed. A foreign key violation fails with
    /// `CannotDeleteReferenced`.
    fn delete_user(&self, id: &u128) -> (tx: Transaction)
        ensures
            tx@ == TransactionView::created(RequestView::DeleteUser { id: *id }),
    ;

    /// The fetch of all accounts, in the order in which the storage engine
    /// returns them.
    fn list_users(&self) -> (tx: Transaction)
        ensures
            tx@ == TransactionView::created(RequestView::ListUsers),
    ;

    /// The check of `password` against the digest stored for `email`. The
    /// row is read in a transaction of its own; the password is verified
    /// once that is committed.
    fn verify_user_password(&self, email: &str, password: &str) -> (tx: Transaction)
        ensures
            tx@ == TransactionView::created(
                RequestView::VerifyUserPassword { email: email@, password: password@ },
            ),
    ;

    /// Checks `password` against `hash`. Success is owed exactly where the
    /// digest is well formed and Argon2 accepts the password for it; a
    /// corrupt digest and a mismatch fail alike.
    fn verify_password(&self, password: &str, hash: &str) -> (res: Result<(), DataError>)
        ensures
            res is Ok <==> self.config().verdict(password@, hash@) is Ok,
            res matches Err(error) ==> error@ == DataErrorView::Hash,
    ;

    /// Derives a digest of `password` under a fresh random salt. The digest
    /// is not empty, it is the one that Argon2 derives under some salt of the
    /// form of a fresh one, and `password` verifies against it; the call
    /// fails exactly where Argon2 derives none under the salt drawn.
    fn hash_password(&self, password: &str) -> (res: Result<String, DataError>)
        ensures
            match res {
                Ok(digest) => {
                    &&& digest@.len() > 0
                    &&& exists|salt: Seq<char>| #[trigger]
                        is_salt_text(salt) && self.config().digest(password@, salt) == Some(digest@)
                    &&& self.config().verdict(password@, digest@) is Ok
                },
                Err(error) => {
                    &&& error@ == DataErrorView::Hash
                    &&& exists|salt: Seq<char>| #[trigger]
                        is_salt_text(salt) && self.config().digest(password@, salt) is None
                },
            },
    ;
}

} // verus!
