//! The protocol of an operation: what its driver is asked to do, what the
//! driver reports, and the step from one to the next. Every operation that
//! touches the table runs in one transaction, which is committed before a
//! success is returned and rolled back before a failure is.

use crate::errors::{ErrorKindExt, StorageError, StorageErrorView};
use crate::identifier::hyphenated_text;
use crate::model::user::{UpdateUser, UpdateUserView, User, UserView};
use crate::repository::user::statement::{AssignmentView, Column, Statement, StatementView};
use crate::{DataError, DataErrorView};
use vstd::prelude::*;

verus! {

/// What is reported where the driver hands over an event that cannot follow
/// the action it was asked for.
pub const UNEXPECTED_EVENT: &'static str = "the event does not answer the action that was asked for";

/// What a list request is about, in a failure's text.
pub const ALL_USERS: &'static str = "users";

/// An operation of the repository, with its arguments.
#[derive(Debug, Clone, PartialEq, Eq)]
pub enum Request {
    GetUser { id: u128 },
    ListUsers,
    CreateUser { id: u128, email: String, password: String },
    UpdateUser { id: u128, update: UpdateUser },
    DeleteUser { id: u128 },
    VerifyUserPassword { email: String, password: String },
}

/// What a [`Request`] is, with its texts as sequences of characters.
pub enum RequestView {
    GetUser { id: u128 },
    ListUsers,
    CreateUser { id: u128, email: Seq<char>, password: Seq<char> },
    UpdateUser { id: u128, update: UpdateUserView },
    DeleteUser { id: u128 },
    VerifyUserPassword { email: Seq<char>, password: Seq<char> },
}

impl View for Request {
    type V = RequestView;

    open spec fn view(&self) -> RequestView {
        match self {
            Request::GetUser { id } => RequestView::GetUser { id: *id },
            Request::ListUsers => RequestView::ListUsers,
            Request::CreateUser { id, email, password } => RequestView::CreateUser {
                id: *id,
                email: email@,
                password: password@,
            },
            Request::UpdateUser { id, update } => RequestView::UpdateUser { id: *id, update: update@ },
            Request::DeleteUser { id } => RequestView::DeleteUser { id: *id },
            Request::VerifyUserPassword { email, password } => RequestView::VerifyUserPassword {
                email: email@,
                password: password@,
            },
        }
    }
}

/// What an operation returns where it succeeds.
#[derive(Debug, Clone, PartialEq, Eq)]
pub enum Reply {
    User(User),
    Users(Vec<User>),
    Verified,
}

/// What a [`Reply`] is, with its texts as sequences of characters.
pub enum ReplyView {
    User(UserView),
    Users(Seq<UserView>),
    Verified,
}

impl View for Reply {
    type V = ReplyView;

    open spec fn view(&self) -> ReplyView {
        match self {
            Reply::User(user) => ReplyView::User(user@),
            Reply::Users(users) => ReplyView::Users(users.deep_view()),
            Reply::Verified => ReplyView::Verified,
        }
    }
}

/// The outcome of an operation, with its texts as sequences of characters.
pub open spec fn outcome_view(outcome: Result<Reply, DataError>) -> Result<ReplyView, DataErrorView> {
    match outcome {
        Ok(reply) => Ok(reply@),
        Err(error) => Err(error@),
    }
}

/// What the driver of an operation is asked to do next.
#[derive(Debug, PartialEq, Eq)]
pub enum Action {
    /// Hash the password on a worker.
    Hash { password: String },
    /// Verify the password against the digest on a worker.
    Verify { password: String, hash: String },
    /// Begin a transaction.
    Begin,
    /// Run the statement in the transaction and hand back its one row.
    FetchOne(Statement),
    /// Run the statement in the transaction and hand back all its rows.
    FetchAll(Statement),
    /// Commit the transaction.
    Commit,
    /// Roll the transaction back.
    Rollback,
    /// Return the outcome to the caller: the operation is over.
    Finish(Result<Reply, DataError>),
}

/// What an [`Action`] is, with its texts as sequences of characters.
pub enum ActionView {
    Hash { password: Seq<char> },
    Verify { password: Seq<char>, hash: Seq<char> },
    Begin,
    FetchOne(StatementView),
    FetchAll(StatementView),
    Commit,
    Rollback,
    Finish(Result<ReplyView, DataErrorView>),
}

impl View for Action {
    type V = ActionView;

    open spec fn view(&self) -> ActionView {
        match self {
            Action::Hash { password } => ActionView::Hash { password: password@ },
            Action::Verify { password, hash } => ActionView::Verify { password: password@, hash: hash@ },
            Action::Begin => ActionView::Begin,
            Action::FetchOne(statement) => ActionView::FetchOne(statement@),
            Action::FetchAll(statement) => ActionView::FetchAll(statement@),
            Action::Commit => ActionView::Commit,
            Action::Rollback => ActionView::Rollback,
            Action::Finish(outcome) => ActionView::Finish(outcome_view(*outcome)),
        }
    }
}

/// What the driver of an operation reports back.
#[derive(Debug, Clone, PartialEq, Eq)]
pub enum Event {
    /// The operation is to begin.
    Start,
    /// The worker derived the digest.
    Hashed(String),
    /// The worker could not derive a digest.
    HashFailed,
    /// The worker accepted the password for the digest.
    Verified,
    /// The worker did not accept the password for the digest.
    Mismatch,
    /// The work could not be handed to a worker.
    DispatchFailed,
    /// The transaction has begun.
    Began,
    /// The statement returned this row.
    Row(User),
    /// The statement returned these rows.
    Rows(Vec<User>),
    /// The transaction is committed.
    Committed,
    /// The transaction is rolled back.
    RolledBack,
    /// The storage engine failed at what was asked.
    Failed(StorageError),
}

/// What an [`Event`] is, with its texts as sequences of characters.
pub enum EventView {
    Start,
    Hashed(Seq<char>),
    HashFailed,
    Verified,
    Mismatch,
    DispatchFailed,
    Began,
    Row(UserView),
    Rows(Seq<UserView>),
    Committed,
    RolledBack,
    Failed(StorageErrorView),
}

impl View for Event {
    type V = EventView;

    open spec fn view(&self) -> EventView {
        match self {
            Event::Start => EventView::Start,
            Event::Hashed(digest) => EventView::Hashed(digest@),
            Event::HashFailed => EventView::HashFailed,
            Event::Verified => EventView::Verified,
            Event::Mismatch => EventView::Mismatch,
            Event::DispatchFailed => EventView::DispatchFailed,
            Event::Began => EventView::Began,
            Event::Row(user) => EventView::Row(user@),
            Event::Rows(users) => EventView::Rows(users.deep_view()),
            Event::Committed => EventView::Committed,
            Event::RolledBack => EventView::RolledBack,
            Event::Failed(failure) => EventView::Failed(failure@),
        }
    }
}

/// Where an operation stands: what its driver was last asked for.
#[derive(Clone, Copy, Debug, PartialEq, Eq, Structural)]
pub enum Stage {
    /// Nothing yet.
    Created,
    /// A digest of a new password.
    Hashing,
    /// A transaction.
    Beginning,
    /// The rows of a statement that reads.
    Reading,
    /// A verdict on a password.
    Verifying,
    /// The row of a statement that writes.
    Writing,
    /// The commit.
    Committing,
    /// The rollback.
    RollingBack,
    /// The return of the outcome.
    Finished,
}

/// The state of an operation between two steps.
pub struct TransactionView {
    /// The operation and its arguments.
    pub request: RequestView,
    /// What the driver was last asked for.
    pub stage: Stage,
    /// The digest of a new account's password, once derived.
    pub digest: Option<Seq<char>>,
    /// What is returned once the transaction is committed.
    pub reply: Option<ReplyView>,
    /// What is returned once the transaction is rolled back.
    pub failure: Option<DataErrorView>,
}

/// The assignments of a partial update, from the fields that are present:
/// the email before the hash, and nothing for a field that is absent.
pub open spec fn changes_of(email: Option<Seq<char>>, hash: Option<Seq<char>>) -> Seq<AssignmentView> {
    let of_email = match email {
        Some(value) => seq![AssignmentView { column: Column::Email, value }],
        None => Seq::empty(),
    };
    let of_hash = match hash {
        Some(value) => seq![AssignmentView { column: Column::Hash, value }],
        None => Seq::empty(),
    };
    of_email + of_hash
}

impl RequestView {
    /// What the request is about, as a failure names it: the account's
    /// identifier as a hyphenated UUID, or its email; nothing for a request
    /// that is about no single account that exists.
    pub open spec fn subject(self) -> Option<Seq<char>> {
        match self {
            RequestView::GetUser { id } => Some(hyphenated_text(id)),
            RequestView::UpdateUser { id, .. } => Some(hyphenated_text(id)),
            RequestView::DeleteUser { id } => Some(hyphenated_text(id)),
            RequestView::VerifyUserPassword { email, .. } => Some(email),
            RequestView::ListUsers => None,
            RequestView::CreateUser { .. } => None,
        }
    }

    /// The failure of a statement that reads: no row is `NotFound` where the
    /// request is about one account, every other failure a `ReadError`.
    pub open spec fn read_failure(self, failure: StorageErrorView) -> DataErrorView {
        if failure is RowNotFound && self.subject() is Some {
            DataErrorView::NotFound(self.subject()->0)
        } else {
            DataErrorView::ReadError(failure)
        }
    }

    /// The failure of a statement that writes: no row is `NotFound` where
    /// the request is about one account; a unique violation on creating is
    /// `AlreadyExists` with the email; a foreign key violation on deleting is
    /// `CannotDeleteReferenced` with the identifier; every other failure is
    /// a `WriteError`.
    pub open spec fn write_failure(self, failure: StorageErrorView) -> DataErrorView {
        if failure is RowNotFound && self.subject() is Some {
            DataErrorView::NotFound(self.subject()->0)
        } else {
            match self {
                RequestView::CreateUser { email, .. } if failure.kind() == ErrorKindExt::UniqueViolation =>
                    DataErrorView::AlreadyExists(email),
                RequestView::DeleteUser { id } if failure.kind() == ErrorKindExt::ForeignKeyViolation =>
                    DataErrorView::CannotDeleteReferenced(hyphenated_text(id)),
                _ => DataErrorView::WriteError(failure),
            }
        }
    }

    /// The first statement of the request's transaction.
    pub open spec fn first_statement(self, digest: Option<Seq<char>>) -> Option<(Stage, ActionView)> {
        match self {
            RequestView::GetUser { id } => Some(
                (Stage::Reading, ActionView::FetchOne(StatementView::SelectUser { id })),
            ),
            RequestView::ListUsers => Some((Stage::Reading, ActionView::FetchAll(StatementView::SelectUsers))),
            RequestView::CreateUser { id, email, .. } => match digest {
                Some(hash) => Some(
                    (Stage::Writing, ActionView::FetchOne(StatementView::InsertUser { id, email, hash })),
                ),
                None => None,
            },
            RequestView::UpdateUser { id, update } => if update.password is Some {
                Some((Stage::Reading, ActionView::FetchOne(StatementView::SelectUserForUpdate { id })))
            } else if update.email is Some {
                Some(
                    (
                        Stage::Writing,
                        ActionView::FetchOne(
                            StatementView::UpdateUser { id, changes: changes_of(update.email, None) },
                        ),
                    ),
                )
            } else {
                Some((Stage::Reading, ActionView::FetchOne(StatementView::SelectUser { id })))
            },
            RequestView::DeleteUser { id } => Some(
                (Stage::Writing, ActionView::FetchOne(StatementView::DeleteUser { id })),
            ),
            RequestView::VerifyUserPassword { email, .. } => Some(
                (Stage::Reading, ActionView::FetchOne(StatementView::SelectUserByEmail { email })),
            ),
        }
    }
}

impl TransactionView {
    /// The state of a request of which nothing was done yet.
    pub open spec fn created(request: RequestView) -> TransactionView {
        TransactionView { request, stage: Stage::Created, digest: None, reply: None, failure: None }
    }

    /// Whether a transaction is open on the storage engine.
    pub open spec fn in_transaction(self) -> bool {
        match self.stage {
            Stage::Created => false,
            Stage::Beginning => false,
            Stage::Hashing => self.request is UpdateUser,
            Stage::Verifying => self.request is UpdateUser,
            Stage::Reading => true,
            Stage::Writing => true,
            Stage::Committing => true,
            Stage::RollingBack => true,
            Stage::Finished => false,
        }
    }

    /// The state at `stage`, all else as it is.
    pub open spec fn at(self, stage: Stage) -> TransactionView {
        TransactionView { stage, ..self }
    }

    /// Ends the operation with `failure`: at once where no transaction is
    /// open, and else after a rollback.
    pub open spec fn abort(self, failure: DataErrorView) -> (TransactionView, ActionView) {
        if self.in_transaction() {
            (
                TransactionView { stage: Stage::RollingBack, failure: Some(failure), ..self },
                ActionView::Rollback,
            )
        } else {
            (self.at(Stage::Finished), ActionView::Finish(Err(failure)))
        }
    }

    /// Ends the operation because of an event that answers no action asked.
    pub open spec fn refuse(self) -> (TransactionView, ActionView) {
        self.abort(DataErrorView::DataIntegrity(UNEXPECTED_EVENT@))
    }

    /// The operation begins: a new account's password is hashed before any
    /// transaction is open, every other request begins its transaction.
    pub open spec fn on_created(self, event: EventView) -> (TransactionView, ActionView) {
        match event {
            EventView::Start => match self.request {
                RequestView::CreateUser { password, .. } => (
                    self.at(Stage::Hashing),
                    ActionView::Hash { password },
                ),
                _ => (self.at(Stage::Beginning), ActionView::Begin),
            },
            _ => self.refuse(),
        }
    }

    /// A digest was asked for: of a new account's password, and then the
    /// transaction begins; or of an update's new password, and then the
    /// update is written with it.
    pub open spec fn on_hashing(self, event: EventView) -> (TransactionView, ActionView) {
        match event {
            EventView::Hashed(digest) => match self.request {
                RequestView::CreateUser { .. } => (
                    TransactionView { stage: Stage::Beginning, digest: Some(digest), ..self },
                    ActionView::Begin,
                ),
                RequestView::UpdateUser { id, update } => (
                    self.at(Stage::Writing),
                    ActionView::FetchOne(
                        StatementView::UpdateUser { id, changes: changes_of(update.email, Some(digest)) },
                    ),
                ),
                _ => self.refuse(),
            },
            EventView::HashFailed => self.abort(DataErrorView::Hash),
            EventView::DispatchFailed => self.abort(DataErrorView::SpawnTask),
            _ => self.refuse(),
        }
    }

    /// A transaction was asked for: the request's first statement follows.
    pub open spec fn on_beginning(self, event: EventView) -> (TransactionView, ActionView) {
        match event {
            EventView::Began => match self.request.first_statement(self.digest) {
                Some((stage, action)) => (self.at(stage), action),
                None => self.at(Stage::Reading).refuse(),
            },
            EventView::Failed(failure) => self.abort(DataErrorView::TransactionError(failure)),
            _ => self.refuse(),
        }
    }

    /// Rows were asked for. The row of a request that only reads is held
    /// until the commit; the row read for a password update has its digest
    /// checked against the old password before anything is written.
    pub open spec fn on_reading(self, event: EventView) -> (TransactionView, ActionView) {
        match event {
            EventView::Row(user) => match self.request {
                RequestView::GetUser { .. } | RequestView::VerifyUserPassword { .. } => (
                    TransactionView { stage: Stage::Committing, reply: Some(ReplyView::User(user)), ..self },
                    ActionView::Commit,
                ),
                RequestView::UpdateUser { update, .. } => match update.password {
                    Some(password) => (
                        self.at(Stage::Verifying),
                        ActionView::Verify { password: password.old_password, hash: user.hash },
                    ),
                    None => (
                        TransactionView {
                            stage: Stage::Committing,
                            reply: Some(ReplyView::User(user)),
                            ..self
                        },
                        ActionView::Commit,
                    ),
                },
                _ => self.refuse(),
            },
            EventView::Rows(users) => match self.request {
                RequestView::ListUsers => (
                    TransactionView { stage: Stage::Committing, reply: Some(ReplyView::Users(users)), ..self },
                    ActionView::Commit,
                ),
                _ => self.refuse(),
            },
            EventView::Failed(failure) => self.abort(self.request.read_failure(failure)),
            _ => self.refuse(),
        }
    }

    /// A verdict was asked for: inside the transaction of a password update,
    /// where the new password is hashed once the old one is accepted; or
    /// after the transaction of a password check, which it ends.
    pub open spec fn on_verifying(self, event: EventView) -> (TransactionView, ActionView) {
        match event {
            EventView::Verified => match self.request {
                RequestView::UpdateUser { update, .. } => match update.password {
                    Some(password) => (
                        self.at(Stage::Hashing),
                        ActionView::Hash { password: password.new_password },
                    ),
                    None => self.refuse(),
                },
                RequestView::VerifyUserPassword { .. } => (
                    self.at(Stage::Finished),
                    ActionView::Finish(Ok(ReplyView::Verified)),
                ),
                _ => self.refuse(),
            },
            EventView::Mismatch => self.abort(DataErrorView::Hash),
            EventView::DispatchFailed => self.abort(DataErrorView::SpawnTask),
            _ => self.refuse(),
        }
    }

    /// The row of a statement that writes was asked for: it is held until
    /// the commit.
    pub open spec fn on_writing(self, event: EventView) -> (TransactionView, ActionView) {
        match event {
            EventView::Row(user) => (
                TransactionView { stage: Stage::Committing, reply: Some(ReplyView::User(user)), ..self },
                ActionView::Commit,
            ),
            EventView::Failed(failure) => self.abort(self.request.write_failure(failure)),
            _ => self.refuse(),
        }
    }

    /// The commit was asked for: what was held is returned, but for a
    /// password check, whose row's digest is now checked with no transaction
    /// open. A commit that fails ends the transaction and the operation.
    pub open spec fn on_committing(self, event: EventView) -> (TransactionView, ActionView) {
        match event {
            EventView::Committed => match self.reply {
                Some(reply) => match (self.request, reply) {
                    (RequestView::VerifyUserPassword { password, .. }, ReplyView::User(user)) => (
                        TransactionView { stage: Stage::Verifying, reply: None, ..self },
                        ActionView::Verify { password, hash: user.hash },
                    ),
                    _ => (
                        TransactionView { stage: Stage::Finished, reply: None, ..self },
                        ActionView::Finish(Ok(reply)),
                    ),
                },
                None => self.at(Stage::Finished).refuse(),
            },
            EventView::Failed(failure) => self.at(Stage::Finished).abort(
                DataErrorView::TransactionError(failure),
            ),
            _ => self.refuse(),
        }
    }

    /// The rollback was asked for: whatever is reported, the failure that
    /// caused it is returned.
    pub open spec fn on_rolling_back(self, event: EventView) -> (TransactionView, ActionView) {
        match self.failure {
            Some(failure) => (
                TransactionView { stage: Stage::Finished, failure: None, ..self },
                ActionView::Finish(Err(failure)),
            ),
            None => self.at(Stage::Finished).refuse(),
        }
    }

    /// The next state of an operation and what its driver is asked to do,
    /// from its state and what the driver reports.
    pub open spec fn step(self, event: EventView) -> (TransactionView, ActionView) {
        match self.stage {
            Stage::Created => self.on_created(event),
            Stage::Hashing => self.on_hashing(event),
            Stage::Beginning => self.on_beginning(event),
            Stage::Reading => self.on_reading(event),
            Stage::Verifying => self.on_verifying(event),
            Stage::Writing => self.on_writing(event),
            Stage::Committing => self.on_committing(event),
            Stage::RollingBack => self.on_rolling_back(event),
            Stage::Finished => self.refuse(),
        }
    }
}

} // verus!
