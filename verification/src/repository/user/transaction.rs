//! An operation in progress, which takes the steps of the protocol.

use crate::errors::{ErrorExt, ErrorKindExt, StorageError};
use crate::identifier::hyphenated;
use crate::repository::user::protocol::{
    changes_of, Action, Event, Reply, Request, Stage, TransactionView, UNEXPECTED_EVENT,
};
use crate::repository::user::statement::{Assignment, Column, Statement};
use crate::{DataError, DataErrorView};
use vstd::prelude::*;

verus! {

/// An operation of the repository in progress. Its driver hands every event
/// to [`Transaction::step`] and does what comes back, until that is
/// `Action::Finish`.
#[derive(Debug)]
pub struct Transaction {
    request: Request,
    stage: Stage,
    digest: Option<String>,
    reply: Option<Reply>,
    failure: Option<DataError>,
}

impl View for Transaction {
    type V = TransactionView;

    closed spec fn view(&self) -> TransactionView {
        TransactionView {
            request: self.request@,
            stage: self.stage,
            digest: self.digest.deep_view(),
            reply: match self.reply {
                Some(reply) => Some(reply@),
                None => None,
            },
            failure: match self.failure {
                Some(failure) => Some(failure@),
                None => None,
            },
        }
    }
}

/// The assignments of a partial update: see [`changes_of`].
pub fn changes(email: Option<String>, hash: Option<String>) -> (changes: Vec<Assignment>)
    ensures
        changes.deep_view() == changes_of(email.deep_view(), hash.deep_view()),
{
    let mut changes: Vec<Assignment> = Vec::new();
    if let Some(value) = email {
        changes.push(Assignment { column: Column::Email, value });
    }
    if let Some(value) = hash {
        changes.push(Assignment { column: Column::Hash, value });
    }
    assert(changes.deep_view() =~= changes_of(email.deep_view(), hash.deep_view()));
    changes
}

impl Transaction {
    /// The state of a request of which nothing was done yet.
    pub fn new(request: Request) -> (tx: Transaction)
        ensures
            tx@ == TransactionView::created(request@),
    {
        Transaction { request, stage: Stage::Created, digest: None, reply: None, failure: None }
    }

    /// What the driver was last asked for.
    pub fn stage(&self) -> (stage: Stage)
        ensures
            stage == self@.stage,
    {
        self.stage
    }

    /// Whether the outcome was returned.
    pub fn is_finished(&self) -> (finished: bool)
        ensures
            finished == (self@.stage == Stage::Finished),
    {
        self.stage == Stage::Finished
    }

    /// Whether a transaction is open on the storage engine.
    pub fn in_transaction(&self) -> (open: bool)
        ensures
            open == self@.in_transaction(),
    {
        match self.stage {
            Stage::Created | Stage::Beginning | Stage::Finished => false,
            Stage::Hashing | Stage::Verifying => match &self.request {
                Request::UpdateUser { .. } => true,
                _ => false,
            },
            Stage::Reading | Stage::Writing | Stage::Committing | Stage::RollingBack => true,
        }
    }

    fn at(self, stage: Stage) -> (tx: Transaction)
        ensures
            tx@ == self@.at(stage),
    {
        Transaction { stage, ..self }
    }

    fn holding(self, reply: Reply) -> (tx: Transaction)
        ensures
            tx@ == (TransactionView { stage: Stage::Committing, reply: Some(reply@), ..self@ }),
    {
        Transaction { stage: Stage::Committing, reply: Some(reply), ..self }
    }

    fn abort(self, failure: DataError) -> (res: (Transaction, Action))
        ensures
            (res.0@, res.1@) == self@.abort(failure@),
    {
        if self.in_transaction() {
            (Transaction { stage: Stage::RollingBack, failure: Some(failure), ..self }, Action::Rollback)
        } else {
            (self.at(Stage::Finished), Action::Finish(Err(failure)))
        }
    }

    fn refuse(self) -> (res: (Transaction, Action))
        ensures
            (res.0@, res.1@) == self@.refuse(),
    {
        self.abort(DataError::DataIntegrity(UNEXPECTED_EVENT.to_owned()))
    }

    fn subject(&self) -> (subject: Option<String>)
        ensures
            subject.deep_view() == self@.request.subject(),
    {
        match &self.request {
            Request::GetUser { id } => Some(hyphenated(*id)),
            Request::UpdateUser { id, .. } => Some(hyphenated(*id)),
            Request::DeleteUser { id } => Some(hyphenated(*id)),
            Request::VerifyUserPassword { email, .. } => Some(email.clone()),
            Request::ListUsers => None,
            Request::CreateUser { .. } => None,
        }
    }

    fn missing(&self, failure: &StorageError) -> (error: Option<DataError>)
        ensures
            match error {
                Some(error) => failure@ is RowNotFound && self@.request.subject() is Some && error@
                    == DataErrorView::NotFound(self@.request.subject()->0),
                None => !(failure@ is RowNotFound && self@.request.subject() is Some),
            },
    {
        match failure {
            StorageError::RowNotFound => match self.subject() {
                Some(subject) => Some(DataError::NotFound(subject)),
                None => None,
            },
            _ => None,
        }
    }

    fn read_failure(&self, failure: StorageError) -> (error: DataError)
        ensures
            error@ == self@.request.read_failure(failure@),
    {
        match self.missing(&failure) {
            Some(error) => error,
            None => DataError::ReadError(failure),
        }
    }

    fn write_failure(&self, failure: StorageError) -> (error: DataError)
        ensures
            error@ == self@.request.write_failure(failure@),
    {
        match self.missing(&failure) {
            Some(error) => error,
            None => {
                let kind = failure.kind_ext();
                match &self.request {
                    Request::CreateUser { email, .. } => {
                        if kind == ErrorKindExt::UniqueViolation {
                            DataError::AlreadyExists(email.clone())
                        } else {
                            DataError::WriteError(failure)
                        }
                    },
                    Request::DeleteUser { id } => {
                        if kind == ErrorKindExt::ForeignKeyViolation {
                            DataError::CannotDeleteReferenced(hyphenated(*id))
                        } else {
                            DataError::WriteError(failure)
                        }
                    },
                    _ => DataError::WriteError(failure),
                }
            },
        }
    }

    fn first_statement(&self) -> (first: Option<(Stage, Action)>)
        ensures
            match first {
                Some((stage, action)) => self@.request.first_statement(self@.digest) == Some((stage, action@)),
                None => self@.request.first_statement(self@.digest) is None,
            },
    {
        match &self.request {
            Request::GetUser { id } => Some((Stage::Reading, Action::FetchOne(Statement::SelectUser { id: *id }))),
            Request::ListUsers => Some((Stage::Reading, Action::FetchAll(Statement::SelectUsers))),
            Request::CreateUser { id, email, .. } => match &self.digest {
                Some(hash) => Some(
                    (
                        Stage::Writing,
                        Action::FetchOne(
                            Statement::InsertUser { id: *id, email: email.clone(), hash: hash.clone() },
                        ),
                    ),
                ),
                None => None,
            },
            Request::UpdateUser { id, update } => {
                if update.password.is_some() {
                    Some((Stage::Reading, Action::FetchOne(Statement::SelectUserForUpdate { id: *id })))
                } else {
                    match &update.email {
                        Some(email) => Some(
                            (
                                Stage::Writing,
                                Action::FetchOne(
                                    Statement::UpdateUser { id: *id, changes: changes(Some(email.clone()), None) },
                                ),
                            ),
                        ),
                        None => Some((Stage::Reading, Action::FetchOne(Statement::SelectUser { id: *id }))),
                    }
                }
            },
            Request::DeleteUser { id } => Some(
                (Stage::Writing, Action::FetchOne(Statement::DeleteUser { id: *id })),
            ),
            Request::VerifyUserPassword { email, .. } => Some(
                (Stage::Reading, Action::FetchOne(Statement::SelectUserByEmail { email: email.clone() })),
            ),
        }
    }

    fn on_created(self, event: Event) -> (res: (Transaction, Action))
        ensures
            (res.0@, res.1@) == self@.on_created(event@),
    {
        match event {
            Event::Start => {
                let password = match &self.request {
                    Request::CreateUser { password, .. } => Some(password.clone()),
                    _ => None,
                };
                match password {
                    Some(password) => (self.at(Stage::Hashing), Action::Hash { password }),
                    None => (self.at(Stage::Beginning), Action::Begin),
                }
            },
            _ => self.refuse(),
        }
    }

    fn on_hashing(self, event: Event) -> (res: (Transaction, Action))
        ensures
            (res.0@, res.1@) == self@.on_hashing(event@),
    {
        match event {
            Event::Hashed(digest) => {
                let update = match &self.request {
                    Request::UpdateUser { id, update } => Some(
                        (*id, match &update.email {
                            Some(email) => Some(email.clone()),
                            None => None,
                        }),
                    ),
                    _ => None,
                };
                let creates = match &self.request {
                    Request::CreateUser { .. } => true,
                    _ => false,
                };
                if creates {
                    (Transaction { stage: Stage::Beginning, digest: Some(digest), ..self }, Action::Begin)
                } else {
                    match update {
                        Some((id, email)) => (
                            self.at(Stage::Writing),
                            Action::FetchOne(Statement::UpdateUser { id, changes: changes(email, Some(digest)) }),
                        ),
                        None => self.refuse(),
                    }
                }
            },
            Event::HashFailed => self.abort(DataError::Hash),
            Event::DispatchFailed => self.abort(DataError::SpawnTask),
            _ => self.refuse(),
        }
    }

    fn on_beginning(self, event: Event) -> (res: (Transaction, Action))
        ensures
            (res.0@, res.1@) == self@.on_beginning(event@),
    {
        match event {
            Event::Began => match self.first_statement() {
                Some((stage, action)) => (self.at(stage), action),
                None => self.at(Stage::Reading).refuse(),
            },
            Event::Failed(failure) => self.abort(DataError::TransactionError(failure)),
            _ => self.refuse(),
        }
    }

    fn on_reading(self, event: Event) -> (res: (Transaction, Action))
        ensures
            (res.0@, res.1@) == self@.on_reading(event@),
    {
        match event {
            Event::Row(user) => {
                let old_password = match &self.request {
                    Request::UpdateUser { update, .. } => match &update.password {
                        Some(password) => Some(password.old_password.clone()),
                        None => None,
                    },
                    _ => None,
                };
                let holds = match &self.request {
                    Request::GetUser { .. } | Request::VerifyUserPassword { .. } | Request::UpdateUser { .. } => true,
                    _ => false,
                };
                match old_password {
                    Some(password) => (self.at(Stage::Verifying), Action::Verify { password, hash: user.hash }),
                    None => {
                        if holds {
                            (self.holding(Reply::User(user)), Action::Commit)
                        } else {
                            self.refuse()
                        }
                    },
                }
            },
            Event::Rows(users) => {
                let lists = match &self.request {
                    Request::ListUsers => true,
                    _ => false,
                };
                if lists {
                    (self.holding(Reply::Users(users)), Action::Commit)
                } else {
                    self.refuse()
                }
            },
            Event::Failed(failure) => {
                let error = self.read_failure(failure);
                self.abort(error)
            },
            _ => self.refuse(),
        }
    }

    fn on_verifying(self, event: Event) -> (res: (Transaction, Action))
        ensures
            (res.0@, res.1@) == self@.on_verifying(event@),
    {
        match event {
            Event::Verified => {
                let new_password = match &self.request {
                    Request::UpdateUser { update, .. } => match &update.password {
                        Some(password) => Some(password.new_password.clone()),
                        None => None,
                    },
                    _ => None,
                };
                let checks = match &self.request {
                    Request::VerifyUserPassword { .. } => true,
                    _ => false,
                };
                match new_password {
                    Some(password) => (self.at(Stage::Hashing), Action::Hash { password }),
                    None => {
                        if checks {
                            (self.at(Stage::Finished), Action::Finish(Ok(Reply::Verified)))
                        } else {
                            self.refuse()
                        }
                    },
                }
            },
            Event::Mismatch => self.abort(DataError::Hash),
            Event::DispatchFailed => self.abort(DataError::SpawnTask),
            _ => self.refuse(),
        }
    }

    fn on_writing(self, event: Event) -> (res: (Transaction, Action))
        ensures
            (res.0@, res.1@) == self@.on_writing(event@),
    {
        match event {
            Event::Row(user) => (self.holding(Reply::User(user)), Action::Commit),
            Event::Failed(failure) => {
                let error = self.write_failure(failure);
                self.abort(error)
            },
            _ => self.refuse(),
        }
    }

    fn on_committing(self, event: Event) -> (res: (Transaction, Action))
        ensures
            (res.0@, res.1@) == self@.on_committing(event@),
    {
        match event {
            Event::Committed => {
                let Transaction { request, stage, digest, reply, failure } = self;
                match reply {
                    Some(reply) => {
                        let password = match &request {
                            Request::VerifyUserPassword { password, .. } => Some(password.clone()),
                            _ => None,
                        };
                        match (password, reply) {
                            (Some(password), Reply::User(user)) => (
                                Transaction { request, stage: Stage::Verifying, digest, reply: None, failure },
                                Action::Verify { password, hash: user.hash },
                            ),
                            (_, reply) => (
                                Transaction { request, stage: Stage::Finished, digest, reply: None, failure },
                                Action::Finish(Ok(reply)),
                            ),
                        }
                    },
                    None => (Transaction { request, stage: Stage::Finished, digest, reply: None, failure }).refuse(),
                }
            },
            Event::Failed(failure) => self.at(Stage::Finished).abort(DataError::TransactionError(failure)),
            _ => self.refuse(),
        }
    }

    fn on_rolling_back(self, event: Event) -> (res: (Transaction, Action))
        ensures
            (res.0@, res.1@) == self@.on_rolling_back(event@),
    {
        let Transaction { request, stage, digest, reply, failure } = self;
        match failure {
            Some(failure) => (
                Transaction { request, stage: Stage::Finished, digest, reply, failure: None },
                Action::Finish(Err(failure)),
            ),
            None => (Transaction { request, stage: Stage::Finished, digest, reply, failure: None }).refuse(),
        }
    }

    /// The next state of the operation and what its driver is to do, from
    /// what the driver reports.
    pub fn step(self, event: Event) -> (res: (Transaction, Action))
        ensures
            (res.0@, res.1@) == self@.step(event@),
    {
        match self.stage {
            Stage::Created => self.on_created(event),
            Stage::Hashing => self.on_hashing(event),
            Stage::Beginning => self.on_beginning(event),
            Stage::Reading => self.on_reading(event),
            Stage::Verifying => self.on_verifying(event),
            Stage::Writing => self.on_writing(event),
            Stage::Committing => self.on_committing(event),
            Stage::RollingBack => self.on_rolling_back(event),
            Stage::Finished => self.refuse(),
        }
    }
}

} // verus!
