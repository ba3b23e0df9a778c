//! Account records and credentials: the failure taxonomy of the storage
//! engine, keyed password hashing with Argon2, and the repository's
//! operations as transactions that a driver runs step by step against the
//! storage engine and the workers.

pub mod credentials;
pub mod errors;
pub mod identifier;
pub mod model;
pub mod repository;
pub mod text;

use crate::errors::{StorageError, StorageErrorView};
use vstd::prelude::*;

verus! {

/// What a repository operation can fail with.
#[derive(Debug, Clone, PartialEq, Eq)]
pub enum DataError {
    /// No connection to the storage engine could be made.
    ConnectionError(StorageError),
    /// A transaction could not be begun or committed.
    TransactionError(StorageError),
    /// A read statement failed.
    ReadError(StorageError),
    /// A write statement failed.
    WriteError(StorageError),
    /// The driver of an operation reported what cannot follow the step taken.
    DataIntegrity(String),
    /// No row matched.
    NotFound(String),
    /// A row with the same unique value exists.
    AlreadyExists(String),
    /// The row is referenced by other rows and cannot be deleted.
    CannotDeleteReferenced(String),
    /// An argument is out of its range.
    InvalidArgument(String),
    /// A password could not be hashed, or it did not verify.
    Hash,
    /// The work could not be handed to a worker.
    SpawnTask,
}

/// What a [`DataError`] is, with its texts as sequences of characters.
pub enum DataErrorView {
    ConnectionError(StorageErrorView),
    TransactionError(StorageErrorView),
    ReadError(StorageErrorView),
    WriteError(StorageErrorView),
    DataIntegrity(Seq<char>),
    NotFound(Seq<char>),
    AlreadyExists(Seq<char>),
    CannotDeleteReferenced(Seq<char>),
    InvalidArgument(Seq<char>),
    Hash,
    SpawnTask,
}

impl View for DataError {
    type V = DataErrorView;

    open spec fn view(&self) -> DataErrorView {
        match self {
            DataError::ConnectionError(source) => DataErrorView::ConnectionError(source@),
            DataError::TransactionError(source) => DataErrorView::TransactionError(source@),
            DataError::ReadError(source) => DataErrorView::ReadError(source@),
            DataError::WriteError(source) => DataErrorView::WriteError(source@),
            DataError::DataIntegrity(what) => DataErrorView::DataIntegrity(what@),
            DataError::NotFound(what) => DataErrorView::NotFound(what@),
            DataError::AlreadyExists(what) => DataErrorView::AlreadyExists(what@),
            DataError::CannotDeleteReferenced(what) => DataErrorView::CannotDeleteReferenced(what@),
            DataError::InvalidArgument(what) => DataErrorView::InvalidArgument(what@),
            DataError::Hash => DataErrorView::Hash,
            DataError::SpawnTask => DataErrorView::SpawnTask,
        }
    }
}

impl DataErrorView {
    /// What the error says before its detail.
    pub open spec fn headline(self) -> Seq<char> {
        match self {
            DataErrorView::ConnectionError(_) => "Failed to connect to PostgreSQL: "@,
            DataErrorView::TransactionError(_) => "Transaction failed: "@,
            DataErrorView::ReadError(_) => "Reading from DB failed: "@,
            DataErrorView::WriteError(_) => "Writing to DB failed: "@,
            DataErrorView::DataIntegrity(_) => "Data integrity error: "@,
            DataErrorView::NotFound(_) => "Data not found: "@,
            DataErrorView::AlreadyExists(_) => "Entity already exists: "@,
            DataErrorView::CannotDeleteReferenced(_) => "Cannot delete entity \""@,
            DataErrorView::InvalidArgument(_) => "Invalid argument: "@,
            DataErrorView::Hash => "Can't save password"@,
            DataErrorView::SpawnTask => "Can't hand the password to a worker"@,
        }
    }

    /// The detail of the error: the text of the failure or of what it names.
    pub open spec fn detail(self) -> Seq<char> {
        match self {
            DataErrorView::ConnectionError(source) => source.message(),
            DataErrorView::TransactionError(source) => source.message(),
            DataErrorView::ReadError(source) => source.message(),
            DataErrorView::WriteError(source) => source.message(),
            DataErrorView::DataIntegrity(what) => what,
            DataErrorView::NotFound(what) => what,
            DataErrorView::AlreadyExists(what) => what,
            DataErrorView::CannotDeleteReferenced(what) => what,
            DataErrorView::InvalidArgument(what) => what,
            DataErrorView::Hash => Seq::empty(),
            DataErrorView::SpawnTask => Seq::empty(),
        }
    }

    /// What follows the detail.
    pub open spec fn ending(self) -> Seq<char> {
        match self {
            DataErrorView::CannotDeleteReferenced(_) => "\" with active references to it"@,
            _ => Seq::empty(),
        }
    }

    /// The error's text: its headline, its detail and its ending.
    pub open spec fn message(self) -> Seq<char> {
        self.headline() + self.detail() + self.ending()
    }
}

impl DataError {
    /// The error's text.
    pub fn message(&self) -> (text: String)
        ensures
            text@ == self@.message(),
    {
        let mut text = String::new();
        match self {
            DataError::ConnectionError(source) => {
                text.append("Failed to connect to PostgreSQL: ");
                text.append(source.message().as_str());
            },
            DataError::TransactionError(source) => {
                text.append("Transaction failed: ");
                text.append(source.message().as_str());
            },
            DataError::ReadError(source) => {
                text.append("Reading from DB failed: ");
                text.append(source.message().as_str());
            },
            DataError::WriteError(source) => {
                text.append("Writing to DB failed: ");
                text.append(source.message().as_str());
            },
            DataError::DataIntegrity(what) => {
                text.append("Data integrity error: ");
                text.append(what.as_str());
            },
            DataError::NotFound(what) => {
                text.append("Data not found: ");
                text.append(what.as_str());
            },
            DataError::AlreadyExists(what) => {
                text.append("Entity already exists: ");
                text.append(what.as_str());
            },
            DataError::CannotDeleteReferenced(what) => {
                text.append("Cannot delete entity \"");
                text.append(what.as_str());
                text.append("\" with active references to it");
            },
            DataError::InvalidArgument(what) => {
                text.append("Invalid argument: ");
                text.append(what.as_str());
            },
            DataError::Hash => {
                text.append("Can't save password");
            },
            DataError::SpawnTask => {
                text.append("Can't hand the password to a worker");
            },
        }
        assert(text@ =~= self@.message());
        text
    }
}

} // verus!
