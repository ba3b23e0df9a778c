//! The failure taxonomy: what the storage engine reports, and the kind that
//! its constraint code stands for.

use crate::text::same_text;
use vstd::prelude::*;

verus! {

/// SQLSTATE of a not-null constraint violation.
pub const NOT_NULL_VIOLATION: &'static str = "23502";

/// SQLSTATE of a foreign-key constraint violation.
pub const FOREIGN_KEY_VIOLATION: &'static str = "23503";

/// SQLSTATE of a unique constraint violation.
pub const UNIQUE_VIOLATION: &'static str = "23505";

/// SQLSTATE of a check constraint violation.
pub const CHECK_VIOLATION: &'static str = "23514";

/// SQLSTATE raised when the session lacks the privilege for a statement.
pub const INSUFFICIENT_PRIVILEGE: &'static str = "42501";

/// The domain's vocabulary for a storage failure.
#[derive(Clone, Copy, Debug, PartialEq, Eq, Structural)]
pub enum ErrorKindExt {
    UniqueViolation,
    ForeignKeyViolation,
    NotNullViolation,
    CheckViolation,
    InsufficientPrivilege,
    Other,
}

/// The kind that a constraint code stands for: an exact match against the
/// five known codes, and `Other` for every other text.
pub open spec fn kind_of_sqlstate(code: Seq<char>) -> ErrorKindExt {
    if code == NOT_NULL_VIOLATION@ {
        ErrorKindExt::NotNullViolation
    } else if code == FOREIGN_KEY_VIOLATION@ {
        ErrorKindExt::ForeignKeyViolation
    } else if code == UNIQUE_VIOLATION@ {
        ErrorKindExt::UniqueViolation
    } else if code == CHECK_VIOLATION@ {
        ErrorKindExt::CheckViolation
    } else if code == INSUFFICIENT_PRIVILEGE@ {
        ErrorKindExt::InsufficientPrivilege
    } else {
        ErrorKindExt::Other
    }
}

/// The kind of a failure that carries `code`, or no code at all.
pub open spec fn kind_of_code(code: Option<Seq<char>>) -> ErrorKindExt {
    match code {
        Some(text) => kind_of_sqlstate(text),
        None => ErrorKindExt::Other,
    }
}

/// Each of the five known codes stands for its own kind.
pub proof fn lemma_known_codes()
    ensures
        kind_of_sqlstate(NOT_NULL_VIOLATION@) == ErrorKindExt::NotNullViolation,
        kind_of_sqlstate(FOREIGN_KEY_VIOLATION@) == ErrorKindExt::ForeignKeyViolation,
        kind_of_sqlstate(UNIQUE_VIOLATION@) == ErrorKindExt::UniqueViolation,
        kind_of_sqlstate(CHECK_VIOLATION@) == ErrorKindExt::CheckViolation,
        kind_of_sqlstate(INSUFFICIENT_PRIVILEGE@) == ErrorKindExt::InsufficientPrivilege,
{
    reveal_strlit("23502");
    reveal_strlit("23503");
    reveal_strlit("23505");
    reveal_strlit("23514");
    reveal_strlit("42501");
    assert(NOT_NULL_VIOLATION@[4] == '2');
    assert(FOREIGN_KEY_VIOLATION@[4] == '3');
    assert(UNIQUE_VIOLATION@[4] == '5');
    assert(CHECK_VIOLATION@[3] == '1');
    assert(INSUFFICIENT_PRIVILEGE@[0] == '4');
}

/// A code other than the five known ones, and a failure without a code, are
/// of the kind `Other`: every failure has exactly one kind.
pub proof fn law_unknown_codes_are_other(code: Option<Seq<char>>)
    requires
        code matches Some(text) ==> text != NOT_NULL_VIOLATION@ && text != FOREIGN_KEY_VIOLATION@ && text
            != UNIQUE_VIOLATION@ && text != CHECK_VIOLATION@ && text != INSUFFICIENT_PRIVILEGE@,
    ensures
        kind_of_code(code) == ErrorKindExt::Other,
{
}

/// Classifies a constraint code.
pub fn classify_sqlstate(code: &str) -> (kind: ErrorKindExt)
    ensures
        kind == kind_of_sqlstate(code@),
{
    if same_text(code, NOT_NULL_VIOLATION) {
        ErrorKindExt::NotNullViolation
    } else if same_text(code, FOREIGN_KEY_VIOLATION) {
        ErrorKindExt::ForeignKeyViolation
    } else if same_text(code, UNIQUE_VIOLATION) {
        ErrorKindExt::UniqueViolation
    } else if same_text(code, CHECK_VIOLATION) {
        ErrorKindExt::CheckViolation
    } else if same_text(code, INSUFFICIENT_PRIVILEGE) {
        ErrorKindExt::InsufficientPrivilege
    } else {
        ErrorKindExt::Other
    }
}

/// `sqlx::Error`, carried as it is: verified code reads nothing inside it.
#[verifier::external_type_specification]
#[verifier::external_body]
pub struct ExSqlxError(sqlx::Error);

/// A failure reported by the storage engine, as far as the repository reads
/// it: whether it says that no row matched, which constraint code it carries,
/// and its message.
#[derive(Debug, Clone, PartialEq, Eq)]
pub enum StorageError {
    /// A statement that must return a row returned none.
    RowNotFound,
    /// The database refused the statement.
    Database { code: Option<String>, message: String },
    /// Any other failure, such as a lost connection.
    Other { message: String },
}

/// What a [`StorageError`] is, with its texts as sequences of characters.
pub enum StorageErrorView {
    RowNotFound,
    Database { code: Option<Seq<char>>, message: Seq<char> },
    Other { message: Seq<char> },
}

impl View for StorageError {
    type V = StorageErrorView;

    open spec fn view(&self) -> StorageErrorView {
        match self {
            StorageError::RowNotFound => StorageErrorView::RowNotFound,
            StorageError::Database { code, message } => StorageErrorView::Database {
                code: match code {
                    Some(text) => Some(text@),
                    None => None,
                },
                message: message@,
            },
            StorageError::Other { message } => StorageErrorView::Other { message: message@ },
        }
    }
}

/// What a failure without a row says of itself.
pub const NO_ROWS_RETURNED: &'static str =
    "no rows returned by a query that expected to return at least one row";

impl StorageErrorView {
    /// The failure's text.
    pub open spec fn message(self) -> Seq<char> {
        match self {
            StorageErrorView::RowNotFound => NO_ROWS_RETURNED@,
            StorageErrorView::Database { message, .. } => message,
            StorageErrorView::Other { message } => message,
        }
    }

    /// The constraint code that the failure carries, if it carries one.
    pub open spec fn code(self) -> Option<Seq<char>> {
        match self {
            StorageErrorView::Database { code, .. } => code,
            _ => None,
        }
    }

    /// The kind of the failure.
    pub open spec fn kind(self) -> ErrorKindExt {
        kind_of_code(self.code())
    }
}

impl StorageError {
    /// The failure's text.
    pub fn message(&self) -> (text: String)
        ensures
            text@ == self@.message(),
    {
        match self {
            StorageError::RowNotFound => NO_ROWS_RETURNED.to_owned(),
            StorageError::Database { message, .. } => message.clone(),
            StorageError::Other { message } => message.clone(),
        }
    }
}

/// Translation of a storage failure into the domain's vocabulary.
pub trait ErrorExt {
    /// The constraint code that the failure carries, if it carries one.
    spec fn constraint_code(&self) -> Option<Seq<char>>;

    /// The kind of the failure: that of its constraint code, and `Other`
    /// where it carries none.
    fn kind_ext(&self) -> (kind: ErrorKindExt)
        ensures
            kind == kind_of_code(self.constraint_code()),
    ;
}

impl ErrorExt for StorageError {
    open spec fn constraint_code(&self) -> Option<Seq<char>> {
        self@.code()
    }

    fn kind_ext(&self) -> (kind: ErrorKindExt) {
        match self {
            StorageError::Database { code: Some(text), .. } => classify_sqlstate(text.as_str()),
            _ => ErrorKindExt::Other,
        }
    }
}

/// The SQLSTATE that an error of sqlx carries: that of a database error
/// that has one, and nothing for every other error.
pub uninterp spec fn sqlx_sqlstate(err: sqlx::Error) -> Option<Seq<char>>;

/// `sqlx::Error::as_database_error` and `DatabaseError::code`: the code of
/// the database error that `err` holds, where it holds one that has a code.
/// The result is a function of the error, named [`sqlx_sqlstate`].
#[verifier::external_body]
fn sqlstate(err: &sqlx::Error) -> (code: Option<String>)
    ensures
        code.deep_view() == sqlx_sqlstate(*err),
{
    err.as_database_error().and_then(|db| db.code()).map(|code| code.into_owned())
}

impl ErrorExt for sqlx::Error {
    open spec fn constraint_code(&self) -> Option<Seq<char>> {
        sqlx_sqlstate(*self)
    }

    fn kind_ext(&self) -> (kind: ErrorKindExt) {
        match sqlstate(self) {
            Some(code) => classify_sqlstate(code.as_str()),
            None => ErrorKindExt::Other,
        }
    }
}

} // verus!
