//! The account table as the schema describes it, and the course of an
//! operation against it: what the laws of the repository are stated over.

use crate::credentials::Argon2ConfigView;
use crate::errors::{StorageErrorView, FOREIGN_KEY_VIOLATION, UNIQUE_VIOLATION};
use crate::model::user::UserView;
use crate::repository::user::protocol::{ActionView, EventView, ReplyView, RequestView, TransactionView};
use crate::repository::user::statement::{AssignmentView, Column, StatementView};
use crate::DataErrorView;
use vstd::prelude::*;

verus! {

/// The account table as the schema describes it: the rows by their primary
/// key, with the identifiers that rows of other tables refer to, the
/// timestamp that the next change gets, and the text of the next refusal.
/// While a transaction is open, `working` holds the rows as it sees them.
pub struct Storage {
    pub rows: Map<u128, UserView>,
    pub working: Option<Map<u128, UserView>>,
    pub referenced: Set<u128>,
    pub clock: i64,
    pub message: Seq<char>,
}

/// The workers that hash and verify: the configuration they work under, and
/// the salt that the next hashing draws.
pub struct Workers {
    pub config: Argon2ConfigView,
    pub salt: Seq<char>,
}

/// Whether the rows meet the schema's keys: each row is held under its own
/// identifier, and no two rows hold the same email.
pub open spec fn consistent(rows: Map<u128, UserView>) -> bool {
    &&& forall|id: u128| rows.dom().contains(id) ==> (#[trigger] rows[id]).id == id
    &&& forall|first: u128, second: u128|
        rows.dom().contains(first) && rows.dom().contains(second) && (#[trigger] rows[first]).email == (
        #[trigger] rows[second]).email ==> first == second
}

/// Whether a row other than the one under `id` holds `email`.
pub open spec fn email_taken(rows: Map<u128, UserView>, email: Seq<char>, id: u128) -> bool {
    exists|other: u128| other != id && rows.dom().contains(other) && (#[trigger] rows[other]).email == email
}

/// Whether some row holds `email`.
pub open spec fn email_known(rows: Map<u128, UserView>, email: Seq<char>) -> bool {
    exists|id: u128| rows.dom().contains(id) && (#[trigger] rows[id]).email == email
}

/// A row that holds `email`, where there is one.
pub open spec fn holder_of(rows: Map<u128, UserView>, email: Seq<char>) -> u128 {
    choose|id: u128| rows.dom().contains(id) && (#[trigger] rows[id]).email == email
}

/// Whether `listed` holds every row once, in whatever order.
pub open spec fn is_listing(listed: Seq<UserView>, rows: Map<u128, UserView>) -> bool {
    &&& forall|i: int|
        0 <= i < listed.len() ==> rows.dom().contains((#[trigger] listed[i]).id) && rows[listed[i].id]
            == listed[i]
    &&& forall|i: int, j: int|
        0 <= i < j < listed.len() ==> (#[trigger] listed[i]).id != (#[trigger] listed[j]).id
    &&& forall|id: u128| #[trigger]
        rows.dom().contains(id) ==> exists|i: int| 0 <= i < listed.len() && (#[trigger] listed[i]).id == id
}

/// The rows in the order in which the storage engine lists them.
pub open spec fn listing(rows: Map<u128, UserView>) -> Seq<UserView> {
    choose|listed: Seq<UserView>| is_listing(listed, rows)
}

/// A row after the assignments of an update, the first assignment first.
pub open spec fn assigned(row: UserView, changes: Seq<AssignmentView>) -> UserView
    decreases changes.len(),
{
    if changes.len() == 0 {
        row
    } else {
        let before = assigned(row, changes.drop_last());
        match changes.last().column {
            Column::Email => UserView { email: changes.last().value, ..before },
            Column::Hash => UserView { hash: changes.last().value, ..before },
        }
    }
}

impl Storage {
    /// The refusal of a statement for the constraint with `code`.
    pub open spec fn violation(self, code: Seq<char>) -> StorageErrorView {
        StorageErrorView::Database { code: Some(code), message: self.message }
    }

    /// What a statement does to `rows` and what it returns, in a transaction
    /// of this storage: the rows after it, and its rows or its refusal.
    pub open spec fn execute(self, rows: Map<u128, UserView>, statement: StatementView) -> (
        Map<u128, UserView>,
        Result<Seq<UserView>, StorageErrorView>,
    ) {
        match statement {
            StatementView::SelectUsers => (rows, Ok(listing(rows))),
            StatementView::SelectUser { id } | StatementView::SelectUserForUpdate { id } => if rows.dom().contains(
                id,
            ) {
                (rows, Ok(seq![rows[id]]))
            } else {
                (rows, Ok(Seq::empty()))
            },
            StatementView::SelectUserByEmail { email } => if email_known(rows, email) {
                (rows, Ok(seq![rows[holder_of(rows, email)]]))
            } else {
                (rows, Ok(Seq::empty()))
            },
            StatementView::InsertUser { id, email, hash } => if rows.dom().contains(id) || email_known(
                rows,
                email,
            ) {
                (rows, Err(self.violation(UNIQUE_VIOLATION@)))
            } else {
                let row = UserView {
                    id,
                    email,
                    hash,
                    is_admin: false,
                    created_at: self.clock,
                    updated_at: self.clock,
                };
                (rows.insert(id, row), Ok(seq![row]))
            },
            StatementView::UpdateUser { id, changes } => if !rows.dom().contains(id) {
                (rows, Ok(Seq::empty()))
            } else {
                let row = UserView { updated_at: self.clock, ..assigned(rows[id], changes) };
                if email_taken(rows, row.email, id) {
                    (rows, Err(self.violation(UNIQUE_VIOLATION@)))
                } else {
                    (rows.insert(id, row), Ok(seq![row]))
                }
            },
            StatementView::DeleteUser { id } => if !rows.dom().contains(id) {
                (rows, Ok(Seq::empty()))
            } else if self.referenced.contains(id) {
                (rows, Err(self.violation(FOREIGN_KEY_VIOLATION@)))
            } else {
                (rows.remove(id), Ok(seq![rows[id]]))
            },
        }
    }

    /// What the storage engine and the workers do at an action, and the
    /// event that they report.
    pub open spec fn serve(self, workers: Workers, action: ActionView) -> (Storage, EventView) {
        match action {
            ActionView::Hash { password } => match workers.config.digest(password, workers.salt) {
                Some(digest) => (self, EventView::Hashed(digest)),
                None => (self, EventView::HashFailed),
            },
            ActionView::Verify { password, hash } => if workers.config.verdict(password, hash) is Ok {
                (self, EventView::Verified)
            } else {
                (self, EventView::Mismatch)
            },
            ActionView::Begin => (Storage { working: Some(self.rows), ..self }, EventView::Began),
            ActionView::Commit => match self.working {
                Some(rows) => (Storage { rows, working: None, ..self }, EventView::Committed),
                None => (self, EventView::Failed(StorageErrorView::Other { message: self.message })),
            },
            ActionView::Rollback => (Storage { working: None, ..self }, EventView::RolledBack),
            ActionView::FetchOne(statement) => match self.working {
                Some(rows) => match self.execute(rows, statement) {
                    (after, Ok(returned)) => if returned.len() > 0 {
                        (Storage { working: Some(after), ..self }, EventView::Row(returned[0]))
                    } else {
                        (
                            Storage { working: Some(after), ..self },
                            EventView::Failed(StorageErrorView::RowNotFound),
                        )
                    },
                    (after, Err(refusal)) => (self, EventView::Failed(refusal)),
                },
                None => (self, EventView::Failed(StorageErrorView::Other { message: self.message })),
            },
            ActionView::FetchAll(statement) => match self.working {
                Some(rows) => match self.execute(rows, statement) {
                    (after, Ok(returned)) => (
                        Storage { working: Some(after), ..self },
                        EventView::Rows(returned),
                    ),
                    (after, Err(refusal)) => (self, EventView::Failed(refusal)),
                },
                None => (self, EventView::Failed(StorageErrorView::Other { message: self.message })),
            },
            ActionView::Finish(_) => (self, EventView::Start),
        }
    }

    /// Whether no transaction is open.
    pub open spec fn idle(self) -> bool {
        self.working is None
    }
}

/// The storage after an operation that goes on from `tx` at `event`, and the
/// operation's outcome, where it ends within `fuel` actions.
pub open spec fn run(tx: TransactionView, event: EventView, storage: Storage, workers: Workers, fuel: nat) -> (
    Storage,
    Option<Result<ReplyView, DataErrorView>>,
)
    decreases fuel,
{
    let (next, action) = tx.step(event);
    match action {
        ActionView::Finish(outcome) => (storage, Some(outcome)),
        _ => if fuel == 0 {
            (storage, None)
        } else {
            let (after, answer) = storage.serve(workers, action);
            run(next, answer, after, workers, (fuel - 1) as nat)
        },
    }
}

/// The most actions that an operation asks for before it returns.
pub open spec fn longest_run() -> nat {
    6
}

/// The storage after the operation `request`, and its outcome.
pub open spec fn perform(request: RequestView, storage: Storage, workers: Workers) -> (
    Storage,
    Option<Result<ReplyView, DataErrorView>>,
) {
    run(TransactionView::created(request), EventView::Start, storage, workers, longest_run())
}

} // verus!
