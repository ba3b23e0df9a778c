//! What holds of the repository's operations: of each step of the protocol,
//! and of whole operations against the account table.

use crate::errors::{lemma_known_codes, StorageErrorView, FOREIGN_KEY_VIOLATION, UNIQUE_VIOLATION};
use crate::identifier::hyphenated_text;
use crate::model::user::{PasswordUpdateView, UpdateUserView, UserView};
use crate::repository::user::protocol::{
    changes_of, ActionView, EventView, ReplyView, RequestView, Stage, TransactionView,
};
use crate::repository::user::statement::{AssignmentView, Column, StatementView};
use crate::repository::user::table::{
    assigned, consistent, email_known, email_taken, holder_of, is_listing, listing, longest_run, perform, run,
    Storage, Workers,
};
use crate::DataErrorView;
use vstd::prelude::*;

verus! {

/// Listing an empty table returns an empty sequence, without an error, and
/// leaves the storage as it was.
pub proof fn law_list_of_empty_table(storage: Storage, workers: Workers)
    requires
        storage.idle(),
        storage.rows == Map::<u128, UserView>::empty(),
    ensures
        perform(RequestView::ListUsers, storage, workers) == (
            storage,
            Some(Ok::<ReplyView, DataErrorView>(ReplyView::Users(Seq::empty()))),
        ),
{
    reveal_with_fuel(run, 5);
    let rows = Map::<u128, UserView>::empty();
    assert(is_listing(Seq::<UserView>::empty(), rows));
    let listed = listing(rows);
    assert(is_listing(listed, rows));
    if listed.len() > 0 {
        assert(rows.dom().contains(listed[0].id));
    }
    assert(listed =~= Seq::<UserView>::empty());
    let committed = Storage { rows, working: None, ..storage };
    assert(committed.rows =~= storage.rows);
    assert(committed == storage);
}

/// Fetching an account that exists returns its row and leaves the storage
/// as it was.
pub proof fn law_get_returns_the_row(storage: Storage, workers: Workers, id: u128)
    requires
        storage.idle(),
        storage.rows.dom().contains(id),
    ensures
        perform(RequestView::GetUser { id }, storage, workers) == (
            storage,
            Some(Ok::<ReplyView, DataErrorView>(ReplyView::User(storage.rows[id]))),
        ),
{
    reveal_with_fuel(run, 5);
    let committed = Storage { rows: storage.rows, working: None, ..storage };
    assert(committed == storage);
}

/// Fetching an account that does not exist fails with `NotFound`, which
/// names the identifier, and leaves the storage as it was.
pub proof fn law_get_of_a_missing_user(storage: Storage, workers: Workers, id: u128)
    requires
        storage.idle(),
        !storage.rows.dom().contains(id),
    ensures
        perform(RequestView::GetUser { id }, storage, workers) == (
            storage,
            Some(Err::<ReplyView, DataErrorView>(DataErrorView::NotFound(hyphenated_text(id)))),
        ),
{
    reveal_with_fuel(run, 5);
    let rolled_back = Storage { working: None, ..storage };
    assert(rolled_back == storage);
}

/// Deleting an account that exists and that nothing refers to returns the
/// row that was removed; the storage holds every other row as before, and
/// fetching the account then fails with `NotFound`.
pub proof fn law_deleted_user_is_gone(storage: Storage, workers: Workers, id: u128)
    requires
        storage.idle(),
        storage.rows.dom().contains(id),
        !storage.referenced.contains(id),
    ensures
        ({
            let (after, outcome) = perform(RequestView::DeleteUser { id }, storage, workers);
            &&& outcome == Some(Ok::<ReplyView, DataErrorView>(ReplyView::User(storage.rows[id])))
            &&& after == Storage { rows: storage.rows.remove(id), ..storage }
            &&& perform(RequestView::GetUser { id }, after, workers) == (
                after,
                Some(Err::<ReplyView, DataErrorView>(DataErrorView::NotFound(hyphenated_text(id)))),
            )
        }),
{
    reveal_with_fuel(run, 5);
    let after = Storage { rows: storage.rows.remove(id), ..storage };
    law_get_of_a_missing_user(after, workers, id);
}

/// Deleting an account that rows of other tables refer to fails with
/// `CannotDeleteReferenced`, which names the identifier, and leaves the
/// storage as it was.
pub proof fn law_referenced_user_is_not_deleted(storage: Storage, workers: Workers, id: u128)
    requires
        storage.idle(),
        storage.rows.dom().contains(id),
        storage.referenced.contains(id),
    ensures
        perform(RequestView::DeleteUser { id }, storage, workers) == (
            storage,
            Some(Err::<ReplyView, DataErrorView>(DataErrorView::CannotDeleteReferenced(hyphenated_text(id)))),
        ),
{
    reveal_with_fuel(run, 5);
    lemma_known_codes();
    let rolled_back = Storage { working: None, ..storage };
    assert(rolled_back == storage);
}

/// Deleting an account that does not exist fails with `NotFound`.
pub proof fn law_delete_of_a_missing_user(storage: Storage, workers: Workers, id: u128)
    requires
        storage.idle(),
        !storage.rows.dom().contains(id),
    ensures
        perform(RequestView::DeleteUser { id }, storage, workers) == (
            storage,
            Some(Err::<ReplyView, DataErrorView>(DataErrorView::NotFound(hyphenated_text(id)))),
        ),
{
    reveal_with_fuel(run, 5);
    let rolled_back = Storage { working: None, ..storage };
    assert(rolled_back == storage);
}

/// The row that a new account is stored as.
pub open spec fn created_row(storage: Storage, id: u128, email: Seq<char>, hash: Seq<char>) -> UserView {
    UserView { id, email, hash, is_admin: false, created_at: storage.clock, updated_at: storage.clock }
}

/// Creating an account whose identifier and email no row holds stores and
/// returns a row with that email and with the digest that the workers
/// derived from the password as its hash, and fetching the returned
/// identifier then yields the same row.
pub proof fn law_created_user_is_fetched(
    storage: Storage,
    workers: Workers,
    id: u128,
    email: Seq<char>,
    password: Seq<char>,
)
    requires
        storage.idle(),
        !storage.rows.dom().contains(id),
        !email_known(storage.rows, email),
        workers.config.digest(password, workers.salt) is Some,
    ensures
        ({
            let digest = workers.config.digest(password, workers.salt)->0;
            let row = created_row(storage, id, email, digest);
            let (after, outcome) = perform(RequestView::CreateUser { id, email, password }, storage, workers);
            &&& outcome == Some(Ok::<ReplyView, DataErrorView>(ReplyView::User(row)))
            &&& after == Storage { rows: storage.rows.insert(id, row), ..storage }
            &&& perform(RequestView::GetUser { id }, after, workers) == (
                after,
                Some(Ok::<ReplyView, DataErrorView>(ReplyView::User(row))),
            )
        }),
{
    reveal_with_fuel(run, 6);
    let digest = workers.config.digest(password, workers.salt)->0;
    let row = created_row(storage, id, email, digest);
    let after = Storage { rows: storage.rows.insert(id, row), ..storage };
    law_get_returns_the_row(after, workers, id);
}

/// An account created with a password passes the check of that password,
/// where the digest that the workers derived verifies against it, as every
/// digest does that `hash_password` returns; the check changes nothing.
pub proof fn law_created_user_passes_the_password_check(
    storage: Storage,
    workers: Workers,
    id: u128,
    email: Seq<char>,
    password: Seq<char>,
)
    requires
        storage.idle(),
        consistent(storage.rows),
        !storage.rows.dom().contains(id),
        !email_known(storage.rows, email),
        workers.config.digest(password, workers.salt) matches Some(digest) && workers.config.verdict(
            password,
            digest,
        ) is Ok,
    ensures
        ({
            let after = perform(RequestView::CreateUser { id, email, password }, storage, workers).0;
            perform(RequestView::VerifyUserPassword { email, password }, after, workers) == (
                after,
                Some(Ok::<ReplyView, DataErrorView>(ReplyView::Verified)),
            )
        }),
{
    law_created_user_is_fetched(storage, workers, id, email, password);
    law_rows_stay_consistent(RequestView::CreateUser { id, email, password }, storage, workers);
    let after = perform(RequestView::CreateUser { id, email, password }, storage, workers).0;
    assert(after.rows.dom().contains(id) && after.rows[id].email == email);
    assert(email_known(after.rows, email));
    assert(holder_of(after.rows, email) == id);
    reveal_with_fuel(run, 6);
    let committed = Storage { rows: after.rows, working: None, ..after };
    assert(committed == after);
}

/// Checking a password against an email that no row holds fails with
/// `NotFound`, which names the email.
pub proof fn law_password_check_of_an_unknown_email(
    storage: Storage,
    workers: Workers,
    email: Seq<char>,
    password: Seq<char>,
)
    requires
        storage.idle(),
        !email_known(storage.rows, email),
    ensures
        perform(RequestView::VerifyUserPassword { email, password }, storage, workers) == (
            storage,
            Some(Err::<ReplyView, DataErrorView>(DataErrorView::NotFound(email))),
        ),
{
    reveal_with_fuel(run, 5);
    let rolled_back = Storage { working: None, ..storage };
    assert(rolled_back == storage);
}

/// Creating an account fails with a hashing failure, before any transaction
/// is begun, where the workers derive no digest.
pub proof fn law_create_without_a_digest(
    storage: Storage,
    workers: Workers,
    id: u128,
    email: Seq<char>,
    password: Seq<char>,
)
    requires
        workers.config.digest(password, workers.salt) is None,
    ensures
        perform(RequestView::CreateUser { id, email, password }, storage, workers) == (
            storage,
            Some(Err::<ReplyView, DataErrorView>(DataErrorView::Hash)),
        ),
{
    reveal_with_fuel(run, 3);
}

/// Creating an account with an email that a row holds fails with
/// `AlreadyExists`, which names the email, and leaves the storage as it
/// was: no second row with the email exists afterwards.
pub proof fn law_second_user_already_exists(
    storage: Storage,
    workers: Workers,
    id: u128,
    email: Seq<char>,
    password: Seq<char>,
)
    requires
        storage.idle(),
        email_known(storage.rows, email),
        workers.config.digest(password, workers.salt) is Some,
    ensures
        perform(RequestView::CreateUser { id, email, password }, storage, workers) == (
            storage,
            Some(Err::<ReplyView, DataErrorView>(DataErrorView::AlreadyExists(email))),
        ),
{
    reveal_with_fuel(run, 6);
    lemma_known_codes();
    let rolled_back = Storage { working: None, ..storage };
    assert(rolled_back == storage);
}

/// Creating two accounts with the same email: the first is stored, the
/// second fails with `AlreadyExists`, and the storage holds what it held
/// after the first.
pub proof fn law_same_email_twice(
    storage: Storage,
    workers: Workers,
    first: u128,
    second: u128,
    email: Seq<char>,
    password: Seq<char>,
    other_password: Seq<char>,
)
    requires
        storage.idle(),
        !storage.rows.dom().contains(first),
        !email_known(storage.rows, email),
        workers.config.digest(password, workers.salt) is Some,
        workers.config.digest(other_password, workers.salt) is Some,
    ensures
        ({
            let (after, outcome) = perform(
                RequestView::CreateUser { id: first, email, password },
                storage,
                workers,
            );
            &&& outcome matches Some(Ok(_))
            &&& perform(RequestView::CreateUser { id: second, email, password: other_password }, after, workers)
                == (after, Some(Err::<ReplyView, DataErrorView>(DataErrorView::AlreadyExists(email))))
        }),
{
    law_created_user_is_fetched(storage, workers, first, email, password);
    let after = perform(RequestView::CreateUser { id: first, email, password }, storage, workers).0;
    assert(after.rows.dom().contains(first) && after.rows[first].email == email);
    law_second_user_already_exists(after, workers, second, email, other_password);
}

/// The assignments of a partial update change the fields that are present
/// and no other: the email where an email is given, the hash where a hash is
/// given.
pub proof fn lemma_assigned_changes(row: UserView, email: Option<Seq<char>>, hash: Option<Seq<char>>)
    ensures
        assigned(row, changes_of(email, hash)) == (UserView {
            email: match email {
                Some(value) => value,
                None => row.email,
            },
            hash: match hash {
                Some(value) => value,
                None => row.hash,
            },
            ..row
        }),
{
    reveal_with_fuel(assigned, 3);
    let changes = changes_of(email, hash);
    if changes.len() == 2 {
        assert(changes.drop_last() =~= seq![changes[0]]);
        assert(changes.drop_last().drop_last() =~= Seq::<AssignmentView>::empty());
    } else if changes.len() == 1 {
        assert(changes.drop_last() =~= Seq::<AssignmentView>::empty());
    }
}

/// An update holds one assignment for each field that is present, the email
/// before the hash: its statement names exactly those columns.
pub proof fn law_update_assigns_what_is_present(email: Option<Seq<char>>, hash: Option<Seq<char>>)
    ensures
        changes_of(email, hash).len() == (if email is Some {
            1nat
        } else {
            0nat
        }) + (if hash is Some {
            1nat
        } else {
            0nat
        }),
        email matches Some(value) ==> changes_of(email, hash)[0] == (AssignmentView {
            column: Column::Email,
            value,
        }),
        hash matches Some(value) ==> changes_of(email, hash).last() == (AssignmentView {
            column: Column::Hash,
            value,
        }),
{
}

/// An update of the email alone changes the email and the time of the last
/// change, and nothing else: the row that is returned, and that a fetch then
/// yields, holds the hash that it held.
pub proof fn law_email_update_keeps_the_hash(storage: Storage, workers: Workers, id: u128, email: Seq<char>)
    requires
        storage.idle(),
        storage.rows.dom().contains(id),
        !email_taken(storage.rows, email, id),
    ensures
        ({
            let update = UpdateUserView { email: Some(email), password: None };
            let row = UserView { email, updated_at: storage.clock, ..storage.rows[id] };
            let (after, outcome) = perform(RequestView::UpdateUser { id, update }, storage, workers);
            &&& outcome == Some(Ok::<ReplyView, DataErrorView>(ReplyView::User(row)))
            &&& row.hash == storage.rows[id].hash
            &&& after == Storage { rows: storage.rows.insert(id, row), ..storage }
            &&& perform(RequestView::GetUser { id }, after, workers) == (
                after,
                Some(Ok::<ReplyView, DataErrorView>(ReplyView::User(row))),
            )
        }),
{
    reveal_with_fuel(run, 5);
    lemma_assigned_changes(storage.rows[id], Some(email), None);
    let row = UserView { email, updated_at: storage.clock, ..storage.rows[id] };
    let after = Storage { rows: storage.rows.insert(id, row), ..storage };
    law_get_returns_the_row(after, workers, id);
}

/// An update to an email that another row holds fails with a `WriteError`
/// that carries the unique violation, and leaves the storage as it was.
pub proof fn law_update_to_a_taken_email(storage: Storage, workers: Workers, id: u128, email: Seq<char>)
    requires
        storage.idle(),
        storage.rows.dom().contains(id),
        email_taken(storage.rows, email, id),
    ensures
        perform(
            RequestView::UpdateUser { id, update: UpdateUserView { email: Some(email), password: None } },
            storage,
            workers,
        ) == (
            storage,
            Some(
                Err::<ReplyView, DataErrorView>(
                    DataErrorView::WriteError(storage.violation(UNIQUE_VIOLATION@)),
                ),
            ),
        ),
{
    reveal_with_fuel(run, 5);
    lemma_known_codes();
    lemma_assigned_changes(storage.rows[id], Some(email), None);
    let rolled_back = Storage { working: None, ..storage };
    assert(rolled_back == storage);
}

/// An update of an account that does not exist fails with `NotFound`,
/// whatever it holds.
pub proof fn law_update_of_a_missing_user(storage: Storage, workers: Workers, id: u128, update: UpdateUserView)
    requires
        storage.idle(),
        !storage.rows.dom().contains(id),
    ensures
        perform(RequestView::UpdateUser { id, update }, storage, workers) == (
            storage,
            Some(Err::<ReplyView, DataErrorView>(DataErrorView::NotFound(hyphenated_text(id)))),
        ),
{
    reveal_with_fuel(run, 5);
    let rolled_back = Storage { working: None, ..storage };
    assert(rolled_back == storage);
}

/// An update with neither field reads the row, writes nothing and returns
/// the row as it is.
pub proof fn law_empty_update_returns_the_row(storage: Storage, workers: Workers, id: u128)
    requires
        storage.idle(),
        storage.rows.dom().contains(id),
    ensures
        perform(
            RequestView::UpdateUser { id, update: UpdateUserView { email: None, password: None } },
            storage,
            workers,
        ) == (storage, Some(Ok::<ReplyView, DataErrorView>(ReplyView::User(storage.rows[id])))),
{
    reveal_with_fuel(run, 5);
    let committed = Storage { rows: storage.rows, working: None, ..storage };
    assert(committed == storage);
}

/// A password update whose old password does not verify against the stored
/// digest fails with a hashing failure and leaves the storage as it was,
/// whatever else the update holds.
pub proof fn law_wrong_old_password_changes_nothing(
    storage: Storage,
    workers: Workers,
    id: u128,
    email: Option<Seq<char>>,
    password: PasswordUpdateView,
)
    requires
        storage.idle(),
        storage.rows.dom().contains(id),
        workers.config.verdict(password.old_password, storage.rows[id].hash) is Err,
    ensures
        perform(
            RequestView::UpdateUser { id, update: UpdateUserView { email, password: Some(password) } },
            storage,
            workers,
        ) == (storage, Some(Err::<ReplyView, DataErrorView>(DataErrorView::Hash))),
{
    reveal_with_fuel(run, 6);
    let rolled_back = Storage { working: None, ..storage };
    assert(rolled_back == storage);
}

/// A password update whose old password verifies stores the digest that the
/// workers derive from the new password, together with the email where one
/// is given, and returns the row.
pub proof fn law_password_update_stores_the_new_digest(
    storage: Storage,
    workers: Workers,
    id: u128,
    email: Option<Seq<char>>,
    password: PasswordUpdateView,
)
    requires
        storage.idle(),
        storage.rows.dom().contains(id),
        workers.config.verdict(password.old_password, storage.rows[id].hash) is Ok,
        workers.config.digest(password.new_password, workers.salt) is Some,
        consistent(storage.rows),
        email matches Some(value) ==> !email_taken(storage.rows, value, id),
    ensures
        ({
            let digest = workers.config.digest(password.new_password, workers.salt)->0;
            let row = UserView {
                email: match email {
                    Some(value) => value,
                    None => storage.rows[id].email,
                },
                hash: digest,
                updated_at: storage.clock,
                ..storage.rows[id]
            };
            perform(
                RequestView::UpdateUser { id, update: UpdateUserView { email, password: Some(password) } },
                storage,
                workers,
            ) == (
                Storage { rows: storage.rows.insert(id, row), ..storage },
                Some(Ok::<ReplyView, DataErrorView>(ReplyView::User(row))),
            )
        }),
{
    reveal_with_fuel(run, 8);
    let digest = workers.config.digest(password.new_password, workers.salt)->0;
    lemma_assigned_changes(storage.rows[id], email, Some(digest));
}

/// Every operation ends: it returns an outcome after at most
/// [`longest_run`] actions, and leaves no transaction open.
pub proof fn law_every_operation_ends(request: RequestView, storage: Storage, workers: Workers)
    requires
        storage.idle(),
    ensures
        perform(request, storage, workers).1 is Some,
        perform(request, storage, workers).0.idle(),
{
    reveal_with_fuel(run, 9);
}

/// Against a storage engine and workers that answer what they are asked,
/// no operation ends for an event that answers nothing.
pub proof fn law_answers_are_never_refused(request: RequestView, storage: Storage, workers: Workers)
    requires
        storage.idle(),
    ensures
        !(perform(request, storage, workers).1 matches Some(Err(DataErrorView::DataIntegrity(_)))),
{
    reveal_with_fuel(run, 9);
}

/// No partial effect: an operation that fails leaves the storage as it was.
pub proof fn law_failure_changes_nothing(request: RequestView, storage: Storage, workers: Workers)
    requires
        storage.idle(),
    ensures
        perform(request, storage, workers).1 matches Some(Err(_)) ==> perform(request, storage, workers).0
            == storage,
{
    reveal_with_fuel(run, 9);
    let rolled_back = Storage { working: None, ..storage };
    assert(rolled_back == storage);
    let committed = Storage { rows: storage.rows, working: None, ..storage };
    assert(committed == storage);
}

/// Only what writes changes rows: fetching, listing and checking a password
/// leave the storage as it was, whatever they return.
pub proof fn law_reads_change_nothing(request: RequestView, storage: Storage, workers: Workers)
    requires
        storage.idle(),
        request is GetUser || request is ListUsers || request is VerifyUserPassword,
    ensures
        perform(request, storage, workers).0 == storage,
{
    reveal_with_fuel(run, 9);
    let rolled_back = Storage { working: None, ..storage };
    assert(rolled_back == storage);
    let committed = Storage { rows: storage.rows, working: None, ..storage };
    assert(committed == storage);
}

/// The schema's keys hold after every operation: each row stays under its
/// own identifier, and no two rows hold the same email.
pub proof fn law_rows_stay_consistent(request: RequestView, storage: Storage, workers: Workers)
    requires
        storage.idle(),
        consistent(storage.rows),
    ensures
        consistent(perform(request, storage, workers).0.rows),
{
    reveal_with_fuel(run, 9);
    match request {
        RequestView::UpdateUser { id, update } => {
            if storage.rows.dom().contains(id) {
                if update.password is Some {
                    if workers.config.digest(update.password->0.new_password, workers.salt) is Some {
                        lemma_assigned_changes(
                            storage.rows[id],
                            update.email,
                            workers.config.digest(update.password->0.new_password, workers.salt),
                        );
                    }
                } else {
                    lemma_assigned_changes(storage.rows[id], update.email, None);
                }
            }
        },
        _ => {},
    }
}

/// Commit before success: an operation returns a success only in answer to
/// the commit of its transaction; a password check returns it in answer to
/// the workers' verdict, which it asks for after its commit.
pub proof fn law_success_follows_the_commit(tx: TransactionView, event: EventView)
    ensures
        tx.step(event).1 matches ActionView::Finish(Ok(_)) ==> {
            ||| tx.stage == Stage::Committing && event is Committed
            ||| tx.stage == Stage::Verifying && event is Verified && tx.request is VerifyUserPassword
        },
        tx.step(event).1 is Verify && tx.request is VerifyUserPassword ==> tx.stage == Stage::Committing
            && event is Committed,
{
}

/// While a transaction is open, an operation returns nothing: it comes to
/// its end by a commit or a rollback.
pub proof fn law_open_transaction_is_closed_first(tx: TransactionView, event: EventView)
    ensures
        tx.in_transaction() && tx.step(event).1 is Finish ==> tx.stage == Stage::Committing || tx.stage
            == Stage::RollingBack,
        tx.step(event).1 is Rollback ==> (tx.in_transaction() || (tx.stage == Stage::Beginning && event
            is Began)) && tx.step(event).0.stage == Stage::RollingBack && tx.step(event).0.failure is Some,
        tx.stage == Stage::RollingBack ==> tx.step(event).1 is Finish && tx.step(event).0.stage
            == Stage::Finished,
        tx.stage == Stage::RollingBack && tx.failure is Some ==> tx.step(event).1 == ActionView::Finish(
            Err(tx.failure->0),
        ),
{
}

/// A statement is asked for inside a transaction only: in answer to its
/// beginning, or while it is open.
pub proof fn law_statements_run_in_a_transaction(tx: TransactionView, event: EventView)
    ensures
        tx.step(event).1 is FetchOne || tx.step(event).1 is FetchAll ==> tx.step(event).0.in_transaction() && (
        tx.in_transaction() || (tx.stage == Stage::Beginning && event is Began)),
        tx.step(event).1 is Begin ==> !tx.in_transaction(),
        tx.step(event).1 is Commit ==> tx.in_transaction() && tx.step(event).0.reply is Some,
{
}

/// A new account's password is hashed while no transaction is open, so
/// that a hashing failure ends the operation before any row is written.
pub proof fn law_new_password_is_hashed_first(tx: TransactionView, event: EventView)
    requires
        tx.request is CreateUser,
    ensures
        tx.step(event).1 is Hash ==> tx.stage == Stage::Created && event is Start && !tx.step(
            event,
        ).0.in_transaction(),
        tx.step(event).1 matches ActionView::FetchOne(statement) ==> statement is InsertUser && tx.digest
            == Some(statement->InsertUser_hash),
        tx.step(event).1 is Begin ==> tx.stage == Stage::Hashing && event is Hashed,
{
}

/// The old password is verified before a password update is written: the
/// update's statement is asked for in answer to the digest of the new
/// password, that digest in answer to the acceptance of the old password,
/// and that verdict in answer to the row read under a lock.
pub proof fn law_old_password_is_verified_first(tx: TransactionView, event: EventView)
    requires
        tx.request matches RequestView::UpdateUser { update, .. } && update.password is Some,
    ensures
        tx.step(event).1 matches ActionView::FetchOne(statement) && statement.writes() ==> tx.stage
            == Stage::Hashing && event is Hashed,
        tx.step(event).1 is Hash ==> tx.stage == Stage::Verifying && event is Verified,
        tx.step(event).1 matches ActionView::Verify { password, hash } ==> tx.stage == Stage::Reading && event
            == EventView::Row(event->Row_0) && hash == event->Row_0.hash && password == (
        tx.request->UpdateUser_update.password->0).old_password,
        tx.step(event).1 matches ActionView::FetchOne(statement) ==> statement.writes() || statement
            is SelectUserForUpdate,
{
}

/// Every update that is asked for assigns at least one column, no column
/// twice: the email exactly where the request holds one, and the hash where
/// it holds a password, in answer to the digest of the new one. Only an
/// update request asks for an update.
pub proof fn law_updates_assign_the_present_fields(tx: TransactionView, event: EventView)
    ensures
        tx.step(event).1 matches ActionView::FetchOne(StatementView::UpdateUser { id, changes }) ==> {
            &&& tx.request matches RequestView::UpdateUser { id: target, update }
            &&& id == target
            &&& 1 <= changes.len() <= 2
            &&& (update.email is Some) == (changes[0].column == Column::Email)
            &&& update.email matches Some(email) ==> changes[0].value == email
            &&& update.password is Some ==> changes.last().column == Column::Hash
            &&& (changes.last().column == Column::Hash) == (tx.stage == Stage::Hashing)
            &&& changes.len() == 2 ==> changes[0].column != changes[1].column
        },
        tx.step(event).1 matches ActionView::FetchAll(statement) ==> statement is SelectUsers,
{
}

/// What is returned is what was fetched: a row that a statement returned
/// is held as it came until the commit, and so are the rows of a listing, in
/// the order in which they came.
pub proof fn law_rows_are_returned_as_fetched(tx: TransactionView, rows: Seq<UserView>, row: UserView)
    ensures
        tx.stage == Stage::Reading && tx.request is ListUsers ==> tx.step(EventView::Rows(rows)).1
            == ActionView::Commit && tx.step(EventView::Rows(rows)).0.step(EventView::Committed).1
            == ActionView::Finish(Ok(ReplyView::Users(rows))),
        tx.stage == Stage::Reading && tx.request is GetUser ==> tx.step(EventView::Row(row)).1
            == ActionView::Commit && tx.step(EventView::Row(row)).0.step(EventView::Committed).1
            == ActionView::Finish(Ok(ReplyView::User(row))),
        tx.stage == Stage::Writing && !(tx.request is VerifyUserPassword) ==> tx.step(EventView::Row(row)).1
            == ActionView::Commit && tx.step(EventView::Row(row)).0.step(EventView::Committed).1
            == ActionView::Finish(Ok(ReplyView::User(row))),
{
}

/// An operation that has returned its outcome takes no further step.
pub proof fn law_finished_is_final(tx: TransactionView, event: EventView)
    requires
        tx.stage == Stage::Finished,
    ensures
        tx.step(event).0.stage == Stage::Finished,
        tx.step(event).1 matches ActionView::Finish(Err(DataErrorView::DataIntegrity(_))),
{
}

/// The failure of a statement is translated by its constraint code: on
/// creating, a unique violation is `AlreadyExists` with the email; on
/// deleting, a foreign key violation is `CannotDeleteReferenced` with the
/// identifier; everywhere else a constraint violation stays a `WriteError`.
pub proof fn law_violations_are_translated(request: RequestView, message: Seq<char>)
    ensures
        request matches RequestView::CreateUser { email, .. } ==> request.write_failure(
            StorageErrorView::Database { code: Some(UNIQUE_VIOLATION@), message },
        ) == DataErrorView::AlreadyExists(email),
        request matches RequestView::DeleteUser { id } ==> request.write_failure(
            StorageErrorView::Database { code: Some(FOREIGN_KEY_VIOLATION@), message },
        ) == DataErrorView::CannotDeleteReferenced(hyphenated_text(id)),
        request is UpdateUser ==> request.write_failure(
            StorageErrorView::Database { code: Some(UNIQUE_VIOLATION@), message },
        ) == DataErrorView::WriteError(StorageErrorView::Database { code: Some(UNIQUE_VIOLATION@), message }),
        request.subject() is Some ==> request.read_failure(StorageErrorView::RowNotFound)
            == DataErrorView::NotFound(request.subject()->0) && request.write_failure(
            StorageErrorView::RowNotFound,
        ) == DataErrorView::NotFound(request.subject()->0),
{
    lemma_known_codes();
}

} // verus!
