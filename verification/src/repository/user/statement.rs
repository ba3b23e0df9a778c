//! The statements against the account table: their text, with a numbered
//! placeholder for every value, and the values bound to the placeholders.

use vstd::prelude::*;

verus! {

/// Every row of the account table.
pub const SELECT_USERS: &'static str = "SELECT * FROM users";

/// The row with a given identifier.
pub const SELECT_USER: &'static str = "SELECT * FROM users WHERE id = $1";

/// The row with a given identifier, locked until the transaction ends.
pub const SELECT_USER_FOR_UPDATE: &'static str = "SELECT * FROM users WHERE id = $1 FOR UPDATE";

/// The row with a given email.
pub const SELECT_USER_BY_EMAIL: &'static str = "SELECT * FROM users WHERE email = $1";

/// A new row, returned as stored.
pub const INSERT_USER: &'static str =
    "INSERT INTO users ( id, email, hash ) VALUES ( $1, $2, $3 ) RETURNING *";

/// The removal of the row with a given identifier, which is returned.
pub const DELETE_USER: &'static str = "DELETE FROM users WHERE id = $1 RETURNING *";

/// What an update begins with, before its assignments.
pub const UPDATE_USERS_SET: &'static str = "UPDATE users SET ";

/// What follows an update's assignments, before the identifier's placeholder.
pub const WHERE_ID: &'static str = " WHERE id = ";

/// What an update ends with.
pub const RETURNING_ALL: &'static str = " RETURNING *";

/// A column that an update can assign.
#[derive(Clone, Copy, Debug, PartialEq, Eq, Structural)]
pub enum Column {
    Email,
    Hash,
}

impl Column {
    /// The column's name in the account table.
    pub open spec fn name_text(self) -> Seq<char> {
        match self {
            Column::Email => "email"@,
            Column::Hash => "hash"@,
        }
    }

    /// The column's name in the account table.
    pub fn name(&self) -> (name: &'static str)
        ensures
            name@ == self.name_text(),
    {
        match self {
            Column::Email => "email",
            Column::Hash => "hash",
        }
    }
}

/// One assignment of an update: a column and the value bound to it.
#[derive(Debug, Clone, PartialEq, Eq)]
pub struct Assignment {
    pub column: Column,
    pub value: String,
}

/// What an [`Assignment`] is, with its value as a sequence of characters.
pub struct AssignmentView {
    pub column: Column,
    pub value: Seq<char>,
}

impl View for Assignment {
    type V = AssignmentView;

    open spec fn view(&self) -> AssignmentView {
        AssignmentView { column: self.column, value: self.value@ }
    }
}

impl DeepView for Assignment {
    type V = AssignmentView;

    open spec fn deep_view(&self) -> AssignmentView {
        self@
    }
}

/// A value bound to a placeholder of a statement.
#[derive(Debug, Clone, PartialEq, Eq)]
pub enum Bind {
    Id(u128),
    Text(String),
}

/// What a [`Bind`] is, with its text as a sequence of characters.
pub enum BindView {
    Id(u128),
    Text(Seq<char>),
}

impl View for Bind {
    type V = BindView;

    open spec fn view(&self) -> BindView {
        match self {
            Bind::Id(id) => BindView::Id(*id),
            Bind::Text(text) => BindView::Text(text@),
        }
    }
}

impl DeepView for Bind {
    type V = BindView;

    open spec fn deep_view(&self) -> BindView {
        self@
    }
}

/// A statement against the account table. Every value that a caller supplied
/// is bound to a placeholder: none becomes part of the statement's text.
#[derive(Debug, Clone, PartialEq, Eq)]
pub enum Statement {
    SelectUsers,
    SelectUser { id: u128 },
    SelectUserForUpdate { id: u128 },
    SelectUserByEmail { email: String },
    InsertUser { id: u128, email: String, hash: String },
    UpdateUser { id: u128, changes: Vec<Assignment> },
    DeleteUser { id: u128 },
}

/// What a [`Statement`] is, with its texts as sequences of characters.
pub enum StatementView {
    SelectUsers,
    SelectUser { id: u128 },
    SelectUserForUpdate { id: u128 },
    SelectUserByEmail { email: Seq<char> },
    InsertUser { id: u128, email: Seq<char>, hash: Seq<char> },
    UpdateUser { id: u128, changes: Seq<AssignmentView> },
    DeleteUser { id: u128 },
}

impl View for Statement {
    type V = StatementView;

    open spec fn view(&self) -> StatementView {
        match self {
            Statement::SelectUsers => StatementView::SelectUsers,
            Statement::SelectUser { id } => StatementView::SelectUser { id: *id },
            Statement::SelectUserForUpdate { id } => StatementView::SelectUserForUpdate { id: *id },
            Statement::SelectUserByEmail { email } => StatementView::SelectUserByEmail { email: email@ },
            Statement::InsertUser { id, email, hash } => StatementView::InsertUser {
                id: *id,
                email: email@,
                hash: hash@,
            },
            Statement::UpdateUser { id, changes } => StatementView::UpdateUser {
                id: *id,
                changes: changes.deep_view(),
            },
            Statement::DeleteUser { id } => StatementView::DeleteUser { id: *id },
        }
    }
}

/// The decimal digit `d`.
pub open spec fn digit_char(d: nat) -> char {
    "0123456789"@[d as int]
}

/// `n` in decimal, without leading zeros.
pub open spec fn decimal_text(n: nat) -> Seq<char>
    decreases n,
{
    if n < 10 {
        seq![digit_char(n)]
    } else {
        decimal_text(n / 10).push(digit_char(n % 10))
    }
}

/// The placeholder of the `n`-th bound value.
pub open spec fn placeholder(n: nat) -> Seq<char> {
    "$"@ + decimal_text(n)
}

/// The assignment list of an update of `columns`: each column is assigned
/// the placeholder of its position, and commas stand between the assignments.
pub open spec fn set_list(columns: Seq<Column>) -> Seq<char>
    decreases columns.len(),
{
    if columns.len() == 0 {
        Seq::empty()
    } else {
        let before = set_list(columns.drop_last());
        let separated = if columns.len() == 1 {
            before
        } else {
            before + ", "@
        };
        separated + columns.last().name_text() + " = "@ + placeholder(columns.len())
    }
}

/// The columns that a list of assignments assigns, in order.
pub open spec fn columns_of(changes: Seq<AssignmentView>) -> Seq<Column> {
    changes.map_values(|change: AssignmentView| change.column)
}

/// The values that a list of assignments binds, in order.
pub open spec fn values_of(changes: Seq<AssignmentView>) -> Seq<BindView> {
    changes.map_values(|change: AssignmentView| BindView::Text(change.value))
}

impl StatementView {
    /// The columns that the statement assigns: those of an update's
    /// assignments, and none for every other statement.
    pub open spec fn columns(self) -> Seq<Column> {
        match self {
            StatementView::UpdateUser { changes, .. } => columns_of(changes),
            _ => Seq::empty(),
        }
    }

    /// Whether two statements are of the same form.
    pub open spec fn same_form(self, other: StatementView) -> bool {
        &&& self.columns() == other.columns()
        &&& match self {
            StatementView::SelectUsers => other is SelectUsers,
            StatementView::SelectUser { .. } => other is SelectUser,
            StatementView::SelectUserForUpdate { .. } => other is SelectUserForUpdate,
            StatementView::SelectUserByEmail { .. } => other is SelectUserByEmail,
            StatementView::InsertUser { .. } => other is InsertUser,
            StatementView::UpdateUser { .. } => other is UpdateUser,
            StatementView::DeleteUser { .. } => other is DeleteUser,
        }
    }

    /// The statement's text.
    pub open spec fn sql(self) -> Seq<char> {
        match self {
            StatementView::SelectUsers => SELECT_USERS@,
            StatementView::SelectUser { .. } => SELECT_USER@,
            StatementView::SelectUserForUpdate { .. } => SELECT_USER_FOR_UPDATE@,
            StatementView::SelectUserByEmail { .. } => SELECT_USER_BY_EMAIL@,
            StatementView::InsertUser { .. } => INSERT_USER@,
            StatementView::UpdateUser { changes, .. } => UPDATE_USERS_SET@ + set_list(columns_of(changes))
                + WHERE_ID@ + placeholder(changes.len() + 1) + RETURNING_ALL@,
            StatementView::DeleteUser { .. } => DELETE_USER@,
        }
    }

    /// The values bound to the statement's placeholders, the first value to
    /// the first placeholder.
    pub open spec fn binds(self) -> Seq<BindView> {
        match self {
            StatementView::SelectUsers => Seq::empty(),
            StatementView::SelectUser { id } => seq![BindView::Id(id)],
            StatementView::SelectUserForUpdate { id } => seq![BindView::Id(id)],
            StatementView::SelectUserByEmail { email } => seq![BindView::Text(email)],
            StatementView::InsertUser { id, email, hash } => seq![
                BindView::Id(id),
                BindView::Text(email),
                BindView::Text(hash),
            ],
            StatementView::UpdateUser { id, changes } => values_of(changes).push(BindView::Id(id)),
            StatementView::DeleteUser { id } => seq![BindView::Id(id)],
        }
    }

    /// The number of the statement's placeholders.
    pub open spec fn arity(self) -> nat {
        match self {
            StatementView::SelectUsers => 0,
            StatementView::SelectUser { .. } => 1,
            StatementView::SelectUserForUpdate { .. } => 1,
            StatementView::SelectUserByEmail { .. } => 1,
            StatementView::InsertUser { .. } => 3,
            StatementView::UpdateUser { changes, .. } => changes.len() + 1,
            StatementView::DeleteUser { .. } => 1,
        }
    }

    /// Whether the statement changes the table.
    pub open spec fn writes(self) -> bool {
        self is InsertUser || self is UpdateUser || self is DeleteUser
    }
}

/// The text of a statement depends on its form alone, never on a value that
/// it binds.
pub proof fn law_sql_ignores_values(left: StatementView, right: StatementView)
    requires
        left.same_form(right),
    ensures
        left.sql() == right.sql(),
{
    match left {
        StatementView::UpdateUser { changes, .. } => {
            let other = right->UpdateUser_changes;
            assert(columns_of(changes).len() == changes.len());
            assert(columns_of(other).len() == other.len());
        },
        _ => {},
    }
}

/// Every placeholder has its value: a statement binds as many values as it
/// has placeholders, and an update binds the value of each assignment at the
/// assignment's position and the identifier last.
pub proof fn law_binds_meet_placeholders(statement: StatementView)
    ensures
        statement.binds().len() == statement.arity(),
        statement matches StatementView::UpdateUser { id, changes } ==> {
            &&& statement.binds().last() == BindView::Id(id)
            &&& forall|i: int|
                0 <= i < changes.len() ==> #[trigger] statement.binds()[i] == BindView::Text(changes[i].value)
        },
{
}

/// The decimal digit `d` as a text.
fn digit(d: u128) -> (text: &'static str)
    requires
        d < 10,
    ensures
        text@ == seq![digit_char(d as nat)],
{
    proof {
        reveal_strlit("0123456789");
        reveal_strlit("0");
        reveal_strlit("1");
        reveal_strlit("2");
        reveal_strlit("3");
        reveal_strlit("4");
        reveal_strlit("5");
        reveal_strlit("6");
        reveal_strlit("7");
        reveal_strlit("8");
        reveal_strlit("9");
    }
    let text = match d {
        0 => "0",
        1 => "1",
        2 => "2",
        3 => "3",
        4 => "4",
        5 => "5",
        6 => "6",
        7 => "7",
        8 => "8",
        _ => "9",
    };
    assert(text@ =~= seq![digit_char(d as nat)]);
    text
}

/// Appends `n` in decimal to `text`.
fn push_decimal(text: &mut String, n: u128)
    ensures
        final(text)@ == old(text)@ + decimal_text(n as nat),
    decreases n,
{
    if n < 10 {
        text.append(digit(n));
    } else {
        push_decimal(text, n / 10);
        text.append(digit(n % 10));
        assert(text@ =~= old(text)@ + decimal_text(n as nat));
    }
}

/// Appends the placeholder of the `n`-th bound value to `text`.
fn push_placeholder(text: &mut String, n: u128)
    ensures
        final(text)@ == old(text)@ + placeholder(n as nat),
{
    text.append("$");
    push_decimal(text, n);
    assert(text@ =~= old(text)@ + placeholder(n as nat));
}

impl Statement {
    /// The statement's text.
    pub fn sql(&self) -> (text: String)
        ensures
            text@ == self@.sql(),
    {
        match self {
            Statement::SelectUsers => SELECT_USERS.to_owned(),
            Statement::SelectUser { .. } => SELECT_USER.to_owned(),
            Statement::SelectUserForUpdate { .. } => SELECT_USER_FOR_UPDATE.to_owned(),
            Statement::SelectUserByEmail { .. } => SELECT_USER_BY_EMAIL.to_owned(),
            Statement::InsertUser { .. } => INSERT_USER.to_owned(),
            Statement::DeleteUser { .. } => DELETE_USER.to_owned(),
            Statement::UpdateUser { changes, .. } => {
                let ghost columns = columns_of(changes.deep_view());
                let mut text = UPDATE_USERS_SET.to_owned();
                let mut i: usize = 0;
                while i < changes.len()
                    invariant
                        i <= changes.len(),
                        columns == columns_of(changes.deep_view()),
                        columns.len() == changes.len(),
                        text@ == UPDATE_USERS_SET@ + set_list(columns.take(i as int)),
                    decreases changes.len() - i,
                {
                    let ghost before = text@;
                    if i > 0 {
                        text.append(", ");
                    }
                    text.append(changes[i].column.name());
                    text.append(" = ");
                    push_placeholder(&mut text, i as u128 + 1);
                    proof {
                        let taken = columns.take(i as int + 1);
                        assert(taken.drop_last() =~= columns.take(i as int));
                        assert(taken.last() == changes[i as int].column);
                        assert(text@ =~= UPDATE_USERS_SET@ + set_list(taken));
                    }
                    i += 1;
                }
                assert(columns.take(i as int) =~= columns);
                text.append(WHERE_ID);
                push_placeholder(&mut text, changes.len() as u128 + 1);
                text.append(RETURNING_ALL);
                assert(text@ =~= self@.sql());
                text
            },
        }
    }

    /// The values bound to the statement's placeholders, the first value to
    /// the first placeholder.
    pub fn binds(&self) -> (binds: Vec<Bind>)
        ensures
            binds.deep_view() == self@.binds(),
    {
        let mut binds: Vec<Bind> = Vec::new();
        match self {
            Statement::SelectUsers => {},
            Statement::SelectUser { id } => {
                binds.push(Bind::Id(*id));
            },
            Statement::SelectUserForUpdate { id } => {
                binds.push(Bind::Id(*id));
            },
            Statement::SelectUserByEmail { email } => {
                binds.push(Bind::Text(email.clone()));
            },
            Statement::InsertUser { id, email, hash } => {
                binds.push(Bind::Id(*id));
                binds.push(Bind::Text(email.clone()));
                binds.push(Bind::Text(hash.clone()));
            },
            Statement::UpdateUser { id, changes } => {
                let mut i: usize = 0;
                while i < changes.len()
                    invariant
                        i <= changes.len(),
                        binds.deep_view() =~= values_of(changes.deep_view()).take(i as int),
                    decreases changes.len() - i,
                {
                    let ghost before = binds.deep_view();
                    binds.push(Bind::Text(changes[i].value.clone()));
                    proof {
                        let all = values_of(changes.deep_view());
                        assert(all[i as int] == BindView::Text(changes[i as int].value@));
                        assert(binds.deep_view() =~= before.push(all[i as int]));
                    }
                    i += 1;
                }
                assert(values_of(changes.deep_view()).take(i as int) =~= values_of(changes.deep_view()));
                binds.push(Bind::Id(*id));
            },
            Statement::DeleteUser { id } => {
                binds.push(Bind::Id(*id));
            },
        }
        assert(binds.deep_view() =~= self@.binds());
        binds
    }
}

} // verus!
