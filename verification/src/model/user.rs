//! The account record and the requests that change it.

use vstd::prelude::*;

verus! {

/// A persisted account record.
///
/// The identifier is the 128-bit value of the account's UUID. The two
/// timestamps count microseconds since the Unix epoch and are assigned by the
/// storage engine.
#[derive(Debug, Clone, PartialEq, Eq)]
pub struct User {
    pub id: u128,
    pub email: String,
    pub hash: String,
    pub is_admin: bool,
    pub created_at: i64,
    pub updated_at: i64,
}

/// What a [`User`] is, with its texts as sequences of characters.
pub struct UserView {
    pub id: u128,
    pub email: Seq<char>,
    pub hash: Seq<char>,
    pub is_admin: bool,
    pub created_at: i64,
    pub updated_at: i64,
}

impl View for User {
    type V = UserView;

    open spec fn view(&self) -> UserView {
        UserView {
            id: self.id,
            email: self.email@,
            hash: self.hash@,
            is_admin: self.is_admin,
            created_at: self.created_at,
            updated_at: self.updated_at,
        }
    }
}

impl DeepView for User {
    type V = UserView;

    open spec fn deep_view(&self) -> UserView {
        self@
    }
}

/// The caller-asserted current password and the password wanted in its place.
#[derive(Debug, Clone, PartialEq, Eq)]
pub struct PasswordUpdate {
    pub old_password: String,
    pub new_password: String,
}

/// What a [`PasswordUpdate`] is, with its texts as sequences of characters.
pub struct PasswordUpdateView {
    pub old_password: Seq<char>,
    pub new_password: Seq<char>,
}

impl View for PasswordUpdate {
    type V = PasswordUpdateView;

    open spec fn view(&self) -> PasswordUpdateView {
        PasswordUpdateView { old_password: self.old_password@, new_password: self.new_password@ }
    }
}

/// A partial update: each field that is present is changed, the others are
/// left as they are.
#[derive(Debug, Clone, PartialEq, Eq)]
pub struct UpdateUser {
    pub email: Option<String>,
    pub password: Option<PasswordUpdate>,
}

/// What an [`UpdateUser`] is, with its texts as sequences of characters.
pub struct UpdateUserView {
    pub email: Option<Seq<char>>,
    pub password: Option<PasswordUpdateView>,
}

impl View for UpdateUser {
    type V = UpdateUserView;

    open spec fn view(&self) -> UpdateUserView {
        UpdateUserView {
            email: match self.email {
                Some(email) => Some(email@),
                None => None,
            },
            password: match self.password {
                Some(password) => Some(password@),
                None => None,
            },
        }
    }
}

} // verus!
