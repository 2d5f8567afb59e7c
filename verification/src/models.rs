//! Accounts and sessions as plain values, and their mathematical views.

use vstd::prelude::*;

verus! {

/// `uuid::Uuid`, the identifier that the store assigns to accounts and
/// sessions. The library only carries such values; it never looks inside one.
#[verifier::external_type_specification]
#[verifier::external_body]
pub struct ExUuid(uuid::Uuid);

/// `Clone::clone` of `uuid::Uuid`. The type is `Copy`: the clone is the value
/// itself.
pub assume_specification[ <uuid::Uuid as Clone>::clone ](id: &uuid::Uuid) -> (copy: uuid::Uuid)
    ensures
        copy == *id,
;

/// A registered account.
#[derive(Debug, Clone, PartialEq, Eq)]
pub struct User {
    pub id: uuid::Uuid,
    pub login: String,
    pub email: String,
    /// The encoded digest of the password, never the password itself.
    pub password: String,
}

/// The mathematical value of a [`User`].
pub struct UserView {
    pub id: uuid::Uuid,
    pub login: Seq<char>,
    pub email: Seq<char>,
    pub password: Seq<char>,
}

impl View for User {
    type V = UserView;

    open spec fn view(&self) -> UserView {
        UserView { id: self.id, login: self.login@, email: self.email@, password: self.password@ }
    }
}

/// An account that the store is asked to create. The store assigns the
/// identifier.
#[derive(Debug, Clone, PartialEq, Eq)]
pub struct NewUser {
    pub login: String,
    pub email: String,
    /// The encoded digest of the password.
    pub password: String,
}

/// The mathematical value of a [`NewUser`].
pub struct NewUserView {
    pub login: Seq<char>,
    pub email: Seq<char>,
    pub password: Seq<char>,
}

impl View for NewUser {
    type V = NewUserView;

    open spec fn view(&self) -> NewUserView {
        NewUserView { login: self.login@, email: self.email@, password: self.password@ }
    }
}

/// A time-bounded access grant. The store sets `id` and `iat` when it creates
/// the row; neither changes afterwards.
#[derive(Debug, Clone, Copy, PartialEq, Eq)]
pub struct Session {
    pub id: uuid::Uuid,
    /// When the session was issued, in nanoseconds since the Unix epoch.
    pub iat: u128,
    /// The account that the session belongs to.
    pub user_id: uuid::Uuid,
}

/// A session that the store is asked to create.
#[derive(Debug, Clone, Copy, PartialEq, Eq)]
pub struct NewSession {
    pub user_id: uuid::Uuid,
}

} // verus!
