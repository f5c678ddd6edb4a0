use vstd::prelude::*;

verus! {

/// Opaque user identifier, carried as its textual rendering.
#[derive(Clone, Debug, PartialEq, Eq)]
pub struct UserID(pub String);

/// A username as supplied by a client.
#[derive(Clone, Debug, PartialEq, Eq)]
pub struct Username(pub String);

/// A raw or hashed password, depending on where it stands in the flow.
#[derive(Clone, Debug, PartialEq, Eq)]
pub struct Password(pub String);

/// An email address as supplied by a client.
#[derive(Clone, Debug, PartialEq, Eq)]
pub struct Email(pub String);

/// The identity payload embedded in an authentication token.
#[derive(Clone, Debug, PartialEq, Eq)]
pub struct UserData {
    pub user_id: UserID,
}

/// What the persistence layer yields for a login lookup.
#[derive(Debug)]
pub struct UserLoginInfo {
    pub id: UserID,
    pub password_hash: Password,
}

} // verus!
