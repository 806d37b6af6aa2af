//! Users: request shapes, the stored row, its public projection, and the
//! policy that the user handlers apply around the store.

use vstd::prelude::*;
use crate::error::ApiError;

verus! {

/// A user as stored. Timestamps are RFC 3339 text.
#[derive(Debug, PartialEq, Eq)]
pub struct UserRow {
    pub id: i32,
    pub username: String,
    pub email: String,
    pub password_hash: String,
    pub created_at: String,
    pub updated_at: String,
}

/// Body of `POST /api/users`.
#[derive(Debug, PartialEq, Eq)]
pub struct CreateUserReq {
    pub username: String,
    pub email: String,
    pub password: String,
}

/// Body of `PATCH /api/users/{id}`: absent fields are left as they are.
#[derive(Debug, PartialEq, Eq)]
pub struct UpdateUserReq {
    pub username: Option<String>,
    pub email: Option<String>,
    pub password: Option<String>,
}

/// The wire shape of a user: never the password hash.
#[derive(Debug, PartialEq, Eq)]
pub struct UserOut {
    pub id: i32,
    pub username: String,
    pub email: String,
    pub created_at: String,
    pub updated_at: String,
}

/// The wire shape of a stored user: every field but the password hash.
pub open spec fn project(m: UserRow) -> UserOut {
    UserOut {
        id: m.id,
        username: m.username,
        email: m.email,
        created_at: m.created_at,
        updated_at: m.updated_at,
    }
}

impl From<UserRow> for UserOut {
    fn from(m: UserRow) -> UserOut {
        UserOut {
            id: m.id,
            username: m.username,
            email: m.email,
            created_at: m.created_at,
            updated_at: m.updated_at,
        }
    }
}

impl vstd::std_specs::convert::FromSpecImpl<UserRow> for UserOut {
    open spec fn obeys_from_spec() -> bool {
        true
    }

    open spec fn from_spec(m: UserRow) -> UserOut {
        project(m)
    }
}

/// The fields that a user update changes in the row; the password goes
/// separately, as a new hash.
#[derive(Debug, PartialEq, Eq)]
pub struct UserPatch {
    pub username: Option<String>,
    pub email: Option<String>,
}

impl UpdateUserReq {
    /// The row changes of this update, and the new password if one was given.
    pub fn split(self) -> (r: (UserPatch, Option<String>))
        ensures
            r.0.username == self.username,
            r.0.email == self.email,
            r.1 == self.password,
    {
        (UserPatch { username: self.username, email: self.email }, self.password)
    }
}

impl UserRow {
    /// The row after `p`: each given field replaces the stored one.
    pub open spec fn patched(self, p: UserPatch) -> UserRow {
        UserRow {
            username: match p.username {
                Some(v) => v,
                None => self.username,
            },
            email: match p.email {
                Some(v) => v,
                None => self.email,
            },
            ..self
        }
    }

    /// Applies `p` to the row.
    pub fn apply_patch(self, p: UserPatch) -> (r: UserRow)
        ensures
            r == self.patched(p),
    {
        let mut row = self;
        match p.username {
            Some(v) => {
                row.username = v;
            },
            None => {},
        }
        match p.email {
            Some(v) => {
                row.email = v;
            },
            None => {},
        }
        row
    }

    /// Replaces the stored password hash.
    pub fn set_password_hash(self, hash: String) -> (r: UserRow)
        ensures
            r == (UserRow { password_hash: hash, ..self }),
    {
        UserRow { password_hash: hash, ..self }
    }
}

/// Applying the same user update twice leaves the row as applying it once.
pub proof fn lemma_user_patch_idempotent(row: UserRow, p: UserPatch)
    ensures
        row.patched(p).patched(p) == row.patched(p),
{
}

/// Rows that differ only in their password hash project alike: the hash never
/// reaches the wire.
pub proof fn lemma_projection_hides_hash(row: UserRow, hash: String)
    ensures
        project(row) == project(UserRow { password_hash: hash, ..row }),
{
}

/// The id of the user that a uniqueness lookup found. A failed lookup counts
/// as finding none: the store's own constraint then decides the insert.
pub fn lookup_owner(lookup: Result<Option<i32>, String>) -> (r: Option<i32>)
    ensures
        lookup matches Ok(o) ==> r == o,
        lookup is Err ==> r is None,
{
    match lookup {
        Ok(o) => o,
        Err(_) => None,
    }
}

/// The uniqueness precheck of user creation, given the owners of the username
/// and of the email: a taken username, then a taken email, is `409 conflict`.
pub fn create_user_precheck(username_owner: Option<i32>, email_owner: Option<i32>) -> (r: Result<
    (),
    ApiError,
>)
    ensures
        r is Ok <==> username_owner is None && email_owner is None,
        username_owner is Some ==> (r matches Err(ApiError::Conflict(m)) && m@
            == "username already exists"@),
        username_owner is None && email_owner is Some ==> (r matches Err(ApiError::Conflict(m))
            && m@ == "email already exists"@),
{
    if username_owner.is_some() {
        return Err(ApiError::Conflict("username already exists".to_owned()));
    }
    if email_owner.is_some() {
        return Err(ApiError::Conflict("email already exists".to_owned()));
    }
    Ok(())
}

/// The uniqueness precheck of a user update to user `id`: an email that
/// another user owns is `409 conflict`.
pub fn patch_email_precheck(id: i32, email_owner: Option<i32>) -> (r: Result<(), ApiError>)
    ensures
        r is Err <==> (email_owner matches Some(o) && o != id),
        r is Err ==> (r matches Err(ApiError::Conflict(m)) && m@ == "email already exists"@),
{
    match email_owner {
        Some(o) => {
            if o != id {
                return Err(ApiError::Conflict("email already exists".to_owned()));
            }
            Ok(())
        },
        None => Ok(()),
    }
}

} // verus!
