//! Accounts: request shapes, the stored row, and how requests become inserts
//! and partial updates.

use vstd::prelude::*;
use crate::decimal::{decimal_of, denotes, parse_decimal, parse_optional_decimal, rejects, Dec};
use crate::error::ApiError;

verus! {

/// An account as stored. `created_at` is RFC 3339 text.
#[derive(Debug, PartialEq, Eq)]
pub struct AccountRow {
    pub id: i32,
    pub user_id: i32,
    pub name: String,
    pub account_type: String,
    pub balance: Dec,
    pub currency: String,
    pub created_at: String,
}

/// Body of `POST /api/accounts`; the balance is decimal text.
#[derive(Debug, PartialEq, Eq)]
pub struct CreateAccountReq {
    pub user_id: i32,
    pub name: String,
    pub account_type: String,
    pub balance: String,
    pub currency: String,
}

/// Body of `PATCH /api/accounts/{id}`: absent fields are left as they are.
#[derive(Debug, PartialEq, Eq)]
pub struct UpdateAccountReq {
    pub name: Option<String>,
    pub account_type: Option<String>,
    pub balance: Option<String>,
    pub currency: Option<String>,
}

/// Query of `GET /api/accounts`.
#[derive(Debug, PartialEq, Eq)]
pub struct AccountsQuery {
    pub user_id: i32,
}

/// The fields of an account to insert.
#[derive(Debug, PartialEq, Eq)]
pub struct NewAccount {
    pub user_id: i32,
    pub name: String,
    pub account_type: String,
    pub balance: Dec,
    pub currency: String,
}

/// The changes of an account update; `None` leaves a field as it is.
#[derive(Debug, PartialEq, Eq)]
pub struct AccountPatch {
    pub name: Option<String>,
    pub account_type: Option<String>,
    pub balance: Option<Dec>,
    pub currency: Option<String>,
}

impl CreateAccountReq {
    /// The insert this request asks for; a malformed balance is `400 bad_request`.
    pub fn prepare(self) -> (r: Result<NewAccount, ApiError>)
        ensures
            r is Ok <==> decimal_of(self.balance@) is Ok,
            r matches Ok(n) ==> {
                &&& n.user_id == self.user_id
                &&& n.name == self.name
                &&& n.account_type == self.account_type
                &&& denotes(self.balance@, n.balance)
                &&& n.currency == self.currency
            },
            r matches Err(e) ==> rejects(self.balance@, e),
    {
        let balance = match parse_decimal(self.balance.as_str()) {
            Ok(d) => d,
            Err(e) => {
                return Err(e);
            },
        };
        Ok(
            NewAccount {
                user_id: self.user_id,
                name: self.name,
                account_type: self.account_type,
                balance,
                currency: self.currency,
            },
        )
    }
}

impl UpdateAccountReq {
    /// The update this request asks for; a malformed balance is `400 bad_request`.
    pub fn prepare(self) -> (r: Result<AccountPatch, ApiError>)
        ensures
            self.balance matches Some(t) ==> (r is Ok <==> decimal_of(t@) is Ok),
            self.balance is None ==> r is Ok,
            r matches Ok(p) ==> {
                &&& p.name == self.name
                &&& p.account_type == self.account_type
                &&& p.currency == self.currency
                &&& (self.balance is None ==> p.balance is None)
                &&& (self.balance matches Some(t) ==> (p.balance matches Some(d) && denotes(
                    t@,
                    d,
                )))
            },
            r matches Err(e) ==> (self.balance matches Some(t) && rejects(t@, e)),
    {
        let balance = match parse_optional_decimal(self.balance) {
            Ok(b) => b,
            Err(e) => {
                return Err(e);
            },
        };
        Ok(
            AccountPatch {
                name: self.name,
                account_type: self.account_type,
                balance,
                currency: self.currency,
            },
        )
    }
}

impl AccountRow {
    /// The row after `p`: each given field replaces the stored one.
    pub open spec fn patched(self, p: AccountPatch) -> AccountRow {
        AccountRow {
            name: match p.name {
                Some(v) => v,
                None => self.name,
            },
            account_type: match p.account_type {
                Some(v) => v,
                None => self.account_type,
            },
            balance: match p.balance {
                Some(v) => v,
                None => self.balance,
            },
            currency: match p.currency {
                Some(v) => v,
                None => self.currency,
            },
            ..self
        }
    }

    /// Applies `p` to the row.
    pub fn apply_patch(self, p: AccountPatch) -> (r: AccountRow)
        ensures
            r == self.patched(p),
    {
        let mut row = self;
        match p.name {
            Some(v) => {
                row.name = v;
            },
            None => {},
        }
        match p.account_type {
            Some(v) => {
                row.account_type = v;
            },
            None => {},
        }
        match p.balance {
            Some(v) => {
                row.balance = v;
            },
            None => {},
        }
        match p.currency {
            Some(v) => {
                row.currency = v;
            },
            None => {},
        }
        row
    }
}

/// Applying the same account update twice leaves the row as applying it once.
pub proof fn lemma_account_patch_idempotent(row: AccountRow, p: AccountPatch)
    ensures
        row.patched(p).patched(p) == row.patched(p),
{
}

} // verus!
