//! Transactions: request shapes, the stored row, and how requests become
//! inserts and partial updates.

use vstd::prelude::*;
use crate::decimal::{decimal_of, denotes, parse_decimal, parse_optional_decimal, rejects, Dec};
use crate::error::ApiError;

verus! {

/// A transaction as stored. `created_at` is RFC 3339 text.
#[derive(Debug, PartialEq, Eq)]
pub struct TransactionRow {
    pub id: i32,
    pub account_id: i32,
    pub transaction_type: String,
    pub amount: Dec,
    pub description: String,
    pub category: Option<String>,
    pub created_at: String,
}

/// Body of `POST /api/transactions`; the amount is decimal text.
#[derive(Debug, PartialEq, Eq)]
pub struct CreateTransactionReq {
    pub account_id: i32,
    pub transaction_type: String,
    pub amount: String,
    pub description: String,
    pub category: Option<String>,
}

/// Body of `PATCH /api/transactions/{id}`: absent fields are left as they
/// are, and a category cannot be cleared.
#[derive(Debug, PartialEq, Eq)]
pub struct UpdateTransactionReq {
    pub transaction_type: Option<String>,
    pub amount: Option<String>,
    pub description: Option<String>,
    pub category: Option<String>,
}

/// Query of `GET /api/transactions`.
#[derive(Debug, PartialEq, Eq)]
pub struct TransactionsQuery {
    pub account_id: i32,
}

/// The fields of a transaction to insert.
#[derive(Debug, PartialEq, Eq)]
pub struct NewTransaction {
    pub account_id: i32,
    pub transaction_type: String,
    pub amount: Dec,
    pub description: String,
    pub category: Option<String>,
}

/// The changes of a transaction update; `None` leaves a field as it is, and a
/// given category is set.
#[derive(Debug, PartialEq, Eq)]
pub struct TransactionPatch {
    pub transaction_type: Option<String>,
    pub amount: Option<Dec>,
    pub description: Option<String>,
    pub category: Option<String>,
}

impl CreateTransactionReq {
    /// The insert this request asks for; a malformed amount is `400 bad_request`.
    pub fn prepare(self) -> (r: Result<NewTransaction, ApiError>)
        ensures
            r is Ok <==> decimal_of(self.amount@) is Ok,
            r matches Ok(n) ==> {
                &&& n.account_id == self.account_id
                &&& n.transaction_type == self.transaction_type
                &&& denotes(self.amount@, n.amount)
                &&& n.description == self.description
                &&& n.category == self.category
            },
            r matches Err(e) ==> rejects(self.amount@, e),
    {
        let amount = match parse_decimal(self.amount.as_str()) {
            Ok(d) => d,
            Err(e) => {
                return Err(e);
            },
        };
        Ok(
            NewTransaction {
                account_id: self.account_id,
                transaction_type: self.transaction_type,
                amount,
                description: self.description,
                category: self.category,
            },
        )
    }
}

impl UpdateTransactionReq {
    /// The update this request asks for; a malformed amount is `400 bad_request`.
    pub fn prepare(self) -> (r: Result<TransactionPatch, ApiError>)
        ensures
            self.amount matches Some(t) ==> (r is Ok <==> decimal_of(t@) is Ok),
            self.amount is None ==> r is Ok,
            r matches Ok(p) ==> {
                &&& p.transaction_type == self.transaction_type
                &&& p.description == self.description
                &&& p.category == self.category
                &&& (self.amount is None ==> p.amount is None)
                &&& (self.amount matches Some(t) ==> (p.amount matches Some(d) && denotes(t@, d)))
            },
            r matches Err(e) ==> (self.amount matches Some(t) && rejects(t@, e)),
    {
        let amount = match parse_optional_decimal(self.amount) {
            Ok(a) => a,
            Err(e) => {
                return Err(e);
            },
        };
        Ok(
            TransactionPatch {
                transaction_type: self.transaction_type,
                amount,
                description: self.description,
                category: self.category,
            },
        )
    }
}

impl TransactionRow {
    /// The row after `p`: each given field replaces the stored one; a given
    /// category becomes the category, an absent one keeps the stored one.
    pub open spec fn patched(self, p: TransactionPatch) -> TransactionRow {
        TransactionRow {
            transaction_type: match p.transaction_type {
                Some(v) => v,
                None => self.transaction_type,
            },
            amount: match p.amount {
                Some(v) => v,
                None => self.amount,
            },
            description: match p.description {
                Some(v) => v,
                None => self.description,
            },
            category: match p.category {
                Some(v) => Some(v),
                None => self.category,
            },
            ..self
        }
    }

    /// Applies `p` to the row.
    pub fn apply_patch(self, p: TransactionPatch) -> (r: TransactionRow)
        ensures
            r == self.patched(p),
    {
        let mut row = self;
        match p.transaction_type {
            Some(v) => {
                row.transaction_type = v;
            },
            None => {},
        }
        match p.amount {
            Some(v) => {
                row.amount = v;
            },
            None => {},
        }
        match p.description {
            Some(v) => {
                row.description = v;
            },
            None => {},
        }
        match p.category {
            Some(v) => {
                row.category = Some(v);
            },
            None => {},
        }
        row
    }
}

/// Applying the same transaction update twice leaves the row as applying it
/// once.
pub proof fn lemma_transaction_patch_idempotent(row: TransactionRow, p: TransactionPatch)
    ensures
        row.patched(p).patched(p) == row.patched(p),
{
}

} // verus!
