//! Assets: request shapes, the stored row, and how requests become inserts
//! and partial updates.

use vstd::prelude::*;
use crate::decimal::{decimal_of, denotes, parse_decimal, parse_optional_decimal, rejects, Dec};
use crate::error::ApiError;

verus! {

/// A holding as stored. Timestamps are RFC 3339 text.
#[derive(Debug, PartialEq, Eq)]
pub struct AssetRow {
    pub id: i32,
    pub user_id: i32,
    pub symbol: String,
    pub name: String,
    pub quantity: Dec,
    pub avg_price: Dec,
    pub asset_type: String,
    pub created_at: String,
    pub updated_at: String,
}

/// Body of `POST /api/assets`; quantity and average price are decimal text.
#[derive(Debug, PartialEq, Eq)]
pub struct CreateAssetReq {
    pub user_id: i32,
    pub symbol: String,
    pub name: String,
    pub quantity: String,
    pub avg_price: String,
    pub asset_type: String,
}

/// Body of `PATCH /api/assets/{id}`: absent fields are left as they are.
#[derive(Debug, PartialEq, Eq)]
pub struct UpdateAssetReq {
    pub name: Option<String>,
    pub quantity: Option<String>,
    pub avg_price: Option<String>,
    pub asset_type: Option<String>,
}

/// Query of `GET /api/assets`.
#[derive(Debug, PartialEq, Eq)]
pub struct AssetsQuery {
    pub user_id: i32,
}

/// The fields of an asset to insert.
#[derive(Debug, PartialEq, Eq)]
pub struct NewAsset {
    pub user_id: i32,
    pub symbol: String,
    pub name: String,
    pub quantity: Dec,
    pub avg_price: Dec,
    pub asset_type: String,
}

/// The changes of an asset update; `None` leaves a field as it is.
#[derive(Debug, PartialEq, Eq)]
pub struct AssetPatch {
    pub name: Option<String>,
    pub quantity: Option<Dec>,
    pub avg_price: Option<Dec>,
    pub asset_type: Option<String>,
}

impl CreateAssetReq {
    /// The insert this request asks for; a malformed quantity, else a malformed
    /// average price, is `400 bad_request`.
    pub fn prepare(self) -> (r: Result<NewAsset, ApiError>)
        ensures
            r is Ok <==> decimal_of(self.quantity@) is Ok && decimal_of(self.avg_price@) is Ok,
            r matches Ok(n) ==> {
                &&& n.user_id == self.user_id
                &&& n.symbol == self.symbol
                &&& n.name == self.name
                &&& denotes(self.quantity@, n.quantity)
                &&& denotes(self.avg_price@, n.avg_price)
                &&& n.asset_type == self.asset_type
            },
            r matches Err(e) ==> if decimal_of(self.quantity@) is Err {
                rejects(self.quantity@, e)
            } else {
                rejects(self.avg_price@, e)
            },
    {
        let quantity = match parse_decimal(self.quantity.as_str()) {
            Ok(d) => d,
            Err(e) => {
                return Err(e);
            },
        };
        let avg_price = match parse_decimal(self.avg_price.as_str()) {
            Ok(d) => d,
            Err(e) => {
                return Err(e);
            },
        };
        Ok(
            NewAsset {
                user_id: self.user_id,
                symbol: self.symbol,
                name: self.name,
                quantity,
                avg_price,
                asset_type: self.asset_type,
            },
        )
    }
}

/// Whether an optional decimal text is absent or reads as a decimal.
pub open spec fn reads_or_absent(s: Option<String>) -> bool {
    match s {
        Some(t) => decimal_of(t@) is Ok,
        None => true,
    }
}

/// Whether `o` is what the optional decimal text `s` gives.
pub open spec fn optional_denotes(s: Option<String>, o: Option<Dec>) -> bool {
    match s {
        Some(t) => o matches Some(d) && denotes(t@, d),
        None => o is None,
    }
}

impl UpdateAssetReq {
    /// The update this request asks for; a malformed quantity, else a malformed
    /// average price, is `400 bad_request`.
    pub fn prepare(self) -> (r: Result<AssetPatch, ApiError>)
        ensures
            r is Ok <==> reads_or_absent(self.quantity) && reads_or_absent(self.avg_price),
            r matches Ok(p) ==> {
                &&& p.name == self.name
                &&& optional_denotes(self.quantity, p.quantity)
                &&& optional_denotes(self.avg_price, p.avg_price)
                &&& p.asset_type == self.asset_type
            },
            r matches Err(e) ==> if !reads_or_absent(self.quantity) {
                rejects(self.quantity->Some_0@, e)
            } else {
                rejects(self.avg_price->Some_0@, e)
            },
    {
        let quantity = match parse_optional_decimal(self.quantity) {
            Ok(q) => q,
            Err(e) => {
                return Err(e);
            },
        };
        let avg_price = match parse_optional_decimal(self.avg_price) {
            Ok(a) => a,
            Err(e) => {
                return Err(e);
            },
        };
        Ok(AssetPatch { name: self.name, quantity, avg_price, asset_type: self.asset_type })
    }
}

impl AssetRow {
    /// The row after `p`: each given field replaces the stored one.
    pub open spec fn patched(self, p: AssetPatch) -> AssetRow {
        AssetRow {
            name: match p.name {
                Some(v) => v,
                None => self.name,
            },
            quantity: match p.quantity {
                Some(v) => v,
                None => self.quantity,
            },
            avg_price: match p.avg_price {
                Some(v) => v,
                None => self.avg_price,
            },
            asset_type: match p.asset_type {
                Some(v) => v,
                None => self.asset_type,
            },
            ..self
        }
    }

    /// Applies `p` to the row.
    pub fn apply_patch(self, p: AssetPatch) -> (r: AssetRow)
        ensures
            r == self.patched(p),
    {
        let mut row = self;
        match p.name {
            Some(v) => {
                row.name = v;
            },
            None => {},
        }
        match p.quantity {
            Some(v) => {
                row.quantity = v;
            },
            None => {},
        }
        match p.avg_price {
            Some(v) => {
                row.avg_price = v;
            },
            None => {},
        }
        match p.asset_type {
            Some(v) => {
                row.asset_type = v;
            },
            None => {},
        }
        row
    }
}

/// Applying the same asset update twice leaves the row as applying it once.
pub proof fn lemma_asset_patch_idempotent(row: AssetRow, p: AssetPatch)
    ensures
        row.patched(p).patched(p) == row.patched(p),
{
}

} // verus!
