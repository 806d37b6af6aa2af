//! Request validation, authentication decisions and record updates for a
//! personal finance backend.

pub mod accounts;
pub mod assets;
pub mod auth;
pub mod config;
pub mod decimal;
pub mod error;
pub mod text;
pub mod transactions;
pub mod users;
