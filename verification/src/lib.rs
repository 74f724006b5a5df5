//! Verified core of the Ore Dock CMMS service: the domain model of assets,
//! work orders, users, roles, vendors and notifications, the rules that
//! govern their life cycles, and their encoding as DynamoDB items.
pub mod error;
pub mod text;
pub mod numeric;
pub mod time;
pub mod item;
pub mod fields;
pub mod decimal;
pub mod json;
pub mod strlist;
pub mod pattern;
pub mod ieee;
pub mod tables;
pub mod config;
pub mod store;

pub use error::{AppError, build};
pub mod models;
