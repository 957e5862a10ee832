//! Client-side logic for talking to an rqlite cluster over its HTTP API:
//! the host registry, the fallback policy that re-routes a request when a
//! host cannot be reached, and the plain-value request and response model.

pub mod batch;
pub mod client;
pub mod column;
pub mod config;
pub mod decode;
pub mod dispatch;
pub mod error;
pub mod fallback;
pub mod field_type;
pub mod node;
pub mod operations;
pub mod query;
pub mod query_result;
pub mod request;
pub mod response;
pub mod row;
pub mod select;
pub mod text;

pub use client::{RqliteClient, RqliteClientBuilder};
pub use column::Column;
pub use error::IntoTypedError;
pub use row::{FromRow, IntoTypedRows, Row};
