//! Orchestration of multipart object uploads, with the small string helpers
//! used by endpoint rules.

pub mod context;
pub mod diagnostic;
pub mod error;
pub mod handle;
pub mod plan;
pub mod response;
pub mod substring;
pub mod text;
