//! Document routes of a search service: which handler a request reaches, what
//! each handler asks of the indexing backend, and what it answers.
//!
//! The functions here decide; performing the backend call and moving bytes is
//! left to the caller, which hands the outcome back.

pub mod text;
pub mod query;
pub mod routes;
pub mod update;
pub mod json;
pub mod response;
pub mod handlers;
pub mod window;
pub mod stream;
pub mod params;
