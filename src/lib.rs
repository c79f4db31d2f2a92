//! Typed builders for search-engine queries, rendered to their nested JSON wire form.
pub mod bool_query;
pub mod json;
pub mod laws;
pub mod params;
pub mod query;
pub mod scalar;
pub mod skip;
pub mod term_query;
