//! What storage adapters share: the reading of stored columns.
pub mod quota_pg;
