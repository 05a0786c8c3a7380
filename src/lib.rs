//! Resolution of the effective migration settings: the tracking table and
//! its schema, the characters ignored when hashing migrations, and the
//! authoring defaults inferred from earlier migrations.

pub mod infer;
pub mod laws;
pub mod migrate;
