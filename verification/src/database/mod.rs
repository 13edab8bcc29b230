//! Query descriptions sent to the database and the rows that it answers.
pub mod admin;
pub mod formations;
pub mod query;
