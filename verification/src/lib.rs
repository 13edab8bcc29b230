//! E-learning back end of the Mairie 360 platform: the query descriptions that
//! the handlers send to the database, the rows that come back, the payloads
//! that the API returns, and the decisions that each handler takes between
//! two database round trips.
pub mod database;
pub mod endpoints;
pub mod model;
pub mod timestamp;
