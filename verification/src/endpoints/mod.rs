//! The HTTP API: its payloads and what each handler decides.
pub mod v1;
