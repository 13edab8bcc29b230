pub mod formations;
pub mod users;
