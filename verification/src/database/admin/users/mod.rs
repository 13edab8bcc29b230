pub mod get_user_formation;
pub mod get_user_formations;
pub mod get_users;
pub mod unsub_user_formation;
