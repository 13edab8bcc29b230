pub mod get_formation_modules;
pub mod get_formations;
pub mod register_user_to_formation;
