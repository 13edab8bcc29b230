pub mod check_module_access;
pub mod complete_module;
pub mod does_course_exist;
pub mod get_attachment;
pub mod get_module_attachments;
pub mod get_my_formation_modules;
pub mod get_my_formations;
pub mod is_enrolled;
