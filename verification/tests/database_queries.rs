use elearning::database::admin::formations::get_formation_modules::view::{
    GetFormationModulesQueryView, GET_FORMATION_MODULES_SQL,
};
use elearning::database::admin::formations::get_formations::view::{
    GetFormationsQueryView, GET_FORMATIONS_SQL,
};
use elearning::database::admin::formations::register_user_to_formation::view::{
    RegisterUserToFormationQueryView, REGISTER_USER_TO_FORMATION_SQL,
};
use elearning::database::admin::users::get_user_formation::view::GetUserFormationQueryView;
use elearning::database::admin::users::get_user_formations::view::GetUserFormationsQueryView;
use elearning::database::admin::users::get_users::view::{GetUsersQueryView, GET_USERS_SQL};
use elearning::database::admin::users::unsub_user_formation::view::{
    UnsubUserFormationQueryView, UNSUB_USER_FORMATION_SQL,
};
use elearning::database::formations::check_module_access::view::CheckModuleAccessQueryView;
use elearning::database::formations::complete_module::view::CompleteModuleQueryView;
use elearning::database::formations::does_course_exist::view::{
    DoesCourseExistQueryView, DOES_COURSE_EXIST_SQL,
};
use elearning::database::formations::get_attachment::view::GetAttachmentQueryView;
use elearning::database::formations::get_module_attachments::view::GetModuleAttachmentsQueryView;
use elearning::database::formations::get_my_formation_modules::view::GetMyFormationModulesQueryView;
use elearning::database::formations::get_my_formations::view::GetMyFormationsQueryView;
use elearning::database::formations::is_enrolled::view::{IsEnrolledQueryView, IS_ENROLLED_SQL};
use elearning::database::query::QueryParam;

#[test]
fn formation_modules_query_sends_course_then_details() {
    let q = GetFormationModulesQueryView::new(4, true);
    assert_eq!(q.query_params(), &[QueryParam::I32(4), QueryParam::Bool(true)][..]);
    assert_eq!(q.formation_id(), 4);
    assert!(q.details());
    assert_eq!(q.query_sql(), GET_FORMATION_MODULES_SQL);
    assert!(q.query_sql().contains("WHERE cm.course_id = $1"));
}

#[test]
fn formations_query_sends_details_only() {
    let q = GetFormationsQueryView::new(false);
    assert_eq!(q.query_params(), &[QueryParam::Bool(false)][..]);
    assert!(!q.details());
    assert_eq!(q.query_sql(), GET_FORMATIONS_SQL);
}

#[test]
fn register_query_sends_user_then_course() {
    let q = RegisterUserToFormationQueryView::new(42, 4);
    assert_eq!(q.query_params(), &[QueryParam::I32(42), QueryParam::I32(4)][..]);
    assert_eq!(q.user_id(), 42);
    assert_eq!(q.formation_id(), 4);
    assert_eq!(q.query_sql(), REGISTER_USER_TO_FORMATION_SQL);
    assert!(q.query_sql().contains("ON CONFLICT (user_id, course_id) DO NOTHING"));
}

#[test]
fn user_formation_query_sends_course_user_details() {
    let q = GetUserFormationQueryView::new(4, 42, true);
    assert_eq!(
        q.query_params(),
        &[QueryParam::I32(4), QueryParam::I32(42), QueryParam::Bool(true)][..]
    );
    assert_eq!(q.formation_id(), 4);
    assert_eq!(q.user_id(), 42);
    assert!(q.details());
}

#[test]
fn user_formations_query_sends_user_then_details() {
    let q = GetUserFormationsQueryView::new(42, false);
    assert_eq!(q.query_params(), &[QueryParam::I32(42), QueryParam::Bool(false)][..]);
    assert_eq!(q.user_id(), 42);
    assert!(!q.details());
}

#[test]
fn users_query_has_no_parameter() {
    let q = GetUsersQueryView::new();
    assert!(q.query_params().is_empty());
    assert_eq!(q.query_sql(), GET_USERS_SQL);
    let d = GetUsersQueryView::default();
    assert!(d.query_params().is_empty());
}

#[test]
fn unsub_query_sends_user_then_course() {
    let q = UnsubUserFormationQueryView::new(42, 4);
    assert_eq!(q.query_params(), &[QueryParam::I32(42), QueryParam::I32(4)][..]);
    assert_eq!(q.user_id(), 42);
    assert_eq!(q.formation_id(), 4);
    assert_eq!(q.query_sql(), UNSUB_USER_FORMATION_SQL);
}

#[test]
fn module_access_query_sends_user_course_module() {
    let q = CheckModuleAccessQueryView::new(42, 4, 11);
    assert_eq!(
        q.query_params(),
        &[QueryParam::I32(42), QueryParam::I32(4), QueryParam::I32(11)][..]
    );
    assert_eq!(q.user_id(), 42);
    assert_eq!(q.formation_id(), 4);
    assert_eq!(q.module_id(), 11);
}

#[test]
fn complete_module_query_sends_user_then_module() {
    let q = CompleteModuleQueryView::new(42, 11);
    assert_eq!(q.query_params(), &[QueryParam::I32(42), QueryParam::I32(11)][..]);
    assert_eq!(q.user_id(), 42);
    assert_eq!(q.module_id(), 11);
}

#[test]
fn course_existence_query_sends_course() {
    let q = DoesCourseExistQueryView::new(4);
    assert_eq!(q.query_params(), &[QueryParam::I32(4)][..]);
    assert_eq!(q.course_id(), 4);
    assert_eq!(q.query_sql(), DOES_COURSE_EXIST_SQL);
}

#[test]
fn attachment_query_sends_attachment_module_course() {
    let q = GetAttachmentQueryView::new(4, 11, 31);
    assert_eq!(
        q.query_params(),
        &[QueryParam::I32(31), QueryParam::I32(11), QueryParam::I32(4)][..]
    );
    assert_eq!(q.formation_id(), 4);
    assert_eq!(q.module_id(), 11);
    assert_eq!(q.attachment_id(), 31);
}

#[test]
fn module_attachments_query_sends_module_then_course() {
    let q = GetModuleAttachmentsQueryView::new(4, 11);
    assert_eq!(q.query_params(), &[QueryParam::I32(11), QueryParam::I32(4)][..]);
    assert_eq!(q.formation_id(), 4);
    assert_eq!(q.module_id(), 11);
}

#[test]
fn my_formation_modules_query_sends_course_then_user() {
    let q = GetMyFormationModulesQueryView::new(4, 42);
    assert_eq!(q.query_params(), &[QueryParam::I32(4), QueryParam::I32(42)][..]);
    assert_eq!(q.formation_id(), 4);
    assert_eq!(q.user_id(), 42);
}

#[test]
fn my_formations_query_sends_user() {
    let q = GetMyFormationsQueryView::new(42);
    assert_eq!(q.query_params(), &[QueryParam::I32(42)][..]);
    assert_eq!(q.user_id(), 42);
}

#[test]
fn enrolment_query_sends_user_then_course() {
    let q = IsEnrolledQueryView::new(42, 4);
    assert_eq!(q.query_params(), &[QueryParam::I32(42), QueryParam::I32(4)][..]);
    assert_eq!(q.user_id(), 42);
    assert_eq!(q.formation_id(), 4);
    assert_eq!(q.query_sql(), IS_ENROLLED_SQL);
}

#[test]
fn largest_i32_id_round_trips() {
    let max = i32::MAX as u64;
    let q = DoesCourseExistQueryView::new(max);
    assert_eq!(q.course_id(), max);
}

#[test]
fn id_beyond_i32_does_not_round_trip() {
    // Only the low 32 bits are sent, read as a signed integer.
    let q = DoesCourseExistQueryView::new(1u64 << 31);
    assert_eq!(q.query_params(), &[QueryParam::I32(i32::MIN)][..]);
    assert_eq!(q.course_id(), 18446744071562067968);
    let q = DoesCourseExistQueryView::new((1u64 << 32) + 7);
    assert_eq!(q.course_id(), 7);
}

#[test]
fn query_param_accessors() {
    assert_eq!(QueryParam::I32(-3).as_i32(), -3);
    assert!(QueryParam::Bool(true).as_bool());
}

#[test]
fn query_param_accessors_on_the_other_variant() {
    assert_eq!(QueryParam::Bool(true).as_i32(), 0);
    assert!(!QueryParam::I32(7).as_bool());
}

#[test]
fn details_never_gives_null_lists() {
    assert!(GET_FORMATIONS_SQL.contains("CASE WHEN $1 THEN COALESCE(("));
    assert!(GET_FORMATIONS_SQL.contains("), '[]'::json) END AS modules"));
    assert!(GET_FORMATION_MODULES_SQL.contains("), '[]'::json) END AS content"));
}
