use elearning::database::admin::users::get_user_formation::view as one_course;
use elearning::database::admin::users::get_user_formations::view::{
    UserFormationModuleRow, UserFormationRow, UserModuleContentRow,
};
use elearning::database::admin::users::get_users::view::UserRow;
use elearning::database::query::{DbFailure, QueryParam};
use elearning::endpoints::v1::admin::users::get::endpoint::{
    map_user, trigger_get_users, GetUsersError,
};
use elearning::endpoints::v1::admin::users::id::get::view::GetUserByIdResultView;
use elearning::endpoints::v1::admin::users::id::id::AdminUserFormationIdParams;
use elearning::endpoints::v1::admin::users::id::AdminUserIdParams;
use elearning::endpoints::v1::admin::users::user_id::formation_id::delete::endpoint::{
    on_unsubscribed, trigger_unsub_formation, UnsubFormationError,
};
use elearning::endpoints::v1::admin::users::user_id::formation_id::get::endpoint::{
    trigger_get_user_formation, GetUserFormationError, GetUserFormationFlow,
};
use elearning::endpoints::v1::admin::users::user_id::formation_id::get::view::GetUserFormation;
use elearning::endpoints::v1::admin::users::user_id::get::endpoint::{
    map_content, map_formation, map_module, trigger_get_user, GetUserFormationsError,
};
use elearning::endpoints::v1::admin::users::{
    ProgressStatus, UsersFormation, UsersFormationModule, UsersModuleContent,
};
use elearning::timestamp::{NaiveTimestamp, UtcTimestamp};

#[test]
fn progress_status_names() {
    assert!(matches!(ProgressStatus::from("not_started".to_string()), ProgressStatus::NotStarted));
    assert!(matches!(ProgressStatus::from("in_progress".to_string()), ProgressStatus::InProgress));
    assert!(matches!(ProgressStatus::from("completed".to_string()), ProgressStatus::Completed));
    assert!(matches!(ProgressStatus::from("Completed".to_string()), ProgressStatus::Error));
    assert!(matches!(ProgressStatus::from(String::new()), ProgressStatus::Error));
}

#[test]
fn user_row_maps_to_payload() {
    let u = map_user(&UserRow::new(42, "Jean Dupont".to_string()));
    assert_eq!(u.id, 42);
    assert_eq!(u.name, "Jean Dupont");
}

#[test]
fn users_keep_order() {
    let view = trigger_get_users(Ok(vec![
        UserRow::new(42, "Jean Dupont".to_string()),
        UserRow::new(51, "Amina Bensaid".to_string()),
    ]))
    .unwrap();
    assert_eq!(view.users.len(), 2);
    assert_eq!(view.users[1].id, 51);
    assert_eq!(view.users[1].name, "Amina Bensaid");
    let e = trigger_get_users(Err(DbFailure)).unwrap_err();
    assert_eq!(e, GetUsersError::DatabaseError);
    assert_eq!(e.status_code(), 500);
    assert_eq!(e.to_string(), "An error occurred while accessing the database.");
}

#[test]
fn attachments_carry_no_finished_at() {
    let c = map_content(&UserModuleContentRow::new(31, "a.pdf".to_string(), "pdf".to_string()));
    assert_eq!(c.id(), 31);
    assert_eq!(c.file_name(), "a.pdf");
    assert_eq!(c.file_type(), "pdf");
    assert_eq!(*c.finished_at(), None);
}

#[test]
fn module_completion_is_read_in_utc() {
    let done = NaiveTimestamp { secs: 1_788_445_500, nanos: 0 };
    let row = UserFormationModuleRow::new(
        11,
        "Les principes".to_string(),
        None,
        vec![UserModuleContentRow::new(31, "a.pdf".to_string(), "pdf".to_string())],
        true,
        Some(done),
    );
    let m = map_module(&row);
    assert_eq!(m.id(), 11);
    assert_eq!(m.description(), "");
    assert!(m.is_completed());
    assert_eq!(*m.completed_at(), Some(UtcTimestamp { secs: 1_788_445_500, nanos: 0 }));
    assert_eq!(m.content().len(), 1);
    assert_eq!(m.content()[0].id(), 31);
}

#[test]
fn registration_maps_dates_and_status() {
    let started = NaiveTimestamp { secs: 1_788_337_800, nanos: 0 };
    let row = UserFormationRow::new(
        4,
        "RGPD".to_string(),
        Some("Obligations".to_string()),
        Some(started),
        None,
        "in_progress".to_string(),
        None,
    );
    let f = map_formation(&row);
    assert_eq!(f.id(), 4);
    assert_eq!(f.name(), "RGPD");
    assert_eq!(f.description(), "Obligations");
    assert!(f.modules().is_none());
    assert_eq!(*f.started_at(), Some(UtcTimestamp { secs: 1_788_337_800, nanos: 0 }));
    assert_eq!(*f.completed_at(), None);
    assert!(matches!(f.progress_status(), ProgressStatus::InProgress));
}

#[test]
fn unknown_user_gives_empty_list() {
    let view = trigger_get_user(Ok(vec![])).unwrap();
    assert!(view.formations.is_empty());
    let e = trigger_get_user(Err(DbFailure)).unwrap_err();
    assert_eq!(e, GetUserFormationsError::DatabaseError);
    assert_eq!(e.status_code(), 500);
    assert_eq!(GetUserFormationsError::BadRequest.status_code(), 400);
    assert_eq!(GetUserFormationsError::BadRequest.to_string(), "Bad request");
}

#[test]
fn user_registrations_keep_nested_modules() {
    let module = UserFormationModuleRow::new(11, "M".to_string(), Some("d".to_string()), vec![], false, None);
    let rows = vec![
        UserFormationRow::new(4, "A".to_string(), None, None, None, "not_started".to_string(), Some(vec![module])),
        UserFormationRow::new(9, "B".to_string(), None, None, None, "weird".to_string(), Some(vec![])),
    ];
    let view = trigger_get_user(Ok(rows)).unwrap();
    assert_eq!(view.formations.len(), 2);
    let modules = view.formations[0].modules().as_ref().unwrap();
    assert_eq!(modules[0].description(), "d");
    assert!(modules[0].content().is_empty());
    assert!(matches!(view.formations[0].progress_status(), ProgressStatus::NotStarted));
    assert!(view.formations[1].modules().as_ref().unwrap().is_empty());
    assert!(matches!(view.formations[1].progress_status(), ProgressStatus::Error));
}

#[test]
fn user_formation_checks_the_course_first() {
    let flow = GetUserFormationFlow::new(4, 42, true);
    assert_eq!(flow.course_query().query_params(), &[QueryParam::I32(4)][..]);
    let q = flow.on_course_checked(Ok(true)).unwrap();
    assert_eq!(
        q.query_params(),
        &[QueryParam::I32(4), QueryParam::I32(42), QueryParam::Bool(true)][..]
    );
}

#[test]
fn user_formation_unknown_course() {
    let e = GetUserFormationFlow::new(4, 42, false).on_course_checked(Ok(false)).unwrap_err();
    assert_eq!(e, GetUserFormationError::UnknowModule);
    assert_eq!(e.status_code(), 404);
    assert_eq!(e.to_string(), "Module not found.");
    let e = GetUserFormationFlow::new(4, 42, false).on_course_checked(Err(DbFailure)).unwrap_err();
    assert_eq!(e, GetUserFormationError::DatabaseError);
    assert_eq!(e.status_code(), 500);
}

#[test]
fn user_formation_maps_modules() {
    let rows = vec![one_course::UserFormationModuleRow::new(
        11,
        "M".to_string(),
        None,
        vec![one_course::UserModuleContentRow::new(31, "a.pdf".to_string(), "pdf".to_string())],
        false,
        None,
    )];
    let view = trigger_get_user_formation(Ok(rows)).unwrap();
    assert_eq!(view.modules().len(), 1);
    assert!(!view.modules[0].is_completed());
    assert_eq!(*view.modules[0].completed_at(), None);
    assert_eq!(view.modules[0].content()[0].file_name(), "a.pdf");
    assert_eq!(
        trigger_get_user_formation(Err(DbFailure)).unwrap_err(),
        GetUserFormationError::DatabaseError
    );
}

#[test]
fn unsubscribe_sends_user_then_course() {
    let q = trigger_unsub_formation(4, 42);
    assert_eq!(q.query_params(), &[QueryParam::I32(42), QueryParam::I32(4)][..]);
    assert_eq!(on_unsubscribed(Ok(())), Ok(()));
    let e = on_unsubscribed(Err(DbFailure)).unwrap_err();
    assert_eq!(e, UnsubFormationError::DatabaseError);
    assert_eq!(e.status_code(), 500);
    assert_eq!(UnsubFormationError::UnknownFormations.status_code(), 400);
    assert_eq!(UnsubFormationError::UnknownFormations.to_string(), "Unknown formations.");
}

#[test]
fn users_payload_constructors_keep_their_fields() {
    let at = Some(UtcTimestamp { secs: 1, nanos: 2 });
    let c = UsersModuleContent::new(31, "a.pdf", "pdf", at);
    assert_eq!(*c.finished_at(), at);
    let m = UsersFormationModule::new(11, "M", "D", vec![c], true, None);
    assert_eq!(m.name(), "M");
    assert_eq!(m.content().len(), 1);
    let f = UsersFormation::new(4, "F", "D", Some(vec![m]), at, None, ProgressStatus::Completed);
    assert_eq!(f.name(), "F");
    assert_eq!(f.description(), "D");
    assert!(matches!(f.progress_status(), ProgressStatus::Completed));
    let by_id = GetUserByIdResultView::new(vec![f]);
    assert_eq!(by_id.formations().len(), 1);
    let g = GetUserFormation::new(vec![]);
    assert!(g.modules().is_empty());
}

#[test]
fn path_parameters_give_back_their_values() {
    assert_eq!(AdminUserIdParams::new(42).user_id(), 42);
    let p = AdminUserFormationIdParams::new(42, 4);
    assert_eq!(p.user_id(), 42);
    assert_eq!(p.formation_id(), 4);
    let p = elearning::endpoints::v1::admin::users::user_id::formation_id::AdminUserFormationIdParams::new(1, 2);
    assert_eq!(p.user_id(), 1);
    assert_eq!(p.formation_id(), 2);
    assert_eq!(elearning::endpoints::v1::admin::users::user_id::AdminUserIdParams::new(3).user_id(), 3);
}
