use elearning::database::admin::formations::get_formation_modules::view as modules_view;
use elearning::database::admin::formations::get_formations::view::{
    AdminFormationModuleRow, AdminFormationRow, AdminModuleContentRow,
};
use elearning::database::query::{DbFailure, QueryParam};
use elearning::endpoints::v1::admin::formations::formation_id::get::endpoint::{
    trigger_get_formation_by_id, GetFormationByIdError, GetFormationByIdFlow,
};
use elearning::endpoints::v1::admin::formations::formation_id::register::endpoint::{
    on_registered, trigger_register_user_to_formation, RegisterUserToFormationError,
};
use elearning::endpoints::v1::admin::formations::formation_id::register::view::RegisterUserView;
use elearning::endpoints::v1::admin::formations::formation_id::AdminFormationIdParams;
use elearning::endpoints::v1::admin::formations::get::endpoint::{
    map_content, map_formation, map_module, trigger_get_formations, GetFormationsError,
};
use elearning::endpoints::v1::admin::formations::id::get::view::GetFormationByIdResultView;
use elearning::endpoints::v1::admin::formations::{
    AdminFormation, AdminFormationModule, AdminModuleContent,
};
use elearning::endpoints::v1::admin::AdminUserDetailsQuery;

fn content_row(id: i32, name: &str) -> AdminModuleContentRow {
    AdminModuleContentRow::new(id, name.to_string(), "pdf".to_string())
}

#[test]
fn payload_constructors_keep_their_fields() {
    let content = AdminModuleContent::new(31, "a.pdf", "pdf");
    assert_eq!(content.id(), 31);
    assert_eq!(content.file_name(), "a.pdf");
    assert_eq!(content.file_type(), "pdf");
    let module = AdminFormationModule::new(11, "M", "D", Some(vec![content]));
    assert_eq!(module.id(), 11);
    assert_eq!(module.name(), "M");
    assert_eq!(module.description(), "D");
    assert_eq!(module.content().unwrap().len(), 1);
    let formation = AdminFormation::new(4, "F", "", None);
    assert_eq!(formation.id(), 4);
    assert_eq!(formation.name(), "F");
    assert_eq!(formation.description(), "");
    assert!(formation.modules().is_none());
    let view = GetFormationByIdResultView::new(vec![module]);
    assert_eq!(view.formation().len(), 1);
}

#[test]
fn content_row_maps_to_payload() {
    let out = map_content(&content_row(31, "rgpd.pdf"));
    assert_eq!(out.id(), 31);
    assert_eq!(out.file_name(), "rgpd.pdf");
    assert_eq!(out.file_type(), "pdf");
}

#[test]
fn negative_row_id_wraps_in_payload() {
    let out = map_content(&content_row(-1, "x"));
    assert_eq!(out.id(), u64::MAX);
}

#[test]
fn module_without_description_gets_empty_text() {
    let row = AdminFormationModuleRow::new(
        11,
        "Les principes".to_string(),
        None,
        Some(vec![content_row(31, "a.pdf"), content_row(32, "b.mp4")]),
    );
    let out = map_module(&row);
    assert_eq!(out.id(), 11);
    assert_eq!(out.name(), "Les principes");
    assert_eq!(out.description(), "");
    let content = out.content().unwrap();
    assert_eq!(content.len(), 2);
    assert_eq!(content[0].id(), 31);
    assert_eq!(content[1].file_name(), "b.mp4");
}

#[test]
fn details_not_asked_stays_null_not_empty() {
    let formation = AdminFormationRow::new(9, "Accueil".to_string(), None, None);
    assert!(map_formation(&formation).modules().is_none());
    let empty = AdminFormationRow::new(9, "Accueil".to_string(), None, Some(vec![]));
    assert_eq!(map_formation(&empty).modules().unwrap().len(), 0);
    let module = AdminFormationModuleRow::new(11, "M".to_string(), Some("D".to_string()), None);
    assert!(map_module(&module).content().is_none());
}

#[test]
fn catalogue_keeps_order_and_nesting() {
    let module = AdminFormationModuleRow::new(
        11,
        "M".to_string(),
        Some("D".to_string()),
        Some(vec![content_row(31, "a.pdf")]),
    );
    let rows = vec![
        AdminFormationRow::new(
            4,
            "RGPD".to_string(),
            Some("Obligations".to_string()),
            Some(vec![module]),
        ),
        AdminFormationRow::new(9, "Accueil".to_string(), None, None),
    ];
    let view = trigger_get_formations(Ok(rows)).unwrap();
    assert_eq!(view.formations.len(), 2);
    assert_eq!(view.formations[0].id(), 4);
    assert_eq!(view.formations[0].description(), "Obligations");
    let modules = view.formations[0].modules().unwrap();
    assert_eq!(modules[0].description(), "D");
    assert_eq!(modules[0].content().unwrap()[0].file_name(), "a.pdf");
    assert_eq!(view.formations[1].id(), 9);
    assert_eq!(view.formations[1].description(), "");
}

#[test]
fn catalogue_database_failure() {
    assert_eq!(trigger_get_formations(Err(DbFailure)).unwrap_err(), GetFormationsError::DatabaseError);
    let e = GetFormationsError::DatabaseError;
    assert_eq!(e.status_code(), 500);
    assert_eq!(e.to_string(), "An error occurred while accessing the database.");
}

#[test]
fn formation_by_id_checks_the_course_first() {
    let flow = GetFormationByIdFlow::new(4, true);
    assert_eq!(flow.course_query().query_params(), &[QueryParam::I32(4)][..]);
    let next = flow.on_course_checked(Ok(true)).unwrap();
    assert_eq!(next.query_params(), &[QueryParam::I32(4), QueryParam::Bool(true)][..]);
}

#[test]
fn formation_by_id_unknown_course_is_not_found() {
    let e = GetFormationByIdFlow::new(4, false).on_course_checked(Ok(false)).unwrap_err();
    assert_eq!(e, GetFormationByIdError::NotFound);
    assert_eq!(e.status_code(), 404);
    assert_eq!(e.to_string(), "The formation was not found.");
    let e = GetFormationByIdFlow::new(4, false).on_course_checked(Err(DbFailure)).unwrap_err();
    assert_eq!(e, GetFormationByIdError::DatabaseError);
    assert_eq!(e.status_code(), 500);
    assert_eq!(GetFormationByIdError::BadRequest.status_code(), 400);
    assert_eq!(GetFormationByIdError::BadRequest.to_string(), "Bad request.");
}

#[test]
fn formation_by_id_maps_modules() {
    let rows = vec![
        modules_view::AdminFormationModuleRow::new(12, "B".to_string(), None, None),
        modules_view::AdminFormationModuleRow::new(
            11,
            "A".to_string(),
            Some("d".to_string()),
            Some(vec![modules_view::AdminModuleContentRow::new(
                31,
                "a.pdf".to_string(),
                "pdf".to_string(),
            )]),
        ),
    ];
    let view = trigger_get_formation_by_id(Ok(rows)).unwrap();
    assert_eq!(view.modules.len(), 2);
    assert_eq!(view.modules[0].id(), 12);
    assert!(view.modules[0].content().is_none());
    assert_eq!(view.modules[1].content().unwrap()[0].id(), 31);
    assert_eq!(
        trigger_get_formation_by_id(Err(DbFailure)).unwrap_err(),
        GetFormationByIdError::DatabaseError
    );
}

#[test]
fn register_goes_through_both_checks() {
    let flow = trigger_register_user_to_formation(1, RegisterUserView::new(42), 4);
    assert_eq!(flow.registered_user_id(), 42);
    let course = flow.on_user_checked(Ok(true)).unwrap();
    assert_eq!(course.course_query().query_params(), &[QueryParam::I32(4)][..]);
    let insert = course.on_course_checked(Ok(true)).unwrap();
    assert_eq!(insert.query_params(), &[QueryParam::I32(42), QueryParam::I32(4)][..]);
    assert_eq!(on_registered(Ok(())), Ok(()));
}

#[test]
fn register_unknown_user_is_reported_first() {
    let flow = trigger_register_user_to_formation(1, RegisterUserView::new(42), 4);
    let e = flow.on_user_checked(Ok(false)).err().unwrap();
    assert_eq!(e, RegisterUserToFormationError::UnknownUser);
    assert_eq!(e.status_code(), 404);
    assert_eq!(e.to_string(), "Unknown user");
}

#[test]
fn register_unknown_course_after_known_user() {
    let flow = trigger_register_user_to_formation(1, RegisterUserView::new(42), 4);
    let course = flow.on_user_checked(Ok(true)).unwrap();
    let e = course.on_course_checked(Ok(false)).unwrap_err();
    assert_eq!(e, RegisterUserToFormationError::UnknownFormation);
    assert_eq!(e.status_code(), 404);
    assert_eq!(e.to_string(), "Unknown formation");
}

#[test]
fn register_database_failures() {
    let flow = trigger_register_user_to_formation(1, RegisterUserView::new(42), 4);
    assert_eq!(flow.on_user_checked(Err(DbFailure)).err().unwrap(), RegisterUserToFormationError::DatabaseError);
    let flow = trigger_register_user_to_formation(1, RegisterUserView::new(42), 4);
    let course = flow.on_user_checked(Ok(true)).unwrap();
    assert_eq!(course.on_course_checked(Err(DbFailure)).unwrap_err(), RegisterUserToFormationError::DatabaseError);
    let e = on_registered(Err(DbFailure)).unwrap_err();
    assert_eq!(e, RegisterUserToFormationError::DatabaseError);
    assert_eq!(e.status_code(), 500);
    assert_eq!(e.to_string(), "An error occurred while accessing the database.");
    assert_eq!(RegisterUserToFormationError::BadRequest.status_code(), 400);
    assert_eq!(RegisterUserToFormationError::BadRequest.to_string(), "Bad request");
}

#[test]
fn request_parameters_give_back_their_values() {
    assert!(AdminUserDetailsQuery::new(true).details());
    assert_eq!(AdminFormationIdParams::new(4).formation_id(), 4);
    assert_eq!(
        elearning::endpoints::v1::admin::formations::id::AdminFormationIdParams::new(9).formation_id(),
        9
    );
    assert_eq!(RegisterUserView::new(42).user_id(), 42);
    assert_eq!(
        elearning::endpoints::v1::admin::formations::id::register::view::RegisterUserView::new(7).user_id(),
        7
    );
}
