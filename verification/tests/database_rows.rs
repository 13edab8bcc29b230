use elearning::database::admin::formations::get_formations::view::{
    AdminFormationModuleRow, AdminFormationRow, AdminModuleContentRow,
};
use elearning::database::admin::users::get_user_formations::view::{
    UserFormationModuleRow, UserFormationRow, UserModuleContentRow,
};
use elearning::database::admin::users::get_users::view::UserRow;
use elearning::database::formations::check_module_access::view::ModuleAccessRow;
use elearning::database::formations::get_attachment::view::AttachmentRow;
use elearning::database::formations::get_module_attachments::view::ModuleAttachmentRow;
use elearning::database::formations::get_my_formation_modules::view::FormationModuleRow;
use elearning::database::formations::get_my_formations::view::FormationSummaryRow;
use elearning::timestamp::NaiveTimestamp;

#[test]
fn admin_rows_give_back_their_fields() {
    let content = AdminModuleContentRow::new(31, "rgpd.pdf".to_string(), "pdf".to_string());
    assert_eq!(content.id(), 31);
    assert_eq!(content.file_name(), "rgpd.pdf");
    assert_eq!(content.file_type(), "pdf");
    let module = AdminFormationModuleRow::new(11, "RGPD".to_string(), None, Some(vec![content]));
    assert_eq!(module.id(), 11);
    assert_eq!(module.name(), "RGPD");
    assert_eq!(module.description(), None);
    assert_eq!(module.content().unwrap().len(), 1);
    let formation = AdminFormationRow::new(
        4,
        "RGPD pour les agents".to_string(),
        Some("Obligations".to_string()),
        None,
    );
    assert_eq!(formation.id(), 4);
    assert_eq!(formation.description(), Some("Obligations"));
    assert!(formation.modules().is_none());
}

#[test]
fn user_rows_give_back_their_fields() {
    let at = NaiveTimestamp { secs: 1_788_443_100, nanos: 0 };
    let content = UserModuleContentRow::new(31, "a.pdf".to_string(), "pdf".to_string());
    let module = UserFormationModuleRow::new(
        11,
        "M".to_string(),
        Some("D".to_string()),
        vec![content],
        true,
        Some(at),
    );
    assert!(module.is_completed());
    assert_eq!(module.completed_at(), Some(at));
    assert_eq!(module.content()[0].id(), 31);
    let formation = UserFormationRow::new(
        4,
        "F".to_string(),
        None,
        Some(at),
        None,
        "in_progress".to_string(),
        Some(vec![module]),
    );
    assert_eq!(formation.started_at(), Some(at));
    assert_eq!(formation.completed_at(), None);
    assert_eq!(formation.progress_status(), "in_progress");
    assert_eq!(formation.modules().unwrap().len(), 1);
}

#[test]
fn other_rows_give_back_their_fields() {
    let user = UserRow::new(42, "Jean Dupont".to_string());
    assert_eq!(user.id(), 42);
    assert_eq!(user.name(), "Jean Dupont");
    let access = ModuleAccessRow::new(true, false);
    assert!(access.enrolled());
    assert!(!access.module_in_formation());
    let attachment = AttachmentRow::new(
        31,
        "a.pdf".to_string(),
        "pdf".to_string(),
        "courses/4/a.pdf".to_string(),
    );
    assert_eq!(attachment.file_url(), "courses/4/a.pdf");
    let listed = ModuleAttachmentRow::new(
        31,
        "a.pdf".to_string(),
        "pdf".to_string(),
        "k".to_string(),
        Some(2048),
    );
    assert_eq!(listed.file_size_bytes(), Some(2048));
    let module = FormationModuleRow::new(11, "M".to_string(), None, true);
    assert!(module.completed());
    let summary = FormationSummaryRow::new(4, "F".to_string(), None, "completed".to_string());
    assert_eq!(summary.status(), "completed");
    assert_eq!(summary.description(), None);
}

#[test]
fn naive_time_read_in_utc_keeps_the_instant() {
    let t = NaiveTimestamp { secs: 1_788_337_800, nanos: 500 };
    let u = t.and_utc();
    assert_eq!(u.secs, 1_788_337_800);
    assert_eq!(u.nanos, 500);
    assert_eq!(elearning::timestamp::opt_to_utc(None), None);
    assert_eq!(elearning::timestamp::opt_to_utc(Some(t)), Some(u));
}
