pub mod get;
pub mod id;
pub mod user_id;


use vstd::prelude::*;

use crate::model::opt_seq;
use crate::timestamp::UtcTimestamp;

verus! {

broadcast use vstd::string::to_string_from_display_ensures_for_str;

/// How far a user has got in a course, as the database tracks it
/// (`user_courses.status`).
#[derive(Debug)]
pub enum ProgressStatus {
    NotStarted,
    InProgress,
    Completed,
    /// The database held a status that the API does not know.
    Error,
}

/// The status that a status name of the database stands for: `not_started`,
/// `in_progress` and `completed` name the three stages, anything else is an
/// `Error`.
pub open spec fn parse_progress_status(s: Seq<char>) -> ProgressStatus {
    if s == "not_started"@ {
        ProgressStatus::NotStarted
    } else if s == "in_progress"@ {
        ProgressStatus::InProgress
    } else if s == "completed"@ {
        ProgressStatus::Completed
    } else {
        ProgressStatus::Error
    }
}

impl vstd::std_specs::convert::FromSpecImpl<String> for ProgressStatus {
    open spec fn obeys_from_spec() -> bool {
        true
    }

    open spec fn from_spec(v: String) -> ProgressStatus {
        parse_progress_status(v@)
    }
}

impl From<String> for ProgressStatus {
    fn from(s: String) -> (r: Self) {
        if s == "not_started".to_string() {
            ProgressStatus::NotStarted
        } else if s == "in_progress".to_string() {
            ProgressStatus::InProgress
        } else if s == "completed".to_string() {
            ProgressStatus::Completed
        } else {
            ProgressStatus::Error
        }
    }
}

/// What a [`UsersFormation`] holds.
pub struct UsersFormationModel {
    pub id: u64,
    pub name: Seq<char>,
    pub description: Seq<char>,
    pub modules: Option<Seq<UsersFormationModule>>,
    pub started_at: Option<UtcTimestamp>,
    pub completed_at: Option<UtcTimestamp>,
    pub progress_status: ProgressStatus,
}

/// A course that a user is registered to, with the user's progress on it.
#[derive(Debug)]
pub struct UsersFormation {
    /// Id of the course.
    id: u64,
    /// Title of the course.
    name: String,
    /// Description of the course.
    description: String,
    /// Modules of the course, or `null` when `details` was not asked for.
    modules: Option<Vec<UsersFormationModule>>,
    // `user_courses.started_at` has no default and is only set by the
    // `fn_update_user_course_progress` trigger once the user completes their
    // first module, so a freshly-registered formation has none yet.
    /// When the user completed a first module, or `null` when none is
    /// completed yet. Set by a database trigger, not at registration.
    started_at: Option<UtcTimestamp>,
    /// When the whole course was completed, or `null` while it is not.
    completed_at: Option<UtcTimestamp>,
    /// The user's progress on this course, recomputed by the database.
    progress_status: ProgressStatus,
}

impl View for UsersFormation {
    type V = UsersFormationModel;

    closed spec fn view(&self) -> UsersFormationModel {
        UsersFormationModel {
            id: self.id,
            name: self.name@,
            description: self.description@,
            modules: opt_seq(self.modules),
            started_at: self.started_at,
            completed_at: self.completed_at,
            progress_status: self.progress_status,
        }
    }
}

impl UsersFormation {
    pub fn new(
        id: u64,
        name: &str,
        description: &str,
        modules: Option<Vec<UsersFormationModule>>,
        started_at: Option<UtcTimestamp>,
        completed_at: Option<UtcTimestamp>,
        progress_status: ProgressStatus,
    ) -> (r: Self)
        ensures
            r@ == (UsersFormationModel {
                id: id,
                name: name@,
                description: description@,
                modules: opt_seq(modules),
                started_at: started_at,
                completed_at: completed_at,
                progress_status: progress_status,
            }),
    {
        Self {
            id,
            name: name.to_string(),
            description: description.to_string(),
            modules,
            started_at,
            completed_at,
            progress_status,
        }
    }

    pub fn id(&self) -> (r: u64)
        ensures
            r == self@.id,
    {
        self.id
    }

    pub fn name(&self) -> (r: &str)
        ensures
            r@ == self@.name,
    {
        self.name.as_str()
    }

    pub fn description(&self) -> (r: &str)
        ensures
            r@ == self@.description,
    {
        self.description.as_str()
    }

    pub fn modules(&self) -> (r: &Option<Vec<UsersFormationModule>>)
        ensures
            opt_seq(*r) == self@.modules,
    {
        &self.modules
    }

    pub fn started_at(&self) -> (r: &Option<UtcTimestamp>)
        ensures
            *r == self@.started_at,
    {
        &self.started_at
    }

    pub fn completed_at(&self) -> (r: &Option<UtcTimestamp>)
        ensures
            *r == self@.completed_at,
    {
        &self.completed_at
    }

    pub fn progress_status(&self) -> (r: &ProgressStatus)
        ensures
            *r == self@.progress_status,
    {
        &self.progress_status
    }
}

/// What a [`UsersFormationModule`] holds.
pub struct UsersFormationModuleModel {
    pub id: u64,
    pub name: Seq<char>,
    pub description: Seq<char>,
    pub content: Seq<UsersModuleContent>,
    pub is_completed: bool,
    pub completed_at: Option<UtcTimestamp>,
}

/// A module of a course, with one user's progress on it.
#[derive(Debug)]
pub struct UsersFormationModule {
    /// Id of the module.
    id: u64,
    /// Title of the module.
    name: String,
    /// Description of the module.
    description: String,
    /// Attachments of the module, with when the user went through them.
    content: Vec<UsersModuleContent>,
    /// `true` when the user has completed this module.
    is_completed: bool,
    /// When the user completed the module, or `null` while not completed.
    completed_at: Option<UtcTimestamp>,
}

impl View for UsersFormationModule {
    type V = UsersFormationModuleModel;

    closed spec fn view(&self) -> UsersFormationModuleModel {
        UsersFormationModuleModel {
            id: self.id,
            name: self.name@,
            description: self.description@,
            content: self.content@,
            is_completed: self.is_completed,
            completed_at: self.completed_at,
        }
    }
}

impl UsersFormationModule {
    pub fn new(
        id: u64,
        name: &str,
        description: &str,
        content: Vec<UsersModuleContent>,
        is_completed: bool,
        completed_at: Option<UtcTimestamp>,
    ) -> (r: Self)
        ensures
            r@ == (UsersFormationModuleModel {
                id: id,
                name: name@,
                description: description@,
                content: content@,
                is_completed: is_completed,
                completed_at: completed_at,
            }),
    {
        Self {
            id,
            name: name.to_string(),
            description: description.to_string(),
            content,
            is_completed,
            completed_at,
        }
    }

    pub fn id(&self) -> (r: u64)
        ensures
            r == self@.id,
    {
        self.id
    }

    pub fn name(&self) -> (r: &str)
        ensures
            r@ == self@.name,
    {
        self.name.as_str()
    }

    pub fn description(&self) -> (r: &str)
        ensures
            r@ == self@.description,
    {
        self.description.as_str()
    }

    pub fn content(&self) -> (r: &Vec<UsersModuleContent>)
        ensures
            r@ == self@.content,
    {
        &self.content
    }

    pub fn is_completed(&self) -> (r: bool)
        ensures
            r == self@.is_completed,
    {
        self.is_completed
    }

    pub fn completed_at(&self) -> (r: &Option<UtcTimestamp>)
        ensures
            *r == self@.completed_at,
    {
        &self.completed_at
    }
}

/// What a [`UsersModuleContent`] holds.
pub struct UsersModuleContentModel {
    pub id: u64,
    pub file_name: Seq<char>,
    pub file_type: Seq<char>,
    pub finished_at: Option<UtcTimestamp>,
}

/// An attachment of a module, with when one user went through it.
#[derive(Debug)]
pub struct UsersModuleContent {
    /// Id of the attachment.
    id: u64,
    /// Name of the file.
    file_name: String,
    /// Type of the file as the database stores it: `video` or `pdf`.
    file_type: String,
    /// When the user finished this attachment, or `null` while not yet seen.
    finished_at: Option<UtcTimestamp>,
}

impl View for UsersModuleContent {
    type V = UsersModuleContentModel;

    closed spec fn view(&self) -> UsersModuleContentModel {
        UsersModuleContentModel {
            id: self.id,
            file_name: self.file_name@,
            file_type: self.file_type@,
            finished_at: self.finished_at,
        }
    }
}

impl UsersModuleContent {
    pub fn new(
        id: u64,
        file_name: &str,
        file_type: &str,
        finished_at: Option<UtcTimestamp>,
    ) -> (r: Self)
        ensures
            r@ == (UsersModuleContentModel {
                id: id,
                file_name: file_name@,
                file_type: file_type@,
                finished_at: finished_at,
            }),
    {
        Self { id, file_name: file_name.to_string(), file_type: file_type.to_string(), finished_at }
    }

    pub fn id(&self) -> (r: u64)
        ensures
            r == self@.id,
    {
        self.id
    }

    pub fn file_name(&self) -> (r: &str)
        ensures
            r@ == self@.file_name,
    {
        self.file_name.as_str()
    }

    pub fn file_type(&self) -> (r: &str)
        ensures
            r@ == self@.file_type,
    {
        self.file_type.as_str()
    }

    pub fn finished_at(&self) -> (r: &Option<UtcTimestamp>)
        ensures
            *r == self@.finished_at,
    {
        &self.finished_at
    }
}

} // verus!
