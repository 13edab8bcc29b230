use vstd::prelude::*;

use crate::database::admin::formations::register_user_to_formation::view::RegisterUserToFormationQueryView;
use crate::database::formations::does_course_exist::view::DoesCourseExistQueryView;
use crate::database::query::DbFailure;
use crate::endpoints::v1::admin::formations::formation_id::register::view::RegisterUserView;

verus! {

broadcast use vstd::string::to_string_from_display_ensures_for_str;

/// Why `POST /admin/formations/{formation_id}/` failed.
#[derive(Debug, Clone, PartialEq)]
pub enum RegisterUserToFormationError {
    BadRequest,
    DatabaseError,
    UnknownFormation,
    UnknownUser,
}

impl RegisterUserToFormationError {
    /// The plain-text body of the error response.
    pub fn to_string(&self) -> (r: String)
        ensures
            r@ == match self {
                RegisterUserToFormationError::BadRequest => "Bad request"@,
                RegisterUserToFormationError::DatabaseError =>
                    "An error occurred while accessing the database."@,
                RegisterUserToFormationError::UnknownFormation => "Unknown formation"@,
                RegisterUserToFormationError::UnknownUser => "Unknown user"@,
            },
    {
        match self {
            RegisterUserToFormationError::BadRequest => "Bad request".to_string(),
            RegisterUserToFormationError::DatabaseError => {
                "An error occurred while accessing the database.".to_string()
            },
            RegisterUserToFormationError::UnknownFormation => "Unknown formation".to_string(),
            RegisterUserToFormationError::UnknownUser => "Unknown user".to_string(),
        }
    }

    /// The HTTP status of the error response.
    pub fn status_code(&self) -> (r: u16)
        ensures
            r == match self {
                RegisterUserToFormationError::BadRequest => 400u16,
                RegisterUserToFormationError::DatabaseError => 500u16,
                RegisterUserToFormationError::UnknownFormation => 404u16,
                RegisterUserToFormationError::UnknownUser => 404u16,
            },
    {
        match self {
            RegisterUserToFormationError::BadRequest => 400,
            RegisterUserToFormationError::DatabaseError => 500,
            RegisterUserToFormationError::UnknownFormation => 404,
            RegisterUserToFormationError::UnknownUser => 404,
        }
    }
}

/// What the answer to the existence check of the user decides: `None` to go
/// on, or the error to answer.
pub open spec fn user_check_outcome(exists: Result<bool, DbFailure>) -> Option<
    RegisterUserToFormationError,
> {
    match exists {
        Ok(true) => None,
        Ok(false) => Some(RegisterUserToFormationError::UnknownUser),
        Err(_) => Some(RegisterUserToFormationError::DatabaseError),
    }
}

/// What the answer to the existence check of the course decides: `None` to go
/// on, or the error to answer.
pub open spec fn course_check_outcome(exists: Result<bool, DbFailure>) -> Option<
    RegisterUserToFormationError,
> {
    match exists {
        Ok(true) => None,
        Ok(false) => Some(RegisterUserToFormationError::UnknownFormation),
        Err(_) => Some(RegisterUserToFormationError::DatabaseError),
    }
}

/// What the answer to the registration itself gives.
pub open spec fn registration_outcome(done: Result<(), DbFailure>) -> Result<
    (),
    RegisterUserToFormationError,
> {
    match done {
        Ok(()) => Ok(()),
        Err(_) => Err(RegisterUserToFormationError::DatabaseError),
    }
}

/// Whether the registration query goes out, given the answers to the two
/// existence checks (the course is only checked for a known user).
pub open spec fn registration_sent(
    user_exists: Result<bool, DbFailure>,
    course_exists: Result<bool, DbFailure>,
) -> bool {
    user_check_outcome(user_exists) is None && course_check_outcome(course_exists) is None
}

/// What the whole registration answers, given the answers of the database to
/// its successive queries (an answer that is never asked for is ignored).
pub open spec fn register_outcome(
    user_exists: Result<bool, DbFailure>,
    course_exists: Result<bool, DbFailure>,
    done: Result<(), DbFailure>,
) -> Result<(), RegisterUserToFormationError> {
    match user_check_outcome(user_exists) {
        Some(e) => Err(e),
        None => match course_check_outcome(course_exists) {
            Some(e) => Err(e),
            None => registration_outcome(done),
        },
    }
}

/// `POST /admin/formations/{formation_id}/` before its first query: the
/// user to register and the course, awaiting the existence check of the
/// user.
#[derive(Debug)]
pub struct RegisterUserToFormationFlow {
    registered_user_id: u64,
    formation_id: u64,
}

/// Starts the registration of the user named in the body to the course of
/// the path. The caller's own id plays no part.
pub fn trigger_register_user_to_formation(
    _user_id: u64,
    view: RegisterUserView,
    formation_id: u64,
) -> (r: RegisterUserToFormationFlow)
    ensures
        r.spec_registered_user_id() == view.spec_user_id(),
        r.spec_formation_id() == formation_id,
{
    RegisterUserToFormationFlow { registered_user_id: view.user_id(), formation_id }
}

impl RegisterUserToFormationFlow {
    pub closed spec fn spec_registered_user_id(&self) -> u64 {
        self.registered_user_id
    }

    pub closed spec fn spec_formation_id(&self) -> u64 {
        self.formation_id
    }

    /// The user whose existence the first query checks.
    pub fn registered_user_id(&self) -> (r: u64)
        ensures
            r == self.spec_registered_user_id(),
    {
        self.registered_user_id
    }

    /// Decides on the answer to the existence check of the user: an unknown
    /// user answers `UnknownUser`, a database failure `DatabaseError`; a known
    /// one leads to the existence check of the course.
    pub fn on_user_checked(self, exists: Result<bool, DbFailure>) -> (r: Result<
        RegisterCourseCheck,
        RegisterUserToFormationError,
    >)
        ensures
            match user_check_outcome(exists) {
                Some(e) => r == Err::<RegisterCourseCheck, _>(e),
                None => r matches Ok(next) && next.spec_registered_user_id()
                    == self.spec_registered_user_id() && next.spec_formation_id()
                    == self.spec_formation_id() && next.spec_user_exists() == exists,
            },
    {
        match exists {
            Ok(true) => Ok(
                RegisterCourseCheck {
                    registered_user_id: self.registered_user_id,
                    formation_id: self.formation_id,
                    user_exists: Ghost(exists),
                },
            ),
            Ok(false) => Err(RegisterUserToFormationError::UnknownUser),
            Err(_) => Err(RegisterUserToFormationError::DatabaseError),
        }
    }
}

/// The registration once the user is known to exist, awaiting the existence
/// check of the course.
pub struct RegisterCourseCheck {
    registered_user_id: u64,
    formation_id: u64,
    user_exists: Ghost<Result<bool, DbFailure>>,
}

impl RegisterCourseCheck {
    #[verifier::type_invariant]
    closed spec fn user_known(self) -> bool {
        user_check_outcome(self.user_exists@) is None
    }

    pub closed spec fn spec_registered_user_id(&self) -> u64 {
        self.registered_user_id
    }

    pub closed spec fn spec_formation_id(&self) -> u64 {
        self.formation_id
    }

    /// The answer that the existence check of the user gave.
    pub closed spec fn spec_user_exists(&self) -> Result<bool, DbFailure> {
        self.user_exists@
    }

    /// The second query: does the course exist?
    pub fn course_query(&self) -> (r: DoesCourseExistQueryView)
        ensures
            r@ == DoesCourseExistQueryView::spec_params(self.spec_formation_id()),
    {
        DoesCourseExistQueryView::new(self.formation_id)
    }

    /// Decides on the answer to the existence check of the course: an unknown
    /// course answers `UnknownFormation`, a database failure `DatabaseError`;
    /// a known one leads to the registration of the user to that course,
    /// which both checks have then allowed.
    pub fn on_course_checked(self, exists: Result<bool, DbFailure>) -> (r: Result<
        RegisterUserToFormationQueryView,
        RegisterUserToFormationError,
    >)
        ensures
            match course_check_outcome(exists) {
                Some(e) => r == Err::<RegisterUserToFormationQueryView, _>(e),
                None => r matches Ok(q) && q@ == RegisterUserToFormationQueryView::spec_params(
                    self.spec_registered_user_id(),
                    self.spec_formation_id(),
                ),
            },
            r is Ok ==> registration_sent(self.spec_user_exists(), exists),
    {
        proof {
            use_type_invariant(&self);
        }
        match exists {
            Ok(true) => Ok(
                RegisterUserToFormationQueryView::new(self.registered_user_id, self.formation_id),
            ),
            Ok(false) => Err(RegisterUserToFormationError::UnknownFormation),
            Err(_) => Err(RegisterUserToFormationError::DatabaseError),
        }
    }
}

/// What `POST /admin/formations/{formation_id}/` answers once the database
/// has answered the registration query.
pub fn on_registered(done: Result<(), DbFailure>) -> (r: Result<(), RegisterUserToFormationError>)
    ensures
        r == registration_outcome(done),
{
    match done {
        Ok(()) => Ok(()),
        Err(_) => Err(RegisterUserToFormationError::DatabaseError),
    }
}

/// A user is registered to a course only once the user check and then the
/// course check have both answered `true`, and the registration then
/// succeeds exactly when the database carries it out. An unknown user is
/// reported as such whatever the course; an unknown course only for a known
/// user; any database failure on the way answers `DatabaseError`.
pub proof fn lemma_register_flow(
    user_exists: Result<bool, DbFailure>,
    course_exists: Result<bool, DbFailure>,
    done: Result<(), DbFailure>,
)
    ensures
        registration_sent(user_exists, course_exists) <==> (user_exists == Ok::<bool, DbFailure>(
            true,
        ) && course_exists == Ok::<bool, DbFailure>(true)),
        register_outcome(user_exists, course_exists, done) is Ok <==> (registration_sent(
            user_exists,
            course_exists,
        ) && done is Ok),
        user_exists == Ok::<bool, DbFailure>(false) ==> register_outcome(
            user_exists,
            course_exists,
            done,
        ) == Err::<(), _>(RegisterUserToFormationError::UnknownUser),
        user_exists == Ok::<bool, DbFailure>(true) && course_exists == Ok::<bool, DbFailure>(false)
            ==> register_outcome(user_exists, course_exists, done) == Err::<(), _>(
            RegisterUserToFormationError::UnknownFormation,
        ),
        (user_exists is Err || (user_exists == Ok::<bool, DbFailure>(true) && course_exists is Err)
            || (registration_sent(user_exists, course_exists) && done is Err)) ==> register_outcome(
            user_exists,
            course_exists,
            done,
        ) == Err::<(), _>(RegisterUserToFormationError::DatabaseError),
{
}

} // verus!
