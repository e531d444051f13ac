use vstd::prelude::*;
use crate::text::same_text;

verus! {

/// Role of an account.
#[derive(Clone, Copy, Debug, PartialEq, Eq, Structural)]
pub enum UserRole {
    Admin,
    Regular,
}

/// Name under which a role is stored.
pub open spec fn role_name(role: UserRole) -> Seq<char> {
    match role {
        UserRole::Admin => "admin"@,
        UserRole::Regular => "regular"@,
    }
}

/// Label under which a role is shown on pages.
pub open spec fn role_label(role: UserRole) -> Seq<char> {
    match role {
        UserRole::Admin => "管理员"@,
        UserRole::Regular => "普通用户"@,
    }
}

impl UserRole {
    /// Reads a stored or submitted role name: `"admin"` is an administrator,
    /// anything else a regular user.
    pub fn from_name(name: &str) -> (r: UserRole)
        ensures
            r == (if name@ == "admin"@ { UserRole::Admin } else { UserRole::Regular }),
    {
        if same_text(name, "admin") {
            UserRole::Admin
        } else {
            UserRole::Regular
        }
    }

    /// The name under which this role is stored.
    pub fn name(&self) -> (r: &'static str)
        ensures
            r@ == role_name(*self),
    {
        match self {
            UserRole::Admin => "admin",
            UserRole::Regular => "regular",
        }
    }

    /// The label shown for this role.
    pub fn label(&self) -> (r: &'static str)
        ensures
            r@ == role_label(*self),
    {
        match self {
            UserRole::Admin => "管理员",
            UserRole::Regular => "普通用户",
        }
    }
}

/// An account.
#[derive(Clone, Debug)]
pub struct User {
    pub id: i32,
    pub username: String,
    pub password: String,
    pub role: UserRole,
}

/// A signed-in session.
#[derive(Clone, Debug)]
pub struct Session {
    pub user: User,
}

/// Submitted sign-in form.
pub struct LoginForm {
    pub username: String,
    pub password: String,
}

/// Submitted form that creates an account; `role` is a role name.
pub struct UserCreateForm {
    pub username: String,
    pub password: String,
    pub role: String,
}

/// Submitted form that changes an account; absent fields stay as they are.
pub struct UserUpdateForm {
    pub password: Option<String>,
    pub role: Option<String>,
}

/// One uploaded file; `uploaded_at` is in seconds since the Unix epoch, UTC.
#[derive(Clone, Debug)]
pub struct UploadRecord {
    pub id: i32,
    pub filename: String,
    pub file_path: String,
    pub file_size: i64,
    pub uploaded_at: i64,
    pub username: Option<String>,
}

/// Status of one evaluation job.
#[derive(Clone, Copy, Debug, PartialEq, Eq, Structural)]
pub enum TestStatus {
    Pending,
    Running,
    Passed,
    Failed,
    Error,
}

/// Name under which a status is stored and shown.
pub open spec fn status_name(s: TestStatus) -> Seq<char> {
    match s {
        TestStatus::Pending => "Pending"@,
        TestStatus::Running => "Running"@,
        TestStatus::Passed => "Passed"@,
        TestStatus::Failed => "Failed"@,
        TestStatus::Error => "Error"@,
    }
}

/// Style class of a status on result pages.
pub open spec fn status_class(s: TestStatus) -> Seq<char> {
    match s {
        TestStatus::Pending => "status-pending"@,
        TestStatus::Running => "status-running"@,
        TestStatus::Passed => "status-passed"@,
        TestStatus::Failed => "status-failed"@,
        TestStatus::Error => "status-error"@,
    }
}

/// The status a stored name stands for; an unknown name stands for `Error`.
pub open spec fn status_of_name(name: Seq<char>) -> TestStatus {
    if name == "Pending"@ {
        TestStatus::Pending
    } else if name == "Running"@ {
        TestStatus::Running
    } else if name == "Passed"@ {
        TestStatus::Passed
    } else if name == "Failed"@ {
        TestStatus::Failed
    } else {
        TestStatus::Error
    }
}

impl TestStatus {
    /// Once written, a terminal status is final for its job.
    pub open spec fn is_terminal(self) -> bool {
        self is Passed || self is Failed || self is Error
    }

    /// The stored name of this status.
    pub fn name(&self) -> (r: &'static str)
        ensures
            r@ == status_name(*self),
    {
        match self {
            TestStatus::Pending => "Pending",
            TestStatus::Running => "Running",
            TestStatus::Passed => "Passed",
            TestStatus::Failed => "Failed",
            TestStatus::Error => "Error",
        }
    }

    /// The style class of this status.
    pub fn css_class(&self) -> (r: &'static str)
        ensures
            r@ == status_class(*self),
    {
        match self {
            TestStatus::Pending => "status-pending",
            TestStatus::Running => "status-running",
            TestStatus::Passed => "status-passed",
            TestStatus::Failed => "status-failed",
            TestStatus::Error => "status-error",
        }
    }

    /// Reads a stored status name; an unknown name reads as `Error`.
    pub fn from_name(name: &str) -> (r: TestStatus)
        ensures
            r == status_of_name(name@),
    {
        if same_text(name, "Pending") {
            TestStatus::Pending
        } else if same_text(name, "Running") {
            TestStatus::Running
        } else if same_text(name, "Passed") {
            TestStatus::Passed
        } else if same_text(name, "Failed") {
            TestStatus::Failed
        } else {
            TestStatus::Error
        }
    }
}

/// A stored evaluation record; times are seconds since the Unix epoch, UTC.
#[derive(Clone, Debug)]
pub struct TestResult {
    pub id: i32,
    pub user_id: i32,
    pub username: String,
    pub status: TestStatus,
    pub output: Option<String>,
    pub error: Option<String>,
    pub created_at: i64,
    pub updated_at: i64,
}

/// One evaluation request: the job `id`, its owner, and the directory that
/// holds the submitted project.
#[derive(Clone, Debug)]
pub struct TestTask {
    pub id: i32,
    pub user_id: i32,
    pub username: String,
    pub work_dir: String,
}

} // verus!
