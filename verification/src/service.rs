//! The service as a unit of the operating system: what its status is
//! read from, how it is installed, and what an operation on it answers.

use vstd::prelude::*;
use crate::error::{AppError, AppErrorView};
use crate::text::{chars_of, concat, concat3, holds_text, same_text, trim, trimmed, contains_text};

verus! {

/// The label under which the service is registered.
pub const SERVICE_LABEL: &'static str = "com.ralphtown.server";

/// The name of the systemd user unit of the service.
pub const SYSTEMD_UNIT: &'static str = "ralphtown";

/// The name of the service in the Windows service manager.
pub const WINDOWS_SERVICE: &'static str = "Ralphtown";

/// Why an operation on the service failed.
#[derive(Clone, Debug, PartialEq, Eq)]
pub enum ServiceError {
    NoServiceManager(String),
    OperationFailed(String),
    ExecutableNotFound(String),
}

/// A `ServiceError` with its text as a sequence.
pub enum ServiceErrorView {
    NoServiceManager(Seq<char>),
    OperationFailed(Seq<char>),
    ExecutableNotFound(Seq<char>),
}

impl View for ServiceError {
    type V = ServiceErrorView;

    open spec fn view(&self) -> ServiceErrorView {
        match *self {
            ServiceError::NoServiceManager(m) => ServiceErrorView::NoServiceManager(m@),
            ServiceError::OperationFailed(m) => ServiceErrorView::OperationFailed(m@),
            ServiceError::ExecutableNotFound(m) => ServiceErrorView::ExecutableNotFound(m@),
        }
    }
}

/// The message of a service error.
pub open spec fn service_error_text(e: ServiceErrorView) -> Seq<char> {
    match e {
        ServiceErrorView::NoServiceManager(m) => "Failed to detect service manager: "@ + m,
        ServiceErrorView::OperationFailed(m) => "Service operation failed: "@ + m,
        ServiceErrorView::ExecutableNotFound(m) => "Could not find current executable: "@ + m,
    }
}

impl ServiceError {
    /// The message of the error.
    pub fn to_string(&self) -> (s: String)
        ensures
            s@ == service_error_text(self@),
    {
        match self {
            ServiceError::NoServiceManager(m) => concat(
                "Failed to detect service manager: ",
                m.as_str(),
            ),
            ServiceError::OperationFailed(m) => concat("Service operation failed: ", m.as_str()),
            ServiceError::ExecutableNotFound(m) => concat(
                "Could not find current executable: ",
                m.as_str(),
            ),
        }
    }
}

/// Whether the service is installed and running.
#[derive(Clone, Copy, Debug, PartialEq, Eq, Structural)]
pub enum ServiceStatus {
    /// Installed and running.
    Running,
    /// Installed, not running.
    Stopped,
    /// Not installed.
    NotInstalled,
    /// Could not be determined.
    Unknown,
}

/// The name of a status.
pub open spec fn service_status_text(status: ServiceStatus) -> Seq<char> {
    match status {
        ServiceStatus::Running => "running"@,
        ServiceStatus::Stopped => "stopped"@,
        ServiceStatus::NotInstalled => "not_installed"@,
        ServiceStatus::Unknown => "unknown"@,
    }
}

impl ServiceStatus {
    /// The name of the status.
    pub fn to_string(&self) -> (s: String)
        ensures
            s@ == service_status_text(*self),
    {
        match self {
            ServiceStatus::Running => String::from_str("running"),
            ServiceStatus::Stopped => String::from_str("stopped"),
            ServiceStatus::NotInstalled => String::from_str("not_installed"),
            ServiceStatus::Unknown => String::from_str("unknown"),
        }
    }

    /// Whether a service of this status is installed.
    pub open spec fn installed(self) -> bool {
        self == ServiceStatus::Running || self == ServiceStatus::Stopped
    }
}

/// The answer to a query of the service's status.
#[derive(Clone, Debug, PartialEq, Eq)]
pub struct ServiceStatusResponse {
    pub status: String,
    pub installed: bool,
    pub running: bool,
    pub label: String,
}

/// The answer to an operation on the service.
#[derive(Clone, Debug, PartialEq, Eq)]
pub struct ServiceOperationResponse {
    pub success: bool,
    pub message: String,
}

/// An operation on the service.
#[derive(Clone, Copy, Debug, PartialEq, Eq, Structural)]
pub enum ServiceOperation {
    Install,
    Uninstall,
    Start,
    Stop,
}

/// The word for an operation in the error of the service manager.
pub open spec fn operation_word(op: ServiceOperation) -> Seq<char> {
    match op {
        ServiceOperation::Install => "install"@,
        ServiceOperation::Uninstall => "uninstall"@,
        ServiceOperation::Start => "start"@,
        ServiceOperation::Stop => "stop"@,
    }
}

/// What is answered when an operation succeeded.
pub open spec fn operation_done_text(op: ServiceOperation) -> Seq<char> {
    match op {
        ServiceOperation::Install =>
            "Service installed successfully. It will start automatically on login."@,
        ServiceOperation::Uninstall => "Service uninstalled successfully."@,
        ServiceOperation::Start => "Service started successfully."@,
        ServiceOperation::Stop => "Service stopped successfully."@,
    }
}

/// How the error of a failed operation begins.
pub open spec fn operation_failed_text(op: ServiceOperation) -> Seq<char> {
    match op {
        ServiceOperation::Install => "Failed to install service: "@,
        ServiceOperation::Uninstall => "Failed to uninstall service: "@,
        ServiceOperation::Start => "Failed to start service: "@,
        ServiceOperation::Stop => "Failed to stop service: "@,
    }
}

/// How often a failed service is restarted, and what it is started with.
#[derive(Clone, Debug, PartialEq, Eq)]
pub struct InstallPlan {
    pub label: String,
    pub program: String,
    pub args: Vec<String>,
    /// Start the service when the user logs in.
    pub autostart: bool,
    /// Restart the service when it fails, after this many seconds.
    pub restart_delay_secs: Option<u32>,
    /// Install for the user, not for the system.
    pub user_level: bool,
}

/// Installs, starts, stops and inspects the service that is registered
/// under the controller's label.
pub struct ServiceController {
    label: String,
}

impl ServiceController {
    /// The label under which the controller registers the service.
    pub closed spec fn label_text(&self) -> Seq<char> {
        self.label@
    }

    /// Every controller is one for `SERVICE_LABEL`.
    #[verifier::type_invariant]
    spec fn labelled(&self) -> bool {
        self.label@ == SERVICE_LABEL@
    }

    /// The controller of the service registered under `SERVICE_LABEL`.
    pub fn new() -> (c: ServiceController)
        ensures
            c.label_text() == SERVICE_LABEL@,
    {
        ServiceController { label: String::from_str(SERVICE_LABEL) }
    }

    /// The label under which the service is registered.
    pub fn label(&self) -> (l: &'static str)
        ensures
            l@ == SERVICE_LABEL@,
    {
        SERVICE_LABEL
    }

    /// How the service is installed: `program serve`, for the user,
    /// started at login and restarted five seconds after a failure.
    pub fn install(&self, program: String) -> (plan: InstallPlan)
        ensures
            plan.label@ == SERVICE_LABEL@,
            plan.program == program,
            plan.args.deep_view() == seq!["serve"@],
            plan.autostart,
            plan.restart_delay_secs == Some(5u32),
            plan.user_level,
    {
        let mut args: Vec<String> = Vec::new();
        args.push(String::from_str("serve"));
        assert(args.deep_view() =~= seq!["serve"@]);
        proof {
            use_type_invariant(self);
        }
        InstallPlan {
            label: self.label.clone(),
            program,
            args,
            autostart: true,
            restart_delay_secs: Some(5),
            user_level: true,
        }
    }

    /// The error for an operation that the service manager refused, with
    /// the manager's message.
    pub fn operation_failed(op: ServiceOperation, detail: &str) -> (e: ServiceError)
        ensures
            e@ == ServiceErrorView::OperationFailed(operation_word(op) + ": "@ + detail@),
    {
        let word = match op {
            ServiceOperation::Install => "install",
            ServiceOperation::Uninstall => "uninstall",
            ServiceOperation::Start => "start",
            ServiceOperation::Stop => "stop",
        };
        ServiceError::OperationFailed(concat3(word, ": ", detail))
    }

    /// The status on Linux, from what `systemctl --user is-active` printed
    /// (`None` where it could not be run) and from whether the unit file
    /// exists (`None` where the configuration directory is not known).
    pub fn linux_status(stdout: Option<&str>, unit_file_exists: Option<bool>) -> (status: ServiceStatus)
        ensures
            status == linux_status_of(
                match stdout {
                    Some(text) => Some(text@),
                    None => None,
                },
                unit_file_exists,
            ),
    {
        match stdout {
            None => ServiceStatus::Unknown,
            Some(text) => {
                let word = trimmed(text);
                if same_text(word.as_str(), "active") {
                    ServiceStatus::Running
                } else if same_text(word.as_str(), "inactive") || same_text(
                    word.as_str(),
                    "failed",
                ) {
                    ServiceStatus::Stopped
                } else {
                    match unit_file_exists {
                        None => ServiceStatus::Unknown,
                        Some(true) => ServiceStatus::Stopped,
                        Some(false) => ServiceStatus::NotInstalled,
                    }
                }
            },
        }
    }

    /// The status on macOS, from whether the agent's property list exists
    /// (`None` where the home directory is not known) and whether
    /// `launchctl list` succeeded for the label.
    pub fn macos_status(plist_exists: Option<bool>, listed: bool) -> (status: ServiceStatus)
        ensures
            status == match plist_exists {
                None => ServiceStatus::Unknown,
                Some(false) => ServiceStatus::NotInstalled,
                Some(true) => if listed {
                    ServiceStatus::Running
                } else {
                    ServiceStatus::Stopped
                },
            },
    {
        match plist_exists {
            None => ServiceStatus::Unknown,
            Some(false) => ServiceStatus::NotInstalled,
            Some(true) => if listed {
                ServiceStatus::Running
            } else {
                ServiceStatus::Stopped
            },
        }
    }

    /// The status on Windows, from what `sc query` printed and whether it
    /// succeeded (`None` where it could not be run).
    pub fn windows_status(output: Option<(&str, bool)>) -> (status: ServiceStatus)
        ensures
            status == windows_status_of(
                match output {
                    Some(o) => Some((o.0@, o.1)),
                    None => None,
                },
            ),
    {
        match output {
            None => ServiceStatus::Unknown,
            Some((stdout, success)) => {
                let chars = chars_of(stdout);
                let running = chars_of("RUNNING");
                let stopped = chars_of("STOPPED");
                if holds_text(&chars, &running) {
                    ServiceStatus::Running
                } else if holds_text(&chars, &stopped) {
                    ServiceStatus::Stopped
                } else if !success {
                    ServiceStatus::NotInstalled
                } else {
                    ServiceStatus::Unknown
                }
            },
        }
    }

    /// The answer to a query of the status.
    pub fn get_status(&self, status: ServiceStatus) -> (r: ServiceStatusResponse)
        ensures
            r.status@ == service_status_text(status),
            r.installed == status.installed(),
            r.running == (status == ServiceStatus::Running),
            r.label@ == SERVICE_LABEL@,
    {
        let (installed, running) = match status {
            ServiceStatus::Running => (true, true),
            ServiceStatus::Stopped => (true, false),
            ServiceStatus::NotInstalled => (false, false),
            ServiceStatus::Unknown => (false, false),
        };
        ServiceStatusResponse {
            status: status.to_string(),
            installed,
            running,
            label: String::from_str(self.label()),
        }
    }

    /// The answer to an operation: a success with the operation's
    /// message, or an internal error that names the operation and holds
    /// the message of the failure.
    pub fn operation_response(op: ServiceOperation, result: Result<(), ServiceError>) -> (r: Result<
        ServiceOperationResponse,
        AppError,
    >)
        ensures
            match result {
                Ok(_) => r is Ok && r->Ok_0.success && r->Ok_0.message@ == operation_done_text(op),
                Err(e) => r is Err && r->Err_0@ == AppErrorView::Internal(
                    operation_failed_text(op) + service_error_text(e@),
                ),
            },
    {
        match result {
            Ok(_) => {
                let message = match op {
                    ServiceOperation::Install =>
                        "Service installed successfully. It will start automatically on login.",
                    ServiceOperation::Uninstall => "Service uninstalled successfully.",
                    ServiceOperation::Start => "Service started successfully.",
                    ServiceOperation::Stop => "Service stopped successfully.",
                };
                Ok(ServiceOperationResponse { success: true, message: String::from_str(message) })
            },
            Err(e) => {
                let begin = match op {
                    ServiceOperation::Install => "Failed to install service: ",
                    ServiceOperation::Uninstall => "Failed to uninstall service: ",
                    ServiceOperation::Start => "Failed to start service: ",
                    ServiceOperation::Stop => "Failed to stop service: ",
                };
                let detail = e.to_string();
                Err(AppError::Internal(concat(begin, detail.as_str())))
            },
        }
    }
}

/// The status on Linux: `active` is running, `inactive` and `failed` are
/// stopped; for any other word the unit file decides between stopped and
/// not installed.
pub open spec fn linux_status_of(stdout: Option<Seq<char>>, unit_file_exists: Option<bool>) -> ServiceStatus {
    match stdout {
        None => ServiceStatus::Unknown,
        Some(text) => {
            let word = trim(text);
            if word == "active"@ {
                ServiceStatus::Running
            } else if word == "inactive"@ || word == "failed"@ {
                ServiceStatus::Stopped
            } else {
                match unit_file_exists {
                    None => ServiceStatus::Unknown,
                    Some(true) => ServiceStatus::Stopped,
                    Some(false) => ServiceStatus::NotInstalled,
                }
            }
        },
    }
}

/// The status on Windows: running or stopped where the output says so;
/// else not installed where the query failed.
pub open spec fn windows_status_of(output: Option<(Seq<char>, bool)>) -> ServiceStatus {
    match output {
        None => ServiceStatus::Unknown,
        Some((stdout, success)) => {
            if contains_text(stdout, "RUNNING"@) {
                ServiceStatus::Running
            } else if contains_text(stdout, "STOPPED"@) {
                ServiceStatus::Stopped
            } else if !success {
                ServiceStatus::NotInstalled
            } else {
                ServiceStatus::Unknown
            }
        },
    }
}

} // verus!
