use ralphtown::error::AppError;
use ralphtown::service::{
    ServiceController, ServiceError, ServiceOperation, ServiceStatus, SERVICE_LABEL,
};

#[test]
fn test_service_controller_creation() {
    let controller = ServiceController::new();
    assert_eq!(controller.label(), SERVICE_LABEL);
}

#[test]
fn test_service_status_display() {
    assert_eq!(ServiceStatus::Running.to_string(), "running");
    assert_eq!(ServiceStatus::Stopped.to_string(), "stopped");
    assert_eq!(ServiceStatus::NotInstalled.to_string(), "not_installed");
    assert_eq!(ServiceStatus::Unknown.to_string(), "unknown");
}

#[test]
fn service_is_installed_for_the_user_with_restart() {
    let plan = ServiceController::new().install("/usr/local/bin/ralphtown".to_string());
    assert_eq!(plan.label, "com.ralphtown.server");
    assert_eq!(plan.program, "/usr/local/bin/ralphtown");
    assert_eq!(plan.args, vec!["serve"]);
    assert!(plan.autostart);
    assert_eq!(plan.restart_delay_secs, Some(5));
    assert!(plan.user_level);
}

#[test]
fn linux_status_is_read_from_systemctl() {
    assert_eq!(ServiceController::linux_status(None, Some(true)), ServiceStatus::Unknown);
    assert_eq!(ServiceController::linux_status(Some("active\n"), None), ServiceStatus::Running);
    assert_eq!(ServiceController::linux_status(Some("inactive\n"), None), ServiceStatus::Stopped);
    assert_eq!(ServiceController::linux_status(Some(" failed "), None), ServiceStatus::Stopped);
    assert_eq!(ServiceController::linux_status(Some("unknown\n"), None), ServiceStatus::Unknown);
    assert_eq!(
        ServiceController::linux_status(Some("unknown\n"), Some(true)),
        ServiceStatus::Stopped
    );
    assert_eq!(ServiceController::linux_status(Some(""), Some(false)), ServiceStatus::NotInstalled);
    assert_eq!(
        ServiceController::linux_status(Some("activex"), Some(false)),
        ServiceStatus::NotInstalled
    );
}

#[test]
fn macos_and_windows_status_are_read_from_their_tools() {
    assert_eq!(ServiceController::macos_status(None, true), ServiceStatus::Unknown);
    assert_eq!(ServiceController::macos_status(Some(false), true), ServiceStatus::NotInstalled);
    assert_eq!(ServiceController::macos_status(Some(true), true), ServiceStatus::Running);
    assert_eq!(ServiceController::macos_status(Some(true), false), ServiceStatus::Stopped);
    assert_eq!(ServiceController::windows_status(None), ServiceStatus::Unknown);
    assert_eq!(
        ServiceController::windows_status(Some(("STATE : 4 RUNNING", true))),
        ServiceStatus::Running
    );
    assert_eq!(
        ServiceController::windows_status(Some(("STATE : 1 STOPPED", true))),
        ServiceStatus::Stopped
    );
    assert_eq!(
        ServiceController::windows_status(Some(("RUNNING STOPPED", false))),
        ServiceStatus::Running
    );
    assert_eq!(
        ServiceController::windows_status(Some(("not found", false))),
        ServiceStatus::NotInstalled
    );
    assert_eq!(ServiceController::windows_status(Some(("", true))), ServiceStatus::Unknown);
}

#[test]
fn status_answer_says_installed_and_running() {
    let c = ServiceController::new();
    let r = c.get_status(ServiceStatus::Running);
    assert_eq!((r.status.as_str(), r.installed, r.running), ("running", true, true));
    assert_eq!(r.label, "com.ralphtown.server");
    let r = c.get_status(ServiceStatus::Stopped);
    assert_eq!((r.status.as_str(), r.installed, r.running), ("stopped", true, false));
    let r = c.get_status(ServiceStatus::NotInstalled);
    assert_eq!((r.status.as_str(), r.installed, r.running), ("not_installed", false, false));
    let r = c.get_status(ServiceStatus::Unknown);
    assert_eq!((r.status.as_str(), r.installed, r.running), ("unknown", false, false));
}

#[test]
fn operations_answer_with_their_messages() {
    let ok = |op| ServiceController::operation_response(op, Ok(())).unwrap();
    assert!(ok(ServiceOperation::Install).success);
    assert_eq!(
        ok(ServiceOperation::Install).message,
        "Service installed successfully. It will start automatically on login."
    );
    assert_eq!(ok(ServiceOperation::Uninstall).message, "Service uninstalled successfully.");
    assert_eq!(ok(ServiceOperation::Start).message, "Service started successfully.");
    assert_eq!(ok(ServiceOperation::Stop).message, "Service stopped successfully.");
    let failed = ServiceController::operation_failed(ServiceOperation::Start, "unit not found");
    assert_eq!(failed, ServiceError::OperationFailed("start: unit not found".to_string()));
    assert_eq!(
        ServiceController::operation_response(ServiceOperation::Start, Err(failed)),
        Err(AppError::Internal(
            "Failed to start service: Service operation failed: start: unit not found".to_string()
        ))
    );
    assert_eq!(
        ServiceController::operation_response(
            ServiceOperation::Install,
            Err(ServiceError::NoServiceManager("none".to_string()))
        ),
        Err(AppError::Internal(
            "Failed to install service: Failed to detect service manager: none".to_string()
        ))
    );
    assert_eq!(
        ServiceController::operation_response(
            ServiceOperation::Uninstall,
            Err(ServiceError::ExecutableNotFound("gone".to_string()))
        ),
        Err(AppError::Internal(
            "Failed to uninstall service: Could not find current executable: gone".to_string()
        ))
    );
    assert_eq!(
        ServiceController::operation_failed(ServiceOperation::Stop, "x").to_string(),
        "Service operation failed: stop: x"
    );
}

#[test]
fn test_get_service_status() {
    let controller = ServiceController::new();
    for status in [
        ServiceStatus::Running,
        ServiceStatus::Stopped,
        ServiceStatus::NotInstalled,
        ServiceStatus::Unknown,
    ] {
        let body = controller.get_status(status);
        assert!(["running", "stopped", "not_installed", "unknown"].contains(&body.status.as_str()));
        assert!(!body.label.is_empty());
    }
}

#[test]
fn test_health_check_returns_200() {
    let body = ralphtown::health_check();
    assert_eq!(body.status, "ok");
}

#[test]
fn service_goes_by_its_platform_names() {
    assert_eq!(SERVICE_LABEL, "com.ralphtown.server");
    assert_eq!(ralphtown::service::SYSTEMD_UNIT, "ralphtown");
    assert_eq!(ralphtown::service::WINDOWS_SERVICE, "Ralphtown");
}
