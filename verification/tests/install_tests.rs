use exec_bridge::event::Event;
use exec_bridge::install::{run_installation, WsBuiltinFunction};
use exec_bridge::job::{InstallCommand, JobPhase, LocalInstallMode};
use exec_bridge::relay::RelayAction;

#[test]
fn install_names_the_package_with_its_version() {
    let mut session = WsBuiltinFunction::new();
    let job = session.install(
        "/srv/app".to_string(),
        "extension".to_string(),
        "ext_a".to_string(),
        Some("1.2.3".to_string()),
    );
    assert_eq!(
        job.command,
        InstallCommand {
            package_type: Some("extension".to_string()),
            package_name: Some("ext_a@1.2.3".to_string()),
            local_install_mode: LocalInstallMode::Link,
            standalone: false,
            local_path: None,
            cwd: "/srv/app".to_string(),
        }
    );
}

#[test]
fn install_without_version_names_the_package_alone() {
    let mut session = WsBuiltinFunction::new();
    let job =
        session.install("/srv/app".to_string(), "extension".to_string(), "ext_a".to_string(), None);
    assert_eq!(job.command.package_name, Some("ext_a".to_string()));
    assert_eq!(job.command.package_type, Some("extension".to_string()));
}

#[test]
fn install_all_names_no_package() {
    let mut session = WsBuiltinFunction::new();
    let job = session.install_all("/srv/app".to_string());
    assert_eq!(
        job.command,
        InstallCommand {
            package_type: None,
            package_name: None,
            local_install_mode: LocalInstallMode::Link,
            standalone: false,
            local_path: None,
            cwd: "/srv/app".to_string(),
        }
    );
}

#[test]
fn session_without_a_job_has_nothing_to_poll() {
    let mut session = WsBuiltinFunction::new();
    assert_eq!(session.current_phase(), None);
    assert_eq!(session.advance(), RelayAction::Stop);
}

#[test]
fn installation_progress_reaches_the_session_in_order() {
    let mut session = WsBuiltinFunction::new();
    let job = session.install_all("/srv/app".to_string());
    assert_eq!(session.advance(), RelayAction::Yield);
    job.sink.normal_line("Resolving packages").unwrap();
    job.sink.error_line("warning: slow mirror").unwrap();
    job.sink.finish(Ok(())).unwrap();
    assert_eq!(
        session.advance(),
        RelayAction::Dispatch(Event::NormalLine("Resolving packages".to_string()))
    );
    assert_eq!(
        session.advance(),
        RelayAction::Dispatch(Event::ErrorLine("warning: slow mirror".to_string()))
    );
    assert_eq!(session.current_phase(), Some(JobPhase::Running));
    assert_eq!(session.advance(), RelayAction::Dispatch(Event::Exit { code: 0, message: None }));
    assert_eq!(session.current_phase(), Some(JobPhase::Completed));
    assert_eq!(session.advance(), RelayAction::Stop);
}

#[test]
fn failed_installation_reports_its_cause() {
    let mut session = WsBuiltinFunction::new();
    let command = InstallCommand {
        package_type: None,
        package_name: None,
        local_install_mode: LocalInstallMode::Copy,
        standalone: true,
        local_path: Some("/pkgs/a".to_string()),
        cwd: ".".to_string(),
    };
    let job = run_installation(&mut session, command);
    assert_eq!(job.command.local_install_mode, LocalInstallMode::Copy);
    assert_eq!(job.command.local_path, Some("/pkgs/a".to_string()));
    job.sink.finish(Err("package index is unreachable".to_string())).unwrap();
    assert_eq!(
        session.advance(),
        RelayAction::Dispatch(Event::Exit {
            code: -1,
            message: Some("package index is unreachable".to_string()),
        })
    );
    assert_eq!(session.advance(), RelayAction::Stop);
}

#[test]
fn worker_that_dies_silently_still_ends_the_job() {
    let mut session = WsBuiltinFunction::new();
    let job = session.install_all(".".to_string());
    drop(job);
    assert_eq!(session.advance(), RelayAction::Dispatch(Event::worker_lost()));
    assert_eq!(session.advance(), RelayAction::Stop);
}
