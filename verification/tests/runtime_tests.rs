use volt_usb_manager::runtime::cli::{Cli, Command};
use volt_usb_manager::runtime::shutdown::ShutdownController;

fn no_flags() -> Cli {
    Cli {
        config: None,
        check_config: None,
        status: false,
        mount: false,
        unmount: false,
        flush: false,
        eject: false,
        recover: false,
        simulate_write: false,
        simulate_recovery: false,
        version: false,
    }
}

#[test]
fn test_cli_default() {
    let cli = no_flags();
    assert!(cli.config.is_none());
    assert!(!cli.mount);
}

#[test]
fn cli_command_priority() {
    assert_eq!(no_flags().command(), Command::Nothing);
    let mut cli = no_flags();
    cli.eject = true;
    cli.recover = true;
    assert_eq!(cli.command(), Command::Eject);
    cli.check_config = Some("x.toml".to_string());
    assert_eq!(cli.command(), Command::CheckConfig);
    cli.version = true;
    assert_eq!(cli.command(), Command::Version);
}

#[test]
fn test_shutdown_controller() {
    let ctrl = ShutdownController::new();
    assert!(!ctrl.is_triggered());
    ctrl.trigger();
    assert!(ctrl.is_triggered());
}

#[test]
fn shutdown_trigger_is_shared() {
    let ctrl = ShutdownController::new();
    let flag = ctrl.clone_trigger();
    flag.store(true, std::sync::atomic::Ordering::SeqCst);
    assert!(ctrl.is_triggered());
}
