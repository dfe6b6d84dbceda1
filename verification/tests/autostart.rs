use docsort::autostart::{
    autostart_command, disable, enable, registration_result, removal_result, status,
    status_from_registry, AutostartError, AutostartStatus, RegistryOutcome,
    RegistryRead, WindowsAutostartError,
};

#[test]
fn commands_without_backend_report_unsupported_platform() {
    assert!(matches!(enable(None), Err(AutostartError::Unsupported)));
    assert!(matches!(disable(None), Err(AutostartError::Unsupported)));
    assert!(matches!(status(None), Err(AutostartError::Unsupported)));
}

#[test]
fn commands_pass_on_the_backend_outcome() {
    assert!(enable(Some(Ok(()))).is_ok());
    assert!(disable(Some(Ok(()))).is_ok());
    assert!(matches!(status(Some(Ok(AutostartStatus::Enabled))), Ok(AutostartStatus::Enabled)));
    assert!(matches!(
        status(Some(Ok(AutostartStatus::Disabled))),
        Ok(AutostartStatus::Disabled)
    ));
    match enable(Some(Err(WindowsAutostartError::CurrentExe("no exe".to_string())))) {
        Err(AutostartError::Windows(WindowsAutostartError::CurrentExe(m))) => {
            assert_eq!(m, "no exe")
        }
        other => panic!("unexpected {other:?}"),
    }
    assert!(matches!(
        disable(Some(Err(WindowsAutostartError::Registry("denied".to_string())))),
        Err(AutostartError::Windows(WindowsAutostartError::Registry(_)))
    ));
}

#[test]
fn command_line_is_quoted() {
    assert_eq!(
        autostart_command(r"C:\Users\me\AppData\Local\DocSort\docsort.exe"),
        r#""C:\Users\me\AppData\Local\DocSort\docsort.exe""#
    );
    assert_eq!(autostart_command(""), "\"\"");
}

#[test]
fn status_from_registry_value() {
    assert!(matches!(
        status_from_registry(RegistryRead::Value("\"C:\\docsort.exe\"".to_string())),
        Ok(AutostartStatus::Enabled)
    ));
    assert!(matches!(
        status_from_registry(RegistryRead::Value(" \t\n\u{3000}".to_string())),
        Ok(AutostartStatus::Disabled)
    ));
    assert!(matches!(
        status_from_registry(RegistryRead::Value(String::new())),
        Ok(AutostartStatus::Disabled)
    ));
    assert!(matches!(
        status_from_registry(RegistryRead::NotFound),
        Ok(AutostartStatus::Disabled)
    ));
    match status_from_registry(RegistryRead::Failed("access denied".to_string())) {
        Err(WindowsAutostartError::Registry(m)) => assert_eq!(m, "access denied"),
        other => panic!("unexpected {other:?}"),
    }
}

#[test]
fn removing_a_missing_entry_succeeds() {
    assert!(removal_result(RegistryOutcome::Done).is_ok());
    assert!(removal_result(RegistryOutcome::NotFound("gone".to_string())).is_ok());
    match removal_result(RegistryOutcome::Failed("locked".to_string())) {
        Err(WindowsAutostartError::Registry(m)) => assert_eq!(m, "locked"),
        other => panic!("unexpected {other:?}"),
    }
}

#[test]
fn any_failed_write_is_a_registry_error() {
    assert!(registration_result(RegistryOutcome::Done).is_ok());
    assert!(matches!(
        registration_result(RegistryOutcome::NotFound("no key".to_string())),
        Err(WindowsAutostartError::Registry(_))
    ));
    assert!(matches!(
        registration_result(RegistryOutcome::Failed("denied".to_string())),
        Err(WindowsAutostartError::Registry(_))
    ));
}

#[test]
fn failure_messages() {
    assert_eq!(
        AutostartError::Unsupported.message(),
        "autostart is not supported on this platform"
    );
    assert_eq!(
        AutostartError::Windows(WindowsAutostartError::CurrentExe("not found".to_string()))
            .message(),
        "unable to resolve DocSort executable path: not found"
    );
    assert_eq!(
        WindowsAutostartError::Registry("Access is denied.".to_string()).message(),
        "Windows registry operation failed: Access is denied."
    );
}
