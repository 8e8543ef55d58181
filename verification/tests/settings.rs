use ds_controller::settings::{
    default_auto_download_updates, migrate_settings, AppSettings, DEFAULT_PORT,
    DEFAULT_TIMEOUT_MS, LEGACY_DEFAULT_TIMEOUT_MS,
};

#[test]
fn uses_planned_default_settings() {
    let settings = AppSettings::default();

    assert_eq!(settings.port, DEFAULT_PORT);
    assert!(settings.start_receiver_when_app_opens);
    assert!(!settings.packet_logging_enabled);
    assert!(settings.auto_download_updates);
    assert_eq!(DEFAULT_TIMEOUT_MS, 75);
    assert_eq!(settings.timeout_ms, DEFAULT_TIMEOUT_MS);
}

#[test]
fn migrates_legacy_default_timeout() {
    let mut settings = AppSettings {
        timeout_ms: LEGACY_DEFAULT_TIMEOUT_MS,
        ..AppSettings::default()
    };

    migrate_settings(&mut settings);

    assert_eq!(settings.timeout_ms, DEFAULT_TIMEOUT_MS);
}

#[test]
fn rejects_timeout_values_that_can_make_receiver_shutdown_unbounded() {
    let settings = AppSettings {
        timeout_ms: 60_001,
        ..AppSettings::default()
    };

    assert_eq!(
        settings.validate(),
        Err("timeout must be between 1 and 1000 milliseconds".to_owned())
    );
}

#[test]
fn validation_checks_port_first_and_accepts_bounds() {
    let settings = AppSettings {
        port: 0,
        timeout_ms: 0,
        ..AppSettings::default()
    };
    assert_eq!(
        settings.validate(),
        Err("port must be between 1 and 65535".to_owned())
    );
    for timeout_ms in [1, 1000] {
        let settings = AppSettings {
            timeout_ms,
            ..AppSettings::default()
        };
        assert_eq!(settings.validate(), Ok(()));
    }
    let settings = AppSettings {
        timeout_ms: 0,
        ..AppSettings::default()
    };
    assert!(settings.validate().is_err());
}

#[test]
fn migration_keeps_other_timeouts() {
    let mut settings = AppSettings {
        timeout_ms: 400,
        port: 3000,
        ..AppSettings::default()
    };
    let before = settings;
    migrate_settings(&mut settings);
    assert_eq!(settings, before);
    assert!(default_auto_download_updates());
}
