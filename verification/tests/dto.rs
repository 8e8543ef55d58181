use ds_controller::dto::{
    AppSettingsDto, CommandErrorDto, ReceiverStatusDto, RuntimeStatusDto, VigemStatusDto,
};
use ds_controller::runtime::{ReceiverStatus, RuntimeStatus, VirtualControllerStatus};
use ds_controller::settings::AppSettings;

#[test]
fn default_runtime_status_converts_to_idle_dto() {
    let status = RuntimeStatusDto::from(RuntimeStatus::default());
    assert_eq!(
        status,
        RuntimeStatusDto {
            receiver: ReceiverStatusDto::Idle,
            vi_gem: VigemStatusDto::Unknown,
            pressed_buttons: Vec::new(),
            packet_count: 0,
            last_packet_at: None,
        }
    );
}

#[test]
fn running_runtime_status_converts_field_by_field() {
    let status = RuntimeStatusDto::from(RuntimeStatus {
        receiver: ReceiverStatus::Running {
            bound_address: "0.0.0.0:26760".to_owned(),
            last_sender: None,
        },
        virtual_controller: VirtualControllerStatus::Ready,
        pressed_buttons: vec!["a".to_owned(), "start".to_owned()],
        packet_count: 42,
        last_packet_at: Some("123456".to_owned()),
    });
    assert_eq!(
        status,
        RuntimeStatusDto {
            receiver: ReceiverStatusDto::Running {
                bound_address: "0.0.0.0:26760".to_owned(),
                locked_sender: None,
            },
            vi_gem: VigemStatusDto::Ready,
            pressed_buttons: vec!["a".to_owned(), "start".to_owned()],
            packet_count: 42,
            last_packet_at: Some("123456".to_owned()),
        }
    );
    assert_eq!(
        ReceiverStatusDto::from(ReceiverStatus::Error("x".to_owned())),
        ReceiverStatusDto::Error {
            message: "x".to_owned()
        }
    );
    assert_eq!(
        VigemStatusDto::from(VirtualControllerStatus::Error("y".to_owned())),
        VigemStatusDto::Error {
            message: "y".to_owned()
        }
    );
}

#[test]
fn settings_round_trip_through_the_dashboard_shape() {
    let settings = AppSettings {
        port: 4000,
        packet_logging_enabled: true,
        lock_to_first_sender: true,
        ..AppSettings::default()
    };
    let dto = AppSettingsDto::from(settings);
    assert_eq!(dto.port, 4000);
    assert!(dto.packet_logging_enabled);
    assert_eq!(AppSettings::from(dto), settings);
    let odd = AppSettings {
        timeout_ms: 500,
        auto_install_updates: false,
        ..AppSettings::default()
    };
    let back = AppSettings::from(AppSettingsDto::from(odd));
    assert_eq!(back.timeout_ms, AppSettings::default().timeout_ms);
    assert!(back.auto_install_updates);
}

#[test]
fn command_errors_carry_codes() {
    let e = CommandErrorDto::not_implemented("restart_receiver");
    assert_eq!(e.code, "notImplemented");
    assert_eq!(e.message, "restart_receiver is not implemented yet");
    let e = CommandErrorDto::state_unavailable();
    assert_eq!(e.code, "stateUnavailable");
    assert_eq!(e.message, "application state is unavailable");
    assert_eq!(CommandErrorDto::invalid_settings("bad".to_owned()).code, "invalidSettings");
    assert_eq!(CommandErrorDto::receiver_error("r".to_owned()).code, "receiverError");
    assert_eq!(CommandErrorDto::updater_error("u".to_owned()).message, "u");
}
