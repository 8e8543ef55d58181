//! The shapes in which settings, status and errors travel to the
//! dashboard, and the conversions into them.

use vstd::prelude::*;
use vstd::std_specs::convert::{FromSpec, FromSpecImpl};
use crate::runtime::{ReceiverStatus, RuntimeStatus, VirtualControllerStatus};
use crate::settings::{AppSettings, default_settings};

verus! {

/// The settings the dashboard edits.
#[derive(Clone, Copy, Debug, PartialEq, Eq, Structural)]
pub struct AppSettingsDto {
    pub port: u16,
    pub start_receiver_when_app_opens: bool,
    pub lock_to_first_sender: bool,
    pub packet_logging_enabled: bool,
}

impl From<AppSettings> for AppSettingsDto {
    fn from(settings: AppSettings) -> (d: AppSettingsDto) {
        AppSettingsDto {
            port: settings.port,
            start_receiver_when_app_opens: settings.start_receiver_when_app_opens,
            lock_to_first_sender: settings.lock_to_first_sender,
            packet_logging_enabled: settings.packet_logging_enabled,
        }
    }
}

impl FromSpecImpl<AppSettings> for AppSettingsDto {
    open spec fn obeys_from_spec() -> bool {
        true
    }

    open spec fn from_spec(settings: AppSettings) -> AppSettingsDto {
        AppSettingsDto {
            port: settings.port,
            start_receiver_when_app_opens: settings.start_receiver_when_app_opens,
            lock_to_first_sender: settings.lock_to_first_sender,
            packet_logging_enabled: settings.packet_logging_enabled,
        }
    }
}

impl From<AppSettingsDto> for AppSettings {
    fn from(settings: AppSettingsDto) -> (s: AppSettings)
        ensures
            s.port == settings.port,
            s.start_receiver_when_app_opens == settings.start_receiver_when_app_opens,
            s.lock_to_first_sender == settings.lock_to_first_sender,
            s.packet_logging_enabled == settings.packet_logging_enabled,
    {
        let defaults = AppSettings::default();
        AppSettings {
            port: settings.port,
            start_receiver_when_app_opens: settings.start_receiver_when_app_opens,
            lock_to_first_sender: settings.lock_to_first_sender,
            packet_logging_enabled: settings.packet_logging_enabled,
            auto_download_updates: defaults.auto_download_updates,
            auto_install_updates: defaults.auto_install_updates,
            timeout_ms: defaults.timeout_ms,
        }
    }
}

impl FromSpecImpl<AppSettingsDto> for AppSettings {
    open spec fn obeys_from_spec() -> bool {
        true
    }

    /// The dashboard's fields, and the defaults for the rest.
    open spec fn from_spec(settings: AppSettingsDto) -> AppSettings {
        AppSettings {
            port: settings.port,
            start_receiver_when_app_opens: settings.start_receiver_when_app_opens,
            lock_to_first_sender: settings.lock_to_first_sender,
            packet_logging_enabled: settings.packet_logging_enabled,
            ..default_settings()
        }
    }
}

/// The receiver as the dashboard receives it.
#[derive(Clone, Debug, PartialEq, Eq)]
pub enum ReceiverStatusDto {
    Idle,
    Starting,
    Running { bound_address: String, locked_sender: Option<String> },
    Stopping,
    Error { message: String },
}

/// The receiver status in dashboard form.
pub open spec fn receiver_status_dto(status: ReceiverStatus) -> ReceiverStatusDto {
    match status {
        ReceiverStatus::Idle => ReceiverStatusDto::Idle,
        ReceiverStatus::Starting => ReceiverStatusDto::Starting,
        ReceiverStatus::Running { bound_address, last_sender } => ReceiverStatusDto::Running {
            bound_address,
            locked_sender: last_sender,
        },
        ReceiverStatus::Stopping => ReceiverStatusDto::Stopping,
        ReceiverStatus::Error(message) => ReceiverStatusDto::Error { message },
    }
}

impl From<ReceiverStatus> for ReceiverStatusDto {
    fn from(status: ReceiverStatus) -> (d: ReceiverStatusDto) {
        match status {
            ReceiverStatus::Idle => ReceiverStatusDto::Idle,
            ReceiverStatus::Starting => ReceiverStatusDto::Starting,
            ReceiverStatus::Running { bound_address, last_sender } => ReceiverStatusDto::Running {
                bound_address,
                locked_sender: last_sender,
            },
            ReceiverStatus::Stopping => ReceiverStatusDto::Stopping,
            ReceiverStatus::Error(message) => ReceiverStatusDto::Error { message },
        }
    }
}

impl FromSpecImpl<ReceiverStatus> for ReceiverStatusDto {
    open spec fn obeys_from_spec() -> bool {
        true
    }

    open spec fn from_spec(status: ReceiverStatus) -> ReceiverStatusDto {
        receiver_status_dto(status)
    }
}

/// The virtual controller as the dashboard receives it.
#[derive(Clone, Debug, PartialEq, Eq)]
pub enum VigemStatusDto {
    Unknown,
    Ready,
    Error { message: String },
}

/// The controller status in dashboard form.
pub open spec fn vigem_status_dto(status: VirtualControllerStatus) -> VigemStatusDto {
    match status {
        VirtualControllerStatus::Unknown => VigemStatusDto::Unknown,
        VirtualControllerStatus::Ready => VigemStatusDto::Ready,
        VirtualControllerStatus::Error(message) => VigemStatusDto::Error { message },
    }
}

impl From<VirtualControllerStatus> for VigemStatusDto {
    fn from(status: VirtualControllerStatus) -> (d: VigemStatusDto) {
        match status {
            VirtualControllerStatus::Unknown => VigemStatusDto::Unknown,
            VirtualControllerStatus::Ready => VigemStatusDto::Ready,
            VirtualControllerStatus::Error(message) => VigemStatusDto::Error { message },
        }
    }
}

impl FromSpecImpl<VirtualControllerStatus> for VigemStatusDto {
    open spec fn obeys_from_spec() -> bool {
        true
    }

    open spec fn from_spec(status: VirtualControllerStatus) -> VigemStatusDto {
        vigem_status_dto(status)
    }
}

/// Everything the dashboard shows about the receiver.
#[derive(Clone, Debug, PartialEq, Eq)]
pub struct RuntimeStatusDto {
    pub receiver: ReceiverStatusDto,
    pub vi_gem: VigemStatusDto,
    pub pressed_buttons: Vec<String>,
    pub packet_count: u64,
    pub last_packet_at: Option<String>,
}

impl From<RuntimeStatus> for RuntimeStatusDto {
    fn from(status: RuntimeStatus) -> (d: RuntimeStatusDto) {
        RuntimeStatusDto {
            receiver: ReceiverStatusDto::from(status.receiver),
            vi_gem: VigemStatusDto::from(status.virtual_controller),
            pressed_buttons: status.pressed_buttons,
            packet_count: status.packet_count,
            last_packet_at: status.last_packet_at,
        }
    }
}

impl FromSpecImpl<RuntimeStatus> for RuntimeStatusDto {
    open spec fn obeys_from_spec() -> bool {
        true
    }

    open spec fn from_spec(status: RuntimeStatus) -> RuntimeStatusDto {
        RuntimeStatusDto {
            receiver: receiver_status_dto(status.receiver),
            vi_gem: vigem_status_dto(status.virtual_controller),
            pressed_buttons: status.pressed_buttons,
            packet_count: status.packet_count,
            last_packet_at: status.last_packet_at,
        }
    }
}

/// An error that a dashboard command answers with.
#[derive(Clone, Debug, PartialEq, Eq)]
pub struct CommandErrorDto {
    pub code: String,
    pub message: String,
}

impl CommandErrorDto {
    /// The answer of a command that does not exist yet.
    pub fn not_implemented(command_name: &str) -> (e: CommandErrorDto)
        ensures
            e.code@ == "notImplemented"@,
            e.message@ == command_name@ + " is not implemented yet"@,
    {
        let mut message = String::from_str(command_name);
        message.append(" is not implemented yet");
        CommandErrorDto { code: String::from_str("notImplemented"), message }
    }

    /// The answer when shared application state cannot be locked.
    pub fn state_unavailable() -> (e: CommandErrorDto)
        ensures
            e.code@ == "stateUnavailable"@,
            e.message@ == "application state is unavailable"@,
    {
        CommandErrorDto {
            code: String::from_str("stateUnavailable"),
            message: String::from_str("application state is unavailable"),
        }
    }

    /// The answer to settings that were refused.
    pub fn invalid_settings(message: String) -> (e: CommandErrorDto)
        ensures
            e.code@ == "invalidSettings"@,
            e.message == message,
    {
        CommandErrorDto { code: String::from_str("invalidSettings"), message }
    }

    /// The answer to a receiver command that failed.
    pub fn receiver_error(message: String) -> (e: CommandErrorDto)
        ensures
            e.code@ == "receiverError"@,
            e.message == message,
    {
        CommandErrorDto { code: String::from_str("receiverError"), message }
    }

    /// The answer to an update command that failed.
    pub fn updater_error(message: String) -> (e: CommandErrorDto)
        ensures
            e.code@ == "updaterError"@,
            e.message == message,
    {
        CommandErrorDto { code: String::from_str("updaterError"), message }
    }
}

/// The settings that converting the dashboard's settings `d` gives.
pub open spec fn settings_from_dashboard(d: AppSettingsDto) -> AppSettings {
    <AppSettings as FromSpec<AppSettingsDto>>::from_spec(d)
}

/// Converting the dashboard's settings keeps every field the dashboard
/// edits: the port and the three switches are the user's, and turning the
/// result back into the dashboard's form gives the same settings.
pub proof fn lemma_dashboard_settings_are_kept(d: AppSettingsDto)
    ensures
        settings_from_dashboard(d).port == d.port,
        settings_from_dashboard(d).start_receiver_when_app_opens == d.start_receiver_when_app_opens,
        settings_from_dashboard(d).lock_to_first_sender == d.lock_to_first_sender,
        settings_from_dashboard(d).packet_logging_enabled == d.packet_logging_enabled,
        <AppSettingsDto as FromSpec<AppSettings>>::from_spec(settings_from_dashboard(d)) == d,
{
}

} // verus!
