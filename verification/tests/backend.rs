use ds_controller::backend::{create_backend, BackendError, ControllerBackend, NoopBackend};
use ds_controller::mapping::ControllerOutputState;

#[test]
fn creates_usable_noop_backend() {
    let mut backend = create_backend(true).expect("noop backend");

    assert!(backend.update(ControllerOutputState::default()).is_ok());
    assert!(backend.neutral().is_ok());
}

#[test]
fn returns_clear_error_for_vigem_on_non_windows() {
    let error = match create_backend(false) {
        Ok(_) => panic!("expected non-windows vigem error"),
        Err(error) => error,
    };

    assert!(error.to_string().contains("ViGEm output requires Windows"));
}

struct RecordingBackend {
    states: Vec<ControllerOutputState>,
}

impl ControllerBackend for RecordingBackend {
    fn update(&mut self, state: ControllerOutputState) -> Result<(), BackendError> {
        self.states.push(state);
        Ok(())
    }
}

#[test]
fn neutral_sends_default_state() {
    let mut backend = RecordingBackend { states: Vec::new() };

    backend.neutral().expect("neutral update");

    assert_eq!(backend.states, vec![ControllerOutputState::default()]);
}

#[test]
fn backend_error_keeps_its_message() {
    let error = BackendError::new("device gone".to_owned());
    assert_eq!(error.to_string(), "device gone");
    let error = create_backend(false).err().expect("error off windows");
    assert_eq!(
        error.to_string(),
        "ViGEm output requires Windows; use --no-vigem on this platform"
    );
}

#[test]
fn noop_backend_accepts_every_state() {
    let mut backend = NoopBackend::new();

    assert!(backend.update(ControllerOutputState::default()).is_ok());
    assert!(backend.neutral().is_ok());
    assert!(backend.neutral().is_ok());
}
