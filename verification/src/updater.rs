//! The update session: which update operation may run, and what the
//! dashboard is told about updates. The session holds the update handle
//! of the updater plugin as an opaque `T`.

use vstd::prelude::*;
use crate::dto::CommandErrorDto;
use crate::runtime::{
    copy_optional_string, copy_string, install_refused_message, reserve_install_step,
    LifecycleState, ReceiverLifecycle, StopOutcome,
};
use crate::settings::AppSettings;

verus! {

/// Where the update process stands.
#[derive(Clone, Copy, Debug, PartialEq, Eq, Structural)]
pub enum UpdatePhase {
    Idle,
    Current,
    Unavailable,
    Available,
    Downloading,
    Ready,
    Installing,
    RestartRequired,
}

/// An update operation that holds the session while it runs.
#[derive(Clone, Copy, Debug, PartialEq, Eq, Structural)]
pub enum UpdateOperation {
    Check,
    Download,
    Install,
}

/// Whether an installation was asked for by the user or started on its own.
#[derive(Clone, Copy, Debug, PartialEq, Eq, Structural)]
pub enum InstallMode {
    Manual,
    Automatic,
}

/// What the dashboard is told about updates.
#[derive(Clone, Debug, PartialEq, Eq)]
pub struct UpdateSnapshot {
    /// Grows with every published change.
    pub revision: u64,
    pub phase: UpdatePhase,
    pub operation: Option<UpdateOperation>,
    pub current_version: String,
    pub available_version: Option<String>,
    pub notes: Option<String>,
    pub downloaded_bytes: u64,
    pub total_bytes: Option<u64>,
    pub error: Option<String>,
    pub auto_download_enabled: bool,
    pub auto_install_enabled: bool,
}

impl UpdateSnapshot {
    /// A copy of the snapshot.
    pub fn copied(&self) -> (r: UpdateSnapshot)
        ensures
            r == *self,
    {
        UpdateSnapshot {
            revision: self.revision,
            phase: self.phase,
            operation: self.operation,
            current_version: copy_string(&self.current_version),
            available_version: copy_optional_string(&self.available_version),
            notes: copy_optional_string(&self.notes),
            downloaded_bytes: self.downloaded_bytes,
            total_bytes: self.total_bytes,
            error: copy_optional_string(&self.error),
            auto_download_enabled: self.auto_download_enabled,
            auto_install_enabled: self.auto_install_enabled,
        }
    }
}

/// Proof that an operation holds the session; finishing the operation
/// takes it back.
#[derive(Clone, Copy, Debug, PartialEq, Eq, Structural)]
pub struct OperationReservation(u64);

impl View for OperationReservation {
    type V = u64;

    closed spec fn view(&self) -> u64 {
        self.0
    }
}

/// Why an update operation could not start.
#[derive(Clone, Copy, Debug, PartialEq, Eq, Structural)]
pub enum UpdateSessionError {
    Busy,
    NoAvailableUpdate,
    NoReadyUpdate,
    AutomaticCheckSuppressed,
    RetainedUpdate,
    RestartRequired,
}

/// The message of an update session error.
pub open spec fn session_error_message(e: UpdateSessionError) -> Seq<char> {
    match e {
        UpdateSessionError::Busy => "another update operation is already running"@,
        UpdateSessionError::NoAvailableUpdate => "there is no update available to download"@,
        UpdateSessionError::NoReadyUpdate => "there is no verified update ready to install"@,
        UpdateSessionError::AutomaticCheckSuppressed =>
            "automatic update checks are deferred for this session"@,
        UpdateSessionError::RetainedUpdate =>
            "the retained update must be downloaded or installed first"@,
        UpdateSessionError::RestartRequired =>
            "restart is required before another update operation"@,
    }
}

impl UpdateSessionError {
    /// The human-readable message of the error.
    pub fn to_string(&self) -> (s: String)
        ensures
            s@ == session_error_message(*self),
    {
        let message = match self {
            UpdateSessionError::Busy => "another update operation is already running",
            UpdateSessionError::NoAvailableUpdate => "there is no update available to download",
            UpdateSessionError::NoReadyUpdate => "there is no verified update ready to install",
            UpdateSessionError::AutomaticCheckSuppressed =>
                "automatic update checks are deferred for this session",
            UpdateSessionError::RetainedUpdate =>
                "the retained update must be downloaded or installed first",
            UpdateSessionError::RestartRequired =>
                "restart is required before another update operation",
        };
        String::from_str(message)
    }
}

/// The command error that answers an update session error.
pub fn update_command_error(error: UpdateSessionError) -> (e: CommandErrorDto)
    ensures
        e.code@ == "updaterError"@,
        e.message@ == session_error_message(error),
{
    CommandErrorDto::updater_error(error.to_string())
}

/// The update session of one application run. `resource` holds the update
/// found by the last check and, once downloaded, its verified bytes.
pub struct UpdateSession<T> {
    pub snapshot: UpdateSnapshot,
    pub resource: Option<(T, Option<Vec<u8>>)>,
    pub automatic_checks_suppressed: bool,
    pub next_operation_id: u64,
    pub active_operation_id: Option<u64>,
}

/// `rev` advanced by one, stopping at the largest revision.
pub open spec fn bumped(rev: u64) -> u64 {
    if rev == u64::MAX {
        rev
    } else {
        (rev + 1) as u64
    }
}

/// The resource holds an update but no bytes yet.
pub open spec fn has_pending<T>(resource: Option<(T, Option<Vec<u8>>)>) -> bool {
    resource matches Some((_, None))
}

/// The resource holds an update and its verified bytes.
pub open spec fn has_bytes<T>(resource: Option<(T, Option<Vec<u8>>)>) -> bool {
    resource matches Some((_, Some(_)))
}

/// Why `operation` may not start now, if it may not.
pub open spec fn reserve_error<T>(s: UpdateSession<T>, operation: UpdateOperation, manual: bool) -> Option<
    UpdateSessionError,
> {
    if s.active_operation_id is Some {
        Some(UpdateSessionError::Busy)
    } else if s.snapshot.phase == UpdatePhase::RestartRequired {
        Some(UpdateSessionError::RestartRequired)
    } else if operation == UpdateOperation::Check && (s.snapshot.phase == UpdatePhase::Available
        || s.snapshot.phase == UpdatePhase::Ready) {
        Some(UpdateSessionError::RetainedUpdate)
    } else if operation == UpdateOperation::Check && !manual && s.automatic_checks_suppressed {
        Some(UpdateSessionError::AutomaticCheckSuppressed)
    } else if operation == UpdateOperation::Download && !has_pending(s.resource) {
        Some(UpdateSessionError::NoAvailableUpdate)
    } else if operation == UpdateOperation::Install && !has_bytes(s.resource) {
        Some(UpdateSessionError::NoReadyUpdate)
    } else {
        None
    }
}

/// The session once `operation` has started.
pub open spec fn reserved<T>(s: UpdateSession<T>, operation: UpdateOperation, manual: bool) -> UpdateSession<T> {
    let id = (if s.next_operation_id == u64::MAX { 0 } else { s.next_operation_id + 1 }) as u64;
    let snap = UpdateSnapshot {
        operation: Some(operation),
        error: None,
        revision: bumped(s.snapshot.revision),
        ..s.snapshot
    };
    let snap = if operation == UpdateOperation::Download {
        UpdateSnapshot {
            phase: UpdatePhase::Downloading,
            downloaded_bytes: 0,
            total_bytes: None,
            ..snap
        }
    } else if operation == UpdateOperation::Install {
        UpdateSnapshot { phase: UpdatePhase::Installing, ..snap }
    } else {
        snap
    };
    UpdateSession {
        snapshot: snap,
        automatic_checks_suppressed: if operation == UpdateOperation::Check && manual {
            false
        } else {
            s.automatic_checks_suppressed
        },
        next_operation_id: id,
        active_operation_id: Some(id),
        ..s
    }
}

/// The reservation `r` holds the session.
pub open spec fn holds<T>(s: UpdateSession<T>, r: OperationReservation) -> bool {
    s.active_operation_id == Some(r@)
}

/// The session once its operation has ended, before the operation's own
/// changes.
pub open spec fn released<T>(s: UpdateSession<T>) -> UpdateSession<T> {
    UpdateSession {
        active_operation_id: None,
        snapshot: UpdateSnapshot {
            operation: None,
            revision: bumped(s.snapshot.revision),
            ..s.snapshot
        },
        ..s
    }
}

/// Whether a ready update should be installed without asking.
pub open spec fn should_install_spec<T>(s: UpdateSession<T>) -> bool {
    &&& s.snapshot.auto_install_enabled
    &&& s.snapshot.phase == UpdatePhase::Ready
    &&& s.snapshot.operation is None
    &&& has_bytes(s.resource)
}

/// The phase after an operation failed in phase `phase`: a failed download
/// or installation falls back to the update it started from.
pub open spec fn phase_after_failure<T>(phase: UpdatePhase, resource: Option<(T, Option<Vec<u8>>)>) -> UpdatePhase {
    if phase == UpdatePhase::Downloading && resource is Some {
        UpdatePhase::Available
    } else if phase == UpdatePhase::Installing && resource is Some {
        UpdatePhase::Ready
    } else {
        phase
    }
}

/// The session after operation `r` failed with `message`.
pub open spec fn failed<T>(s: UpdateSession<T>, r: OperationReservation, message: String) -> UpdateSession<T> {
    if !holds(s, r) {
        s
    } else {
        let f = released(s);
        UpdateSession {
            snapshot: UpdateSnapshot {
                phase: phase_after_failure(f.snapshot.phase, f.resource),
                error: Some(message),
                ..f.snapshot
            },
            ..f
        }
    }
}

/// The session after a check that found `update` (or none) ended.
pub open spec fn checked<T>(
    s: UpdateSession<T>,
    update: Option<T>,
    available_version: Option<String>,
    notes: Option<String>,
) -> UpdateSession<T> {
    let f = released(s);
    UpdateSession {
        resource: match update {
            Some(u) => Some((u, None)),
            None => None,
        },
        snapshot: UpdateSnapshot {
            available_version,
            notes,
            downloaded_bytes: 0,
            total_bytes: None,
            phase: if update is Some {
                UpdatePhase::Available
            } else {
                UpdatePhase::Current
            },
            ..f.snapshot
        },
        ..f
    }
}

/// The session after `chunk` more bytes were downloaded of `total`.
pub open spec fn progressed<T>(s: UpdateSession<T>, chunk: int, total: Option<u64>) -> UpdateSession<T> {
    UpdateSession {
        snapshot: UpdateSnapshot {
            downloaded_bytes: if s.snapshot.downloaded_bytes + chunk > u64::MAX {
                u64::MAX
            } else {
                (s.snapshot.downloaded_bytes + chunk) as u64
            },
            total_bytes: total,
            revision: bumped(s.snapshot.revision),
            ..s.snapshot
        },
        ..s
    }
}

/// The session after a download that produced `bytes` ended.
pub open spec fn downloaded<T>(s: UpdateSession<T>, bytes: Vec<u8>) -> UpdateSession<T> {
    let f = released(s);
    match f.resource {
        Some((u, _)) => UpdateSession {
            resource: Some((u, Some(bytes))),
            snapshot: UpdateSnapshot { phase: UpdatePhase::Ready, ..f.snapshot },
            ..f
        },
        None => f,
    }
}

/// The session after a check found no release.
pub open spec fn unavailable<T>(s: UpdateSession<T>) -> UpdateSession<T> {
    let f = released(s);
    UpdateSession {
        resource: None,
        snapshot: UpdateSnapshot {
            phase: UpdatePhase::Unavailable,
            available_version: None,
            notes: None,
            downloaded_bytes: 0,
            total_bytes: None,
            error: None,
            ..f.snapshot
        },
        ..f
    }
}

/// What the installer receives from a session: the update and its bytes,
/// when both are held.
pub open spec fn ready_payload<T>(resource: Option<(T, Option<Vec<u8>>)>) -> Option<(T, Vec<u8>)> {
    match resource {
        Some((u, Some(b))) => Some((u, b)),
        _ => None,
    }
}

/// The session after its operation ended in a state that only a restart
/// leaves.
pub open spec fn restart_required<T>(s: UpdateSession<T>, message: String) -> UpdateSession<T> {
    let f = released(s);
    UpdateSession {
        resource: None,
        snapshot: UpdateSnapshot {
            phase: UpdatePhase::RestartRequired,
            error: Some(message),
            ..f.snapshot
        },
        ..f
    }
}

/// The session after a ready update was dropped at the user's request.
pub open spec fn deferred<T>(s: UpdateSession<T>) -> UpdateSession<T> {
    UpdateSession {
        resource: None,
        automatic_checks_suppressed: true,
        snapshot: UpdateSnapshot {
            phase: UpdatePhase::Idle,
            available_version: None,
            notes: None,
            downloaded_bytes: 0,
            total_bytes: None,
            error: None,
            revision: bumped(s.snapshot.revision),
            ..s.snapshot
        },
        ..s
    }
}

/// The session with a new snapshot revision and nothing else changed.
pub open spec fn revised<T>(s: UpdateSession<T>) -> UpdateSession<T> {
    UpdateSession {
        snapshot: UpdateSnapshot { revision: bumped(s.snapshot.revision), ..s.snapshot },
        ..s
    }
}

/// The session with automatic downloads switched to `enabled`.
pub open spec fn with_auto_download<T>(s: UpdateSession<T>, enabled: bool) -> UpdateSession<T> {
    revised(UpdateSession {
        snapshot: UpdateSnapshot { auto_download_enabled: enabled, ..s.snapshot },
        ..s
    })
}

/// The session with automatic installation switched to `enabled`.
pub open spec fn with_auto_install<T>(s: UpdateSession<T>, enabled: bool) -> UpdateSession<T> {
    revised(UpdateSession {
        snapshot: UpdateSnapshot { auto_install_enabled: enabled, ..s.snapshot },
        ..s
    })
}

/// The session once the operation whose task was lost is written off.
pub open spec fn lost<T>(s: UpdateSession<T>, message: String) -> UpdateSession<T> {
    revised(UpdateSession {
        active_operation_id: None,
        resource: None,
        snapshot: UpdateSnapshot {
            operation: None,
            phase: UpdatePhase::RestartRequired,
            error: Some(message),
            ..s.snapshot
        },
        ..s
    })
}

/// The snapshot of a session that has checked nothing yet.
pub open spec fn initial_snapshot(
    current_version: String,
    auto_download_enabled: bool,
    auto_install_enabled: bool,
) -> UpdateSnapshot {
    UpdateSnapshot {
        revision: 0,
        phase: UpdatePhase::Idle,
        operation: None,
        current_version,
        available_version: None,
        notes: None,
        downloaded_bytes: 0,
        total_bytes: None,
        error: None,
        auto_download_enabled,
        auto_install_enabled,
    }
}

impl<T> UpdateSession<T> {
    /// A session with nothing checked yet.
    pub fn new(current_version: String, auto_download_enabled: bool, auto_install_enabled: bool) -> (s: UpdateSession<T>)
        ensures
            s.snapshot == initial_snapshot(current_version, auto_download_enabled, auto_install_enabled),
            s.resource is None,
            !s.automatic_checks_suppressed,
            s.next_operation_id == 0,
            s.active_operation_id is None,
    {
        UpdateSession {
            snapshot: UpdateSnapshot {
                revision: 0,
                phase: UpdatePhase::Idle,
                operation: None,
                current_version,
                available_version: None,
                notes: None,
                downloaded_bytes: 0,
                total_bytes: None,
                error: None,
                auto_download_enabled,
                auto_install_enabled,
            },
            resource: None,
            automatic_checks_suppressed: false,
            next_operation_id: 0,
            active_operation_id: None,
        }
    }

    /// What the dashboard is to be told now.
    pub fn snapshot(&self) -> (r: UpdateSnapshot)
        ensures
            r == self.snapshot,
    {
        self.snapshot.copied()
    }

    fn bump_revision(&mut self)
        ensures
            *final(self) == revised(*old(self)),
    {
        self.snapshot.revision = self.snapshot.revision.saturating_add(1);
    }

    /// Starts `operation` if the session allows it; `manual` tells a user's
    /// request from an automatic one.
    pub fn reserve(&mut self, operation: UpdateOperation, manual: bool) -> (r: Result<
        OperationReservation,
        UpdateSessionError,
    >)
        ensures
            reserve_error(*old(self), operation, manual) matches Some(e) ==> (r matches Err(x) && x
                == e),
            reserve_error(*old(self), operation, manual) is Some ==> *final(self) == *old(self),
            reserve_error(*old(self), operation, manual) is None ==> (r matches Ok(res) && holds(
                *final(self),
                res,
            )),
            reserve_error(*old(self), operation, manual) is None ==> *final(self) == reserved(
                *old(self),
                operation,
                manual,
            ),
    {
        if self.active_operation_id.is_some() {
            return Err(UpdateSessionError::Busy);
        }
        if self.snapshot.phase == UpdatePhase::RestartRequired {
            return Err(UpdateSessionError::RestartRequired);
        }
        if operation == UpdateOperation::Check && (self.snapshot.phase == UpdatePhase::Available
            || self.snapshot.phase == UpdatePhase::Ready) {
            return Err(UpdateSessionError::RetainedUpdate);
        }
        if operation == UpdateOperation::Check && !manual && self.automatic_checks_suppressed {
            return Err(UpdateSessionError::AutomaticCheckSuppressed);
        }
        let pending = match &self.resource {
            Some((_, None)) => true,
            _ => false,
        };
        let ready = match &self.resource {
            Some((_, Some(_))) => true,
            _ => false,
        };
        if operation == UpdateOperation::Download && !pending {
            return Err(UpdateSessionError::NoAvailableUpdate);
        }
        if operation == UpdateOperation::Install && !ready {
            return Err(UpdateSessionError::NoReadyUpdate);
        }
        if operation == UpdateOperation::Check && manual {
            self.automatic_checks_suppressed = false;
        }
        self.next_operation_id = self.next_operation_id.wrapping_add(1);
        self.active_operation_id = Some(self.next_operation_id);
        self.snapshot.operation = Some(operation);
        self.snapshot.error = None;
        if operation == UpdateOperation::Download {
            self.snapshot.phase = UpdatePhase::Downloading;
            self.snapshot.downloaded_bytes = 0;
            self.snapshot.total_bytes = None;
        } else if operation == UpdateOperation::Install {
            self.snapshot.phase = UpdatePhase::Installing;
        }
        self.bump_revision();
        Ok(OperationReservation(self.next_operation_id))
    }

    fn finish_operation(&mut self, reservation: OperationReservation) -> (r: bool)
        ensures
            r == holds(*old(self), reservation),
            r ==> *final(self) == released(*old(self)),
            !r ==> *final(self) == *old(self),
    {
        if self.active_operation_id != Some(reservation.0) {
            return false;
        }
        self.active_operation_id = None;
        self.snapshot.operation = None;
        self.bump_revision();
        true
    }

    /// Ends a check that found `update` (or none), if `reservation` still
    /// holds the session.
    pub fn finish_check(
        &mut self,
        reservation: OperationReservation,
        update: Option<T>,
        available_version: Option<String>,
        notes: Option<String>,
    )
        ensures
            !holds(*old(self), reservation) ==> *final(self) == *old(self),
            holds(*old(self), reservation) ==> *final(self) == checked(
                *old(self),
                update,
                available_version,
                notes,
            ),
    {
        if !self.finish_operation(reservation) {
            return;
        }
        let found = update.is_some();
        self.resource = match update {
            Some(u) => Some((u, None)),
            None => None,
        };
        self.snapshot.available_version = available_version;
        self.snapshot.notes = notes;
        self.snapshot.downloaded_bytes = 0;
        self.snapshot.total_bytes = None;
        self.snapshot.phase = if found {
            UpdatePhase::Available
        } else {
            UpdatePhase::Current
        };
    }

    /// Counts `chunk_length` more downloaded bytes, if `reservation` holds
    /// the session for a download; returns whether it did.
    pub fn update_download_progress(
        &mut self,
        reservation: OperationReservation,
        chunk_length: usize,
        total: Option<u64>,
    ) -> (r: bool)
        ensures
            r == (holds(*old(self), reservation) && old(self).snapshot.operation == Some(
                UpdateOperation::Download,
            )),
            !r ==> *final(self) == *old(self),
            r ==> *final(self) == progressed(*old(self), chunk_length as int, total),
            r && old(self).snapshot.downloaded_bytes + chunk_length <= u64::MAX ==> final(self).snapshot.downloaded_bytes == old(self).snapshot.downloaded_bytes + chunk_length,
            r && old(self).snapshot.downloaded_bytes + chunk_length > u64::MAX ==> final(self).snapshot.downloaded_bytes == u64::MAX,
            r ==> final(self).snapshot.total_bytes == total,
    {
        if self.active_operation_id != Some(reservation.0) || self.snapshot.operation != Some(
            UpdateOperation::Download,
        ) {
            return false;
        }
        self.snapshot.downloaded_bytes = self.snapshot.downloaded_bytes.saturating_add(
            chunk_length as u64,
        );
        self.snapshot.total_bytes = total;
        self.bump_revision();
        true
    }

    /// Ends a download that produced the verified `bytes`; returns whether
    /// the update should now be installed without asking.
    pub fn finish_download(&mut self, reservation: OperationReservation, bytes: Vec<u8>) -> (r: bool)
        ensures
            !holds(*old(self), reservation) ==> *final(self) == *old(self) && !r,
            holds(*old(self), reservation) ==> *final(self) == downloaded(*old(self), bytes),
            holds(*old(self), reservation) ==> r == should_install_spec(*final(self)),
    {
        if !self.finish_operation(reservation) {
            return false;
        }
        match self.resource.take() {
            Some((update, _)) => {
                self.resource = Some((update, Some(bytes)));
                self.snapshot.phase = UpdatePhase::Ready;
            },
            None => {},
        }
        self.should_install_automatically()
    }

    /// Ends operation `reservation` with the error `message`.
    pub fn finish_failure(&mut self, reservation: OperationReservation, message: String)
        ensures
            *final(self) == failed(*old(self), reservation, message),
            final(self).snapshot.phase == old(self).snapshot.phase || (old(self).snapshot.phase
                == UpdatePhase::Downloading && final(self).snapshot.phase == UpdatePhase::Available)
                || (old(self).snapshot.phase == UpdatePhase::Installing && final(self).snapshot.phase == UpdatePhase::Ready),
    {
        if !self.finish_operation(reservation) {
            return;
        }
        let has_resource = self.resource.is_some();
        self.snapshot.phase = if self.snapshot.phase == UpdatePhase::Downloading && has_resource {
            UpdatePhase::Available
        } else if self.snapshot.phase == UpdatePhase::Installing && has_resource {
            UpdatePhase::Ready
        } else {
            self.snapshot.phase
        };
        self.snapshot.error = Some(message);
    }

    /// Ends a check that found no release at all.
    pub fn finish_unavailable(&mut self, reservation: OperationReservation)
        ensures
            !holds(*old(self), reservation) ==> *final(self) == *old(self),
            holds(*old(self), reservation) ==> *final(self) == unavailable(*old(self)),
    {
        if !self.finish_operation(reservation) {
            return;
        }
        self.resource = None;
        self.snapshot.phase = UpdatePhase::Unavailable;
        self.snapshot.available_version = None;
        self.snapshot.notes = None;
        self.snapshot.downloaded_bytes = 0;
        self.snapshot.total_bytes = None;
        self.snapshot.error = None;
    }

    /// Hands the downloaded update and its bytes to the installer. The
    /// session gives up the resource in any case once `reservation` holds it.
    pub fn take_ready(&mut self, reservation: OperationReservation) -> (r: Option<(T, Vec<u8>)>)
        ensures
            !holds(*old(self), reservation) ==> r is None && *final(self) == *old(self),
            holds(*old(self), reservation) ==> final(self).resource is None,
            holds(*old(self), reservation) ==> final(self).snapshot == old(self).snapshot,
            final(self).automatic_checks_suppressed == old(self).automatic_checks_suppressed,
            final(self).next_operation_id == old(self).next_operation_id,
            final(self).active_operation_id == old(self).active_operation_id,
            holds(*old(self), reservation) ==> r == ready_payload(old(self).resource),
    {
        if self.active_operation_id != Some(reservation.0) {
            return None;
        }
        match self.resource.take() {
            Some((update, Some(bytes))) => Some((update, bytes)),
            _ => None,
        }
    }

    /// Puts a taken update back after its installation failed with
    /// `message`.
    pub fn restore_ready(
        &mut self,
        reservation: OperationReservation,
        update: T,
        bytes: Vec<u8>,
        message: String,
    )
        ensures
            *final(self) == failed(
                (UpdateSession { resource: Some((update, Some(bytes))), ..*old(self) }),
                reservation,
                message,
            ),
    {
        self.resource = Some((update, Some(bytes)));
        self.finish_failure(reservation, message);
    }

    /// Ends operation `reservation` in a state that only a restart leaves.
    pub fn finish_restart_required(&mut self, reservation: OperationReservation, message: String)
        ensures
            !holds(*old(self), reservation) ==> *final(self) == *old(self),
            holds(*old(self), reservation) ==> *final(self) == restart_required(*old(self), message),
    {
        if self.finish_operation(reservation) {
            self.resource = None;
            self.snapshot.phase = UpdatePhase::RestartRequired;
            self.snapshot.error = Some(message);
        }
    }

    /// Ends whatever operation ran, after its task was lost, in a state
    /// that only a restart leaves.
    pub fn finish_lost_install_operation(&mut self, message: String)
        ensures
            *final(self) == lost(*old(self), message),
    {
        self.active_operation_id = None;
        self.snapshot.operation = None;
        self.resource = None;
        self.snapshot.phase = UpdatePhase::RestartRequired;
        self.snapshot.error = Some(message);
        self.bump_revision();
    }

    /// Drops a ready update at the user's request ("later") and stops
    /// automatic checks from finding it again in this run.
    pub fn defer(&mut self) -> (r: Result<(), UpdateSessionError>)
        ensures
            old(self).active_operation_id is Some ==> (r matches Err(e) && e
                == UpdateSessionError::Busy),
            old(self).active_operation_id is None && !has_bytes(old(self).resource) ==> (r matches Err(
                e,
            ) && e == UpdateSessionError::NoReadyUpdate),
            r is Err ==> *final(self) == *old(self),
            r is Ok <==> old(self).active_operation_id is None && has_bytes(old(self).resource),
            r is Ok ==> *final(self) == deferred(*old(self)),
    {
        if self.active_operation_id.is_some() {
            return Err(UpdateSessionError::Busy);
        }
        let ready = match &self.resource {
            Some((_, Some(_))) => true,
            _ => false,
        };
        if !ready {
            return Err(UpdateSessionError::NoReadyUpdate);
        }
        self.resource = None;
        self.snapshot.phase = UpdatePhase::Idle;
        self.snapshot.available_version = None;
        self.snapshot.notes = None;
        self.snapshot.downloaded_bytes = 0;
        self.snapshot.total_bytes = None;
        self.snapshot.error = None;
        self.automatic_checks_suppressed = true;
        self.bump_revision();
        Ok(())
    }

    /// Switches automatic downloads on or off.
    pub fn set_auto_download_enabled(&mut self, enabled: bool)
        ensures
            *final(self) == with_auto_download(*old(self), enabled),
    {
        self.snapshot.auto_download_enabled = enabled;
        self.bump_revision();
    }

    /// Switches automatic installation on or off; returns whether a ready
    /// update should now be installed without asking.
    pub fn set_auto_install_enabled(&mut self, enabled: bool) -> (r: bool)
        ensures
            *final(self) == with_auto_install(*old(self), enabled),
            r == should_install_spec(*final(self)),
    {
        self.snapshot.auto_install_enabled = enabled;
        self.bump_revision();
        self.should_install_automatically()
    }

    /// Whether a ready update should be installed without asking.
    pub fn should_install_automatically(&self) -> (r: bool)
        ensures
            r == should_install_spec(*self),
    {
        let ready = match &self.resource {
            Some((_, Some(_))) => true,
            _ => false,
        };
        self.snapshot.auto_install_enabled && self.snapshot.phase == UpdatePhase::Ready
            && self.snapshot.operation.is_none() && ready
    }

    /// The current phase.
    pub fn phase(&self) -> (p: UpdatePhase)
        ensures
            p == self.snapshot.phase,
    {
        self.snapshot.phase
    }

    /// Whether verified update bytes are held.
    pub fn has_payload(&self) -> (r: bool)
        ensures
            r == has_bytes(self.resource),
    {
        match &self.resource {
            Some((_, Some(_))) => true,
            _ => false,
        }
    }

    /// Whether automatic checks are off for the rest of this run.
    pub fn automatic_checks_suppressed(&self) -> (r: bool)
        ensures
            r == self.automatic_checks_suppressed,
    {
        self.automatic_checks_suppressed
    }
}

/// Every transition that the dashboard is told of advances the snapshot
/// revision, as long as the revision has room to grow.
pub proof fn lemma_transitions_advance_revision<T>(
    s: UpdateSession<T>,
    operation: UpdateOperation,
    manual: bool,
    r: OperationReservation,
    update: Option<T>,
    version: Option<String>,
    notes: Option<String>,
    bytes: Vec<u8>,
    message: String,
    enabled: bool,
    chunk: nat,
    total: Option<u64>,
)
    requires
        s.snapshot.revision < u64::MAX,
    ensures
        reserved(s, operation, manual).snapshot.revision > s.snapshot.revision,
        holds(s, r) ==> checked(s, update, version, notes).snapshot.revision > s.snapshot.revision,
        holds(s, r) ==> downloaded(s, bytes).snapshot.revision > s.snapshot.revision,
        holds(s, r) ==> failed(s, r, message).snapshot.revision > s.snapshot.revision,
        holds(s, r) ==> unavailable(s).snapshot.revision > s.snapshot.revision,
        holds(s, r) ==> restart_required(s, message).snapshot.revision > s.snapshot.revision,
        progressed(s, chunk as int, total).snapshot.revision > s.snapshot.revision,
        deferred(s).snapshot.revision > s.snapshot.revision,
        with_auto_download(s, enabled).snapshot.revision > s.snapshot.revision,
        with_auto_install(s, enabled).snapshot.revision > s.snapshot.revision,
        lost(s, message).snapshot.revision > s.snapshot.revision,
{
}

/// One operation at a time: while an operation holds the session every
/// other request is refused as busy, and nothing is queued.
pub proof fn lemma_busy_session_refuses_operations<T>(
    s: UpdateSession<T>,
    first: UpdateOperation,
    manual: bool,
    second: UpdateOperation,
    second_manual: bool,
)
    requires
        reserve_error(s, first, manual) is None,
    ensures
        reserve_error(reserved(s, first, manual), second, second_manual) == Some(
            UpdateSessionError::Busy,
        ),
{
}

/// A session that needs a restart refuses every operation that asks to
/// reserve it, and ending an operation that way leaves no payload behind.
/// Putting a taken update back is no such operation: it restores the
/// payload in any phase.
pub proof fn lemma_restart_required_refuses_operations<T>(
    s: UpdateSession<T>,
    operation: UpdateOperation,
    manual: bool,
    r: OperationReservation,
    message: String,
)
    ensures
        s.snapshot.phase == UpdatePhase::RestartRequired ==> reserve_error(s, operation, manual)
            is Some,
        holds(s, r) ==> reserve_error(restart_required(s, message), operation, manual) == Some(
            UpdateSessionError::RestartRequired,
        ),
        holds(s, r) ==> !has_bytes(restart_required(s, message).resource),
        reserve_error(lost(s, message), operation, manual) == Some(
            UpdateSessionError::RestartRequired,
        ),
        !has_bytes(lost(s, message).resource),
{
}

/// A check never replaces an update that is available or ready.
pub proof fn lemma_checks_keep_retained_updates<T>(s: UpdateSession<T>, manual: bool)
    requires
        s.snapshot.phase == UpdatePhase::Available || s.snapshot.phase == UpdatePhase::Ready,
    ensures
        reserve_error(s, UpdateOperation::Check, manual) is Some,
{
}

/// The session is ready to install only once verified bytes are held: a
/// finished download that reports the ready phase holds them, and
/// download progress never makes an update ready.
pub proof fn lemma_ready_only_with_bytes<T>(
    s: UpdateSession<T>,
    bytes: Vec<u8>,
    chunk: nat,
    total: Option<u64>,
)
    requires
        s.snapshot.phase != UpdatePhase::Ready,
    ensures
        downloaded(s, bytes).snapshot.phase == UpdatePhase::Ready ==> has_bytes(
            downloaded(s, bytes).resource,
        ),
        progressed(s, chunk as int, total).snapshot.phase != UpdatePhase::Ready,
{
}

/// "Later" drops the ready update and keeps automatic checks from finding
/// it again, while the user may still check by hand.
pub proof fn lemma_defer_suppresses_automatic_checks<T>(s: UpdateSession<T>)
    requires
        s.active_operation_id is None,
        has_bytes(s.resource),
    ensures
        !has_bytes(deferred(s).resource),
        reserve_error(deferred(s), UpdateOperation::Check, false) == Some(
            UpdateSessionError::AutomaticCheckSuppressed,
        ),
        reserve_error(deferred(s), UpdateOperation::Check, true) is None,
{
}

/// Changing the automatic preferences keeps a ready update ready, and
/// switching automatic installation off means no automatic installation.
pub proof fn lemma_preferences_keep_ready_update<T>(s: UpdateSession<T>, enabled: bool)
    ensures
        with_auto_download(s, enabled).snapshot.phase == s.snapshot.phase,
        with_auto_download(s, enabled).resource == s.resource,
        with_auto_install(s, enabled).snapshot.phase == s.snapshot.phase,
        with_auto_install(s, enabled).resource == s.resource,
        !should_install_spec(with_auto_install(s, false)),
        should_install_spec(with_auto_install(s, true)) == (s.snapshot.phase == UpdatePhase::Ready
            && s.snapshot.operation is None && has_bytes(s.resource)),
{
}

/// A check that finds no release leaves the session without an update and
/// without an error.
pub proof fn lemma_missing_release_is_not_an_error<T>(s: UpdateSession<T>, r: OperationReservation)
    requires
        holds(s, r),
    ensures
        unavailable(s).snapshot.phase == UpdatePhase::Unavailable,
        unavailable(s).snapshot.error is None,
        unavailable(s).resource is None,
        unavailable(s).active_operation_id is None,
{
}

/// Download progress adds up the chunk lengths: each counted chunk adds
/// its length to the downloaded bytes, which stop at the largest count,
/// and the total is the one last reported. Two chunks count as their sum.
pub proof fn lemma_progress_adds_chunk_lengths<T>(
    s: UpdateSession<T>,
    first: nat,
    second: nat,
    t1: Option<u64>,
    t2: Option<u64>,
)
    ensures
        s.snapshot.downloaded_bytes + first <= u64::MAX ==> progressed(s, first as int, t1).snapshot.downloaded_bytes
            == s.snapshot.downloaded_bytes + first,
        s.snapshot.downloaded_bytes + first > u64::MAX ==> progressed(s, first as int, t1).snapshot.downloaded_bytes
            == u64::MAX,
        progressed(s, first as int, t1).snapshot.total_bytes == t1,
        s.snapshot.downloaded_bytes + first + second <= u64::MAX ==> progressed(
            progressed(s, first as int, t1),
            second as int,
            t2,
        ).snapshot.downloaded_bytes == s.snapshot.downloaded_bytes + first + second,
        s.snapshot.downloaded_bytes + first + second > u64::MAX ==> progressed(
            progressed(s, first as int, t1),
            second as int,
            t2,
        ).snapshot.downloaded_bytes == u64::MAX,
        progressed(s, first as int, t1).snapshot.phase == s.snapshot.phase,
{
}

/// A failed operation changes the phase only by falling back from a
/// download to the available update or from an installation to the ready
/// one: in every other phase the phase stays. In particular a failed check
/// never claims that the version is current or that an update is there.
pub proof fn lemma_failure_keeps_the_phase<T>(
    s: UpdateSession<T>,
    r: OperationReservation,
    message: String,
)
    ensures
        s.snapshot.phase != UpdatePhase::Downloading && s.snapshot.phase != UpdatePhase::Installing
            ==> failed(s, r, message).snapshot.phase == s.snapshot.phase,
        s.snapshot.phase == UpdatePhase::Downloading ==> failed(s, r, message).snapshot.phase
            == UpdatePhase::Downloading || failed(s, r, message).snapshot.phase
            == UpdatePhase::Available,
        s.snapshot.phase == UpdatePhase::Installing ==> failed(s, r, message).snapshot.phase
            == UpdatePhase::Installing || failed(s, r, message).snapshot.phase == UpdatePhase::Ready,
        holds(s, r) ==> failed(s, r, message).snapshot.error == Some(message),
        holds(s, r) ==> failed(s, r, message).snapshot.operation is None,
        !holds(s, r) ==> failed(s, r, message) == s,
{
}

/// What the update session decided when an installation was being
/// prepared.
pub enum InstallStart<T> {
    /// An automatic installation that is no longer wanted.
    Deferred(UpdateSnapshot),
    /// The session refused to start the installation.
    Refused(UpdateSessionError),
    /// The session held no update bytes to install.
    Missing,
    /// The installation holds the session with these update and bytes.
    Proceed { reservation: OperationReservation, update: T, bytes: Vec<u8> },
}

/// The message of an installation whose receiver could not be confirmed
/// stopped and neutral.
pub open spec fn unconfirmed_stop_install_message() -> Seq<char> {
    "receiver worker termination and neutral output were not both confirmed"@
}

/// Whether an installation in `mode` goes ahead: a manual one always, an
/// automatic one only while it is still wanted.
pub open spec fn install_wanted<T>(s: UpdateSession<T>, mode: InstallMode) -> bool {
    mode == InstallMode::Manual || should_install_spec(s)
}

/// The session once an installation holds it and has taken the payload.
pub open spec fn installing<T>(s: UpdateSession<T>) -> UpdateSession<T> {
    UpdateSession { resource: None, ..reserved(s, UpdateOperation::Install, true) }
}

impl<T> UpdateSession<T> {
    /// Starts installing the ready update: an automatic installation is
    /// deferred unless it is still wanted, then the session is reserved for
    /// the installation and hands out the update and its bytes.
    pub fn begin_install(&mut self, mode: InstallMode) -> (r: InstallStart<T>)
        ensures
            !install_wanted(*old(self), mode) ==> (r matches InstallStart::Deferred(snap) && snap
                == old(self).snapshot),
            !install_wanted(*old(self), mode) ==> *final(self) == *old(self),
            install_wanted(*old(self), mode) ==> (reserve_error(
                *old(self),
                UpdateOperation::Install,
                true,
            ) matches Some(e) ==> (r matches InstallStart::Refused(x) && x == e)),
            install_wanted(*old(self), mode) && reserve_error(
                *old(self),
                UpdateOperation::Install,
                true,
            ) is Some ==> *final(self) == *old(self),
            install_wanted(*old(self), mode) && reserve_error(
                *old(self),
                UpdateOperation::Install,
                true,
            ) is None ==> *final(self) == installing(*old(self)),
            install_wanted(*old(self), mode) && reserve_error(
                *old(self),
                UpdateOperation::Install,
                true,
            ) is None ==> match ready_payload(old(self).resource) {
                Some((u, b)) => r matches InstallStart::Proceed { reservation, update, bytes }
                    && update == u && bytes == b && holds(*final(self), reservation),
                None => r is Missing,
            },
    {
        if mode == InstallMode::Automatic && !self.should_install_automatically() {
            return InstallStart::Deferred(self.snapshot());
        }
        let reservation = match self.reserve(UpdateOperation::Install, true) {
            Ok(reservation) => reservation,
            Err(e) => {
                return InstallStart::Refused(e);
            },
        };
        match self.take_ready(reservation) {
            Some((update, bytes)) => InstallStart::Proceed { reservation, update, bytes },
            None => InstallStart::Missing,
        }
    }

    /// Ends an installation whose receiver could not be confirmed stopped
    /// and neutral; only a restart leaves the resulting state.
    pub fn block_install(&mut self, reservation: OperationReservation) -> (snapshot:
        UpdateSnapshot)
        ensures
            !holds(*old(self), reservation) ==> *final(self) == *old(self),
            holds(*old(self), reservation) ==> (final(self).snapshot.error matches Some(m) && m@
                == unconfirmed_stop_install_message()),
            holds(*old(self), reservation) ==> *final(self) == restart_required(
                *old(self),
                final(self).snapshot.error->0,
            ),
            snapshot == final(self).snapshot,
    {
        let message = String::from_str(
            "receiver worker termination and neutral output were not both confirmed",
        );
        self.finish_restart_required(reservation, message);
        self.snapshot()
    }
}

/// Reserves the receiver for an installation. A manual installation
/// answers a refusal with an error; an automatic one is then deferred
/// (`Ok(false)`).
pub fn reserve_receiver_for_install(lifecycle: &mut ReceiverLifecycle, mode: InstallMode) -> (r:
    Result<bool, CommandErrorDto>)
    ensures
        final(lifecycle).state == reserve_install_step(old(lifecycle).state).0,
        reserve_install_step(old(lifecycle).state).1 ==> r == Ok::<bool, CommandErrorDto>(true),
        !reserve_install_step(old(lifecycle).state).1 && mode == InstallMode::Automatic ==> r
            == Ok::<bool, CommandErrorDto>(false),
        !reserve_install_step(old(lifecycle).state).1 && mode == InstallMode::Manual ==> (r matches Err(
            e,
        ) && e.code@ == "updaterError"@ && e.message@ == install_refused_message()),
{
    match lifecycle.reserve_install() {
        Ok(()) => Ok(true),
        Err(message) => {
            if mode == InstallMode::Manual {
                Err(CommandErrorDto::updater_error(message))
            } else {
                Ok(false)
            }
        },
    }
}

/// The message of an installation whose verified update bytes are gone.
pub open spec fn missing_install_resources_message() -> Seq<char> {
    "verified update resources are unavailable"@
}

/// The receiver can be reserved for an installation now.
pub open spec fn receiver_reservable(l: ReceiverLifecycle) -> bool {
    reserve_install_step(l.state).1
}

/// Prepares an installation up to the point where the receiver's worker
/// has to stop: reserves the receiver, then the update session, and takes
/// the update and its bytes. Whenever this does not end in `Proceed`, the
/// receiver is left as it was: a reservation made here is given back.
pub fn prepare_install_step<T>(
    lifecycle: &mut ReceiverLifecycle,
    session: &mut UpdateSession<T>,
    mode: InstallMode,
) -> (r: Result<InstallStart<T>, CommandErrorDto>)
    ensures
        !(r matches Ok(InstallStart::Proceed { .. })) ==> *final(lifecycle) == *old(lifecycle),
        r matches Ok(InstallStart::Proceed { .. }) ==> final(lifecycle).state
            == LifecycleState::InstallReserved,
        !receiver_reservable(*old(lifecycle)) ==> *final(session) == *old(session),
        !receiver_reservable(*old(lifecycle)) && mode == InstallMode::Manual ==> (r matches Err(e)
            && e.code@ == "updaterError"@ && e.message@ == install_refused_message()),
        !receiver_reservable(*old(lifecycle)) && mode == InstallMode::Automatic ==> (r matches Ok(
            InstallStart::Deferred(snap),
        ) && snap == old(session).snapshot),
        receiver_reservable(*old(lifecycle)) && !install_wanted(*old(session), mode) ==> (r matches Ok(
            InstallStart::Deferred(snap),
        ) && snap == old(session).snapshot && *final(session) == *old(session)),
        receiver_reservable(*old(lifecycle)) && install_wanted(*old(session), mode) ==> match reserve_error(
            *old(session),
            UpdateOperation::Install,
            true,
        ) {
            Some(e) => r matches Err(x) && x.code@ == "updaterError"@ && x.message@
                == session_error_message(e) && *final(session) == *old(session),
            None => *final(session) == installing(*old(session)) && match ready_payload(
                old(session).resource,
            ) {
                Some((u, b)) => r matches Ok(InstallStart::Proceed { reservation, update, bytes })
                    && update == u && bytes == b && holds(*final(session), reservation),
                None => r matches Err(x) && x.code@ == "updaterError"@ && x.message@
                    == missing_install_resources_message(),
            },
        },
{
    match reserve_receiver_for_install(lifecycle, mode) {
        Err(e) => {
            return Err(e);
        },
        Ok(false) => {
            return Ok(InstallStart::Deferred(session.snapshot()));
        },
        Ok(true) => {},
    }
    match session.begin_install(mode) {
        InstallStart::Deferred(snapshot) => {
            lifecycle.cancel_install_reservation();
            Ok(InstallStart::Deferred(snapshot))
        },
        InstallStart::Refused(error) => {
            lifecycle.cancel_install_reservation();
            Err(update_command_error(error))
        },
        InstallStart::Missing => {
            lifecycle.cancel_install_reservation();
            Err(CommandErrorDto::updater_error(String::from_str("verified update resources are unavailable")))
        },
        InstallStart::Proceed { reservation, update, bytes } => Ok(
            InstallStart::Proceed { reservation, update, bytes },
        ),
    }
}

/// Ends an installation's preparation once the worker's stop ended with
/// `outcome`. When the worker is known gone and the pad neutral, nothing
/// changes and the installation goes on (`None`). Otherwise the pad may
/// still show pressed buttons: the receiver and the update session are
/// left for a restart, and the snapshot to publish is returned. This is
/// stricter than `ReceiverLifecycle::finish_install_preparation_failure`,
/// which reopens the receiver once its worker is known gone: here an ended
/// worker whose pad was not confirmed neutral still needs the restart.
pub fn finish_install_preparation<T>(
    lifecycle: &mut ReceiverLifecycle,
    session: &mut UpdateSession<T>,
    reservation: OperationReservation,
    outcome: StopOutcome,
) -> (r: Option<UpdateSnapshot>)
    ensures
        outcome.worker_terminated && outcome.neutral ==> r is None && *final(lifecycle)
            == *old(lifecycle) && *final(session) == *old(session),
        !(outcome.worker_terminated && outcome.neutral) ==> final(lifecycle).state
            == LifecycleState::RestartRequired,
        !(outcome.worker_terminated && outcome.neutral) ==> r == Some(final(session).snapshot),
        !(outcome.worker_terminated && outcome.neutral) && !holds(*old(session), reservation)
            ==> *final(session) == *old(session),
        !(outcome.worker_terminated && outcome.neutral) && holds(*old(session), reservation) ==> (
        final(session).snapshot.error matches Some(m) && m@ == unconfirmed_stop_install_message()
            && *final(session) == restart_required(*old(session), m)),
{
    if outcome.install_ready() {
        return None;
    }
    lifecycle.mark_install_failure(true);
    Some(session.block_install(reservation))
}

/// Ends an installation whose installer returned an error `message`. Where
/// the failed installer may have left the system half changed
/// (`needs_restart`), the receiver and the session wait for a restart;
/// otherwise the receiver is usable again and the update is put back as
/// ready. Returns the snapshot to publish.
pub fn finish_returned_install_error<T>(
    lifecycle: &mut ReceiverLifecycle,
    session: &mut UpdateSession<T>,
    reservation: OperationReservation,
    update: T,
    bytes: Vec<u8>,
    message: String,
    needs_restart: bool,
) -> (r: UpdateSnapshot)
    ensures
        final(lifecycle).state == (if needs_restart {
            LifecycleState::RestartRequired
        } else {
            LifecycleState::Normal
        }),
        needs_restart && holds(*old(session), reservation) ==> *final(session)
            == restart_required(*old(session), message),
        needs_restart && !holds(*old(session), reservation) ==> *final(session) == *old(session),
        !needs_restart ==> *final(session) == failed(
            (UpdateSession { resource: Some((update, Some(bytes))), ..*old(session) }),
            reservation,
            message,
        ),
        r == final(session).snapshot,
{
    lifecycle.mark_install_failure(needs_restart);
    if needs_restart {
        session.finish_restart_required(reservation, message);
    } else {
        session.restore_ready(reservation, update, bytes, message);
    }
    session.snapshot()
}

/// What is added to an installer's error where a restart is required: the
/// failed package installation has to be looked at before the receiver
/// is used again.
pub open spec fn restart_advice() -> Seq<char> {
    ". Restart DS Controller and check the Debian package state before using the receiver."@
}

/// The error to report for an installer that failed with `message`: with
/// the restart advice where a restart is required.
pub fn installer_error_message(message: String, needs_restart: bool) -> (r: String)
    ensures
        needs_restart ==> r@ == message@ + restart_advice(),
        !needs_restart ==> r == message,
{
    if needs_restart {
        let mut r = message;
        r.append(
            ". Restart DS Controller and check the Debian package state before using the receiver.",
        );
        r
    } else {
        message
    }
}

/// Whether a check that ended with `snapshot` goes on to download the
/// update: only an automatic check that found an update, and only while
/// automatic downloads are on.
pub fn should_download_after_check(snapshot: &UpdateSnapshot, manual: bool) -> (r: bool)
    ensures
        r == (snapshot.phase == UpdatePhase::Available && snapshot.auto_download_enabled
            && !manual),
{
    snapshot.phase == UpdatePhase::Available && snapshot.auto_download_enabled && !manual
}

/// The first half of a change of the automatic-installation preference,
/// before it is persisted: switching it off takes effect at once, so that
/// no installation starts while the change is saved; switching it on
/// waits for the save. Returns the value the session had.
pub fn begin_auto_install_change<T>(session: &mut UpdateSession<T>, enabled: bool) -> (previous:
    bool)
    ensures
        previous == old(session).snapshot.auto_install_enabled,
        enabled ==> *final(session) == *old(session),
        !enabled ==> *final(session) == with_auto_install(*old(session), false),
{
    let previous = session.snapshot.auto_install_enabled;
    if !enabled {
        session.set_auto_install_enabled(false);
    }
    previous
}

/// The second half of a change of the automatic-installation preference,
/// once saving the settings with it succeeded (`persisted`) or failed.
/// A saved change enters the settings and, when switched on, the session.
/// A failed save leaves the settings alone; a switch-off is then undone by
/// restoring `previous`, judged against the session as it is now. Returns
/// whether a ready update should now be installed without asking.
pub fn finish_auto_install_change<T>(
    session: &mut UpdateSession<T>,
    settings: &mut AppSettings,
    enabled: bool,
    previous: bool,
    persisted: bool,
) -> (should_install: bool)
    ensures
        persisted ==> *final(settings) == (AppSettings {
            auto_install_updates: enabled,
            ..*old(settings)
        }),
        !persisted ==> *final(settings) == *old(settings),
        persisted && enabled ==> *final(session) == with_auto_install(*old(session), true)
            && should_install == should_install_spec(*final(session)),
        persisted && !enabled ==> *final(session) == *old(session) && !should_install,
        !persisted && enabled ==> *final(session) == *old(session) && !should_install,
        !persisted && !enabled ==> *final(session) == with_auto_install(*old(session), previous)
            && should_install == should_install_spec(*final(session)),
{
    if persisted {
        settings.auto_install_updates = enabled;
        if enabled {
            session.set_auto_install_enabled(true)
        } else {
            false
        }
    } else if enabled {
        false
    } else {
        session.set_auto_install_enabled(previous)
    }
}

/// The snapshot names an operation exactly while a reservation holds the
/// session.
pub open spec fn operation_marked<T>(s: UpdateSession<T>) -> bool {
    s.active_operation_id is Some <==> s.snapshot.operation is Some
}

/// Every transition keeps the snapshot's operation in step with the
/// reservation that holds the session.
pub proof fn lemma_transitions_keep_operation_marked<T>(
    s: UpdateSession<T>,
    operation: UpdateOperation,
    manual: bool,
    r: OperationReservation,
    update: Option<T>,
    version: Option<String>,
    notes: Option<String>,
    bytes: Vec<u8>,
    message: String,
    enabled: bool,
    chunk: nat,
    total: Option<u64>,
)
    requires
        operation_marked(s),
    ensures
        operation_marked(reserved(s, operation, manual)),
        operation_marked(checked(s, update, version, notes)),
        operation_marked(downloaded(s, bytes)),
        operation_marked(failed(s, r, message)),
        operation_marked(unavailable(s)),
        operation_marked(restart_required(s, message)),
        operation_marked(progressed(s, chunk as int, total)),
        operation_marked(deferred(s)),
        operation_marked(with_auto_download(s, enabled)),
        operation_marked(with_auto_install(s, enabled)),
        operation_marked(lost(s, message)),
{
}

/// Once its operation has ended, a reservation no longer holds the
/// session, so every later call made with it changes nothing.
pub proof fn lemma_finished_reservation_is_spent<T>(
    s: UpdateSession<T>,
    r: OperationReservation,
    bytes: Vec<u8>,
    message: String,
)
    ensures
        !holds(released(s), r),
        !holds(unavailable(s), r),
        !holds(downloaded(s, bytes), r),
        holds(s, r) ==> !holds(failed(s, r, message), r),
        !holds(restart_required(s, message), r),
        !holds(lost(s, message), r),
{
}

} // verus!
