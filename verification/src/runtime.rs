//! What the desktop application knows about its receiver: the status it
//! publishes, the receiver's lifecycle around updates and exit, and the
//! bookkeeping of one receiving session.

use vstd::prelude::*;
use crate::labels::{LabelTable, pressed_label_strings, pressed_labels, BUTTON_COUNT};
use crate::protocol::{Buttons, ControllerState};

verus! {

/// The receiver as the dashboard shows it.
#[derive(Clone, Debug, PartialEq, Eq)]
pub enum ReceiverStatus {
    Idle,
    Starting,
    Running { bound_address: String, last_sender: Option<String> },
    Stopping,
    Error(String),
}

/// The virtual controller as the dashboard shows it.
#[derive(Clone, Debug, PartialEq, Eq)]
pub enum VirtualControllerStatus {
    Unknown,
    Ready,
    Error(String),
}

/// Everything the dashboard shows about the running receiver.
#[derive(Clone, Debug, PartialEq, Eq)]
pub struct RuntimeStatus {
    pub receiver: ReceiverStatus,
    pub virtual_controller: VirtualControllerStatus,
    pub pressed_buttons: Vec<String>,
    pub packet_count: u64,
    pub last_packet_at: Option<String>,
}

/// The status of a receiver that was never started or stopped cleanly.
pub open spec fn is_idle_status(s: RuntimeStatus) -> bool {
    &&& s.receiver is Idle
    &&& s.virtual_controller is Unknown
    &&& s.pressed_buttons@.len() == 0
    &&& s.packet_count == 0
    &&& s.last_packet_at is None
}

pub(crate) fn copy_string(s: &String) -> (r: String)
    ensures
        r == *s,
{
    s.clone()
}

pub(crate) fn copy_optional_string(s: &Option<String>) -> (r: Option<String>)
    ensures
        r == *s,
{
    match s {
        Some(v) => Some(copy_string(v)),
        None => None,
    }
}

fn copy_strings(v: &Vec<String>) -> (r: Vec<String>)
    ensures
        r@ == v@,
{
    let mut r: Vec<String> = Vec::new();
    let mut i: usize = 0;
    while i < v.len()
        invariant
            i <= v.len(),
            r@ == v@.subrange(0, i as int),
        decreases v.len() - i,
    {
        r.push(copy_string(&v[i]));
        i += 1;
        assert(r@ =~= v@.subrange(0, i as int));
    }
    assert(v@.subrange(0, v.len() as int) =~= v@);
    r
}

impl ReceiverStatus {
    /// A copy of the status.
    pub fn copied(&self) -> (r: ReceiverStatus)
        ensures
            r == *self,
    {
        match self {
            ReceiverStatus::Idle => ReceiverStatus::Idle,
            ReceiverStatus::Starting => ReceiverStatus::Starting,
            ReceiverStatus::Running { bound_address, last_sender } => ReceiverStatus::Running {
                bound_address: copy_string(bound_address),
                last_sender: copy_optional_string(last_sender),
            },
            ReceiverStatus::Stopping => ReceiverStatus::Stopping,
            ReceiverStatus::Error(m) => ReceiverStatus::Error(copy_string(m)),
        }
    }
}

impl VirtualControllerStatus {
    /// A copy of the status.
    pub fn copied(&self) -> (r: VirtualControllerStatus)
        ensures
            r == *self,
    {
        match self {
            VirtualControllerStatus::Unknown => VirtualControllerStatus::Unknown,
            VirtualControllerStatus::Ready => VirtualControllerStatus::Ready,
            VirtualControllerStatus::Error(m) => VirtualControllerStatus::Error(copy_string(m)),
        }
    }
}

impl RuntimeStatus {
    /// The status of an idle receiver.
    pub fn idle() -> (s: RuntimeStatus)
        ensures
            is_idle_status(s),
    {
        RuntimeStatus {
            receiver: ReceiverStatus::Idle,
            virtual_controller: VirtualControllerStatus::Unknown,
            pressed_buttons: Vec::new(),
            packet_count: 0,
            last_packet_at: None,
        }
    }

    /// Whether this is the status of an idle receiver.
    pub fn is_idle(&self) -> (r: bool)
        ensures
            r == is_idle_status(*self),
    {
        let receiver_idle = match self.receiver {
            ReceiverStatus::Idle => true,
            _ => false,
        };
        let controller_unknown = match self.virtual_controller {
            VirtualControllerStatus::Unknown => true,
            _ => false,
        };
        receiver_idle && controller_unknown && self.pressed_buttons.len() == 0 && self.packet_count
            == 0 && self.last_packet_at.is_none()
    }

    /// A copy of the status.
    pub fn copied(&self) -> (r: RuntimeStatus)
        ensures
            r.receiver == self.receiver,
            r.virtual_controller == self.virtual_controller,
            r.pressed_buttons@ == self.pressed_buttons@,
            r.packet_count == self.packet_count,
            r.last_packet_at == self.last_packet_at,
    {
        RuntimeStatus {
            receiver: self.receiver.copied(),
            virtual_controller: self.virtual_controller.copied(),
            pressed_buttons: copy_strings(&self.pressed_buttons),
            packet_count: self.packet_count,
            last_packet_at: copy_optional_string(&self.last_packet_at),
        }
    }

    /// The status reported when the receiver could not confirm that the
    /// virtual controller was left neutral.
    pub fn failed_with(message: &str) -> (s: RuntimeStatus)
        ensures
            s.receiver matches ReceiverStatus::Error(m) && m@ == message@,
            s.virtual_controller matches VirtualControllerStatus::Error(m) && m@ == message@,
            s.pressed_buttons@.len() == 0,
            s.packet_count == 0,
            s.last_packet_at is None,
    {
        RuntimeStatus {
            receiver: ReceiverStatus::Error(String::from_str(message)),
            virtual_controller: VirtualControllerStatus::Error(String::from_str(message)),
            pressed_buttons: Vec::new(),
            packet_count: 0,
            last_packet_at: None,
        }
    }
}

impl Default for RuntimeStatus {
    fn default() -> (s: RuntimeStatus)
        ensures
            is_idle_status(s),
    {
        RuntimeStatus::idle()
    }
}

/// The status published when the receiver times out: everything as it
/// was, with no button pressed. The shared status is changed the same way.
pub fn timeout_status(current: &mut RuntimeStatus) -> (published: RuntimeStatus)
    ensures
        final(current).receiver == old(current).receiver,
        final(current).virtual_controller == old(current).virtual_controller,
        final(current).pressed_buttons@.len() == 0,
        final(current).packet_count == old(current).packet_count,
        final(current).last_packet_at == old(current).last_packet_at,
        published.receiver == old(current).receiver,
        published.virtual_controller == old(current).virtual_controller,
        published.pressed_buttons@.len() == 0,
        published.packet_count == old(current).packet_count,
        published.last_packet_at == old(current).last_packet_at,
{
    current.pressed_buttons = Vec::new();
    current.copied()
}

/// Names of the DS buttons pressed in `state`, as the dashboard lists them.
pub fn button_names(state: ControllerState) -> (names: Vec<String>)
    ensures
        names@.map_values(|s: String| s@) == pressed_labels(
            state.buttons@,
            LabelTable::DsLower,
            BUTTON_COUNT as nat,
        ),
{
    pressed_label_strings(state.buttons.raw(), LabelTable::DsLower)
}

/// How stopping the receiver's worker ended.
#[derive(Clone, Copy, Debug, PartialEq, Eq, Structural)]
pub struct StopOutcome {
    pub worker_terminated: bool,
    pub neutral: bool,
}

impl StopOutcome {
    /// Whether an update may be installed: the worker is gone and the
    /// virtual controller was left neutral.
    pub fn install_ready(self) -> (r: bool)
        ensures
            r == (self.worker_terminated && self.neutral),
    {
        self.worker_terminated && self.neutral
    }
}

/// The message published when a stop could not confirm a neutral pad.
pub open spec fn unconfirmed_stop_message() -> Seq<char> {
    "receiver stopped without confirmed neutral controller output"@
}

/// The status to publish once a stop has ended with `outcome`.
pub fn stopped_status(outcome: StopOutcome) -> (s: RuntimeStatus)
    ensures
        outcome.worker_terminated && outcome.neutral ==> is_idle_status(s),
        !(outcome.worker_terminated && outcome.neutral) ==> (s.receiver matches ReceiverStatus::Error(m) && m@
            == unconfirmed_stop_message()),
        !(outcome.worker_terminated && outcome.neutral) ==> (s.virtual_controller matches VirtualControllerStatus::Error(
            m,
        ) && m@ == unconfirmed_stop_message()),
        !(outcome.worker_terminated && outcome.neutral) ==> s.pressed_buttons@.len() == 0
            && s.packet_count == 0 && s.last_packet_at is None,
{
    if outcome.install_ready() {
        RuntimeStatus::idle()
    } else {
        RuntimeStatus::failed_with("receiver stopped without confirmed neutral controller output")
    }
}

/// What one receiving session remembers between packets and timeouts.
#[derive(Clone, Copy, Debug, PartialEq, Eq, Structural)]
pub struct ReceiverSessionState {
    /// The last state written to the pad had a button pressed.
    pub has_pressed_inputs: bool,
    /// The current silent period has already been published.
    pub timeout_status_reported: bool,
    /// A failed release in the current silent period was already logged.
    pub timeout_release_error_reported: bool,
}

impl Default for ReceiverSessionState {
    fn default() -> (s: ReceiverSessionState)
        ensures
            !s.has_pressed_inputs,
            !s.timeout_status_reported,
            !s.timeout_release_error_reported,
    {
        ReceiverSessionState {
            has_pressed_inputs: false,
            timeout_status_reported: false,
            timeout_release_error_reported: false,
        }
    }
}

impl ReceiverSessionState {
    /// A packet arrived: the next timeout starts a new silent period.
    pub fn record_packet(&mut self)
        ensures
            *final(self) == (ReceiverSessionState { timeout_status_reported: false, ..*old(self) }),
    {
        self.timeout_status_reported = false;
    }

    /// The pad now shows `buttons`.
    pub fn record_update(&mut self, buttons: Buttons)
        ensures
            final(self).has_pressed_inputs == (buttons@ != 0),
            !final(self).timeout_release_error_reported,
            final(self).timeout_status_reported == old(self).timeout_status_reported,
    {
        self.has_pressed_inputs = !buttons.is_empty();
        self.timeout_release_error_reported = false;
    }

    /// The pad was released.
    pub fn record_neutral(&mut self)
        ensures
            !final(self).has_pressed_inputs,
            !final(self).timeout_release_error_reported,
            final(self).timeout_status_reported == old(self).timeout_status_reported,
    {
        self.has_pressed_inputs = false;
        self.timeout_release_error_reported = false;
    }

    /// Whether a timeout has to release the pad.
    pub fn needs_timeout_release(&self) -> (r: bool)
        ensures
            r == self.has_pressed_inputs,
    {
        self.has_pressed_inputs
    }

    /// Whether a timeout has to be published.
    pub fn needs_timeout_status(&self) -> (r: bool)
        ensures
            r == !self.timeout_status_reported,
    {
        !self.timeout_status_reported
    }

    /// The current silent period was published.
    pub fn record_timeout_status(&mut self)
        ensures
            *final(self) == (ReceiverSessionState { timeout_status_reported: true, ..*old(self) }),
    {
        self.timeout_status_reported = true;
    }

    /// A release failed; returns whether this failure is the first of the
    /// silent period and so has to be logged.
    pub fn record_timeout_release_error(&mut self) -> (first: bool)
        ensures
            first == !old(self).timeout_release_error_reported,
            *final(self) == (ReceiverSessionState {
                timeout_release_error_reported: true,
                ..*old(self)
            }),
    {
        if self.timeout_release_error_reported {
            return false;
        }
        self.timeout_release_error_reported = true;
        true
    }
}

/// Where the receiver stands between normal use, a stop, an update
/// installation and the application's exit.
#[derive(Clone, Copy, Debug, PartialEq, Eq, Structural)]
pub enum LifecycleState {
    Normal,
    Stopping,
    InstallReserved,
    ExitAccepted,
    RestartRequired,
}

/// The lifecycle of the receiver, which decides which of start, stop,
/// update installation and exit may happen.
#[derive(Clone, Copy, Debug, PartialEq, Eq, Structural)]
pub struct ReceiverLifecycle {
    pub state: LifecycleState,
}

/// The message of a start or stop refused because an installation or the
/// exit holds the receiver.
pub open spec fn lifecycle_reserved_message() -> Seq<char> {
    "receiver lifecycle is reserved for update installation or exit"@
}

/// The message of a refused installation reservation.
pub open spec fn install_refused_message() -> Seq<char> {
    "application is already exiting or reserved for update installation"@
}

/// The message of an installation stop without a reservation.
pub open spec fn install_not_reserved_message() -> Seq<char> {
    "update installation is not reserved"@
}

/// Reserving the receiver for an installation: the new state and whether
/// it succeeded.
pub open spec fn reserve_install_step(s: LifecycleState) -> (LifecycleState, bool) {
    if s == LifecycleState::Normal {
        (LifecycleState::InstallReserved, true)
    } else {
        (s, false)
    }
}

/// An ordinary exit request: the new state and whether the exit may go on.
pub open spec fn exit_request_step(s: LifecycleState) -> (LifecycleState, bool) {
    if s == LifecycleState::InstallReserved {
        (s, false)
    } else {
        (LifecycleState::ExitAccepted, true)
    }
}

/// The state after an installation could not be prepared.
pub open spec fn preparation_failure_step(outcome: StopOutcome) -> LifecycleState {
    if outcome.worker_terminated {
        LifecycleState::Normal
    } else {
        LifecycleState::RestartRequired
    }
}

impl Default for ReceiverLifecycle {
    fn default() -> (l: ReceiverLifecycle)
        ensures
            l.state == LifecycleState::Normal,
    {
        ReceiverLifecycle::new()
    }
}

impl ReceiverLifecycle {
    /// A receiver in normal use.
    pub fn new() -> (l: ReceiverLifecycle)
        ensures
            l.state == LifecycleState::Normal,
    {
        ReceiverLifecycle { state: LifecycleState::Normal }
    }

    /// Whether the receiver may be started.
    pub fn check_start(&self) -> (r: Result<(), String>)
        ensures
            r is Ok <==> self.state == LifecycleState::Normal,
            r matches Err(m) ==> m@ == lifecycle_reserved_message(),
    {
        if self.state != LifecycleState::Normal {
            return Err(String::from_str("receiver lifecycle is reserved for update installation or exit"));
        }
        Ok(())
    }

    /// Begins a user-requested stop.
    pub fn begin_stop(&mut self) -> (r: Result<(), String>)
        ensures
            r is Ok <==> old(self).state == LifecycleState::Normal,
            r is Ok ==> final(self).state == LifecycleState::Stopping,
            r matches Err(m) ==> m@ == lifecycle_reserved_message() && *final(self) == *old(self),
    {
        if self.state != LifecycleState::Normal {
            return Err(String::from_str("receiver lifecycle is reserved for update installation or exit"));
        }
        self.state = LifecycleState::Stopping;
        Ok(())
    }

    /// Ends a user-requested stop.
    pub fn finish_stop(&mut self)
        ensures
            old(self).state == LifecycleState::Stopping ==> final(self).state
                == LifecycleState::Normal,
            old(self).state != LifecycleState::Stopping ==> *final(self) == *old(self),
    {
        if self.state == LifecycleState::Stopping {
            self.state = LifecycleState::Normal;
        }
    }

    /// Reserves the receiver for an update installation.
    pub fn reserve_install(&mut self) -> (r: Result<(), String>)
        ensures
            (final(self).state, r is Ok) == reserve_install_step(old(self).state),
            r matches Err(m) ==> m@ == install_refused_message(),
    {
        if self.state != LifecycleState::Normal {
            return Err(String::from_str("application is already exiting or reserved for update installation"));
        }
        self.state = LifecycleState::InstallReserved;
        Ok(())
    }

    /// Reserves the receiver for an automatic installation, but only when
    /// no worker runs and the published status is the idle one.
    pub fn reserve_install_if_idle(&mut self, worker_idle: bool, status: &RuntimeStatus) -> (r:
        bool)
        ensures
            r == (old(self).state == LifecycleState::Normal && worker_idle && is_idle_status(
                *status,
            )),
            r ==> final(self).state == LifecycleState::InstallReserved,
            !r ==> *final(self) == *old(self),
    {
        let safely_idle = self.state == LifecycleState::Normal && worker_idle && status.is_idle();
        if !safely_idle {
            return false;
        }
        self.state = LifecycleState::InstallReserved;
        true
    }

    /// Gives a reservation back unused.
    pub fn cancel_install_reservation(&mut self)
        ensures
            old(self).state == LifecycleState::InstallReserved ==> final(self).state
                == LifecycleState::Normal,
            old(self).state != LifecycleState::InstallReserved ==> *final(self) == *old(self),
    {
        if self.state == LifecycleState::InstallReserved {
            self.state = LifecycleState::Normal;
        }
    }

    /// An installation could not be prepared: the receiver is usable again
    /// only when its worker is known to have ended.
    pub fn finish_install_preparation_failure(&mut self, outcome: StopOutcome)
        ensures
            final(self).state == preparation_failure_step(outcome),
    {
        self.state = if outcome.worker_terminated {
            LifecycleState::Normal
        } else {
            LifecycleState::RestartRequired
        };
    }

    /// Whether the worker may be stopped for a reserved installation.
    pub fn begin_reserved_install_stop(&self) -> (r: Result<(), String>)
        ensures
            r is Ok <==> self.state == LifecycleState::InstallReserved,
            r matches Err(m) ==> m@ == install_not_reserved_message(),
    {
        if self.state != LifecycleState::InstallReserved {
            return Err(String::from_str("update installation is not reserved"));
        }
        Ok(())
    }

    /// An installation failed after the worker was stopped.
    pub fn mark_install_failure(&mut self, restart_required: bool)
        ensures
            final(self).state == (if restart_required {
                LifecycleState::RestartRequired
            } else {
                LifecycleState::Normal
            }),
    {
        self.state = if restart_required {
            LifecycleState::RestartRequired
        } else {
            LifecycleState::Normal
        };
    }

    /// The user asked to close the application; returns whether it may
    /// close. A reserved installation keeps it open.
    pub fn ordinary_exit_requested(&mut self) -> (r: bool)
        ensures
            (final(self).state, r) == exit_request_step(old(self).state),
    {
        if self.state == LifecycleState::InstallReserved {
            return false;
        }
        self.state = LifecycleState::ExitAccepted;
        true
    }

    /// Whether an installation holds the receiver.
    pub fn install_reserved(&self) -> (r: bool)
        ensures
            r == (self.state == LifecycleState::InstallReserved),
    {
        self.state == LifecycleState::InstallReserved
    }

    /// The installer took over; the application may exit.
    pub fn complete_install_handoff(&mut self)
        ensures
            old(self).state == LifecycleState::InstallReserved ==> final(self).state
                == LifecycleState::ExitAccepted,
            old(self).state != LifecycleState::InstallReserved ==> *final(self) == *old(self),
    {
        if self.state == LifecycleState::InstallReserved {
            self.state = LifecycleState::ExitAccepted;
        }
    }
}

/// Installation and exit exclude each other: a reserved installation
/// refuses an ordinary exit and stays reserved, and once the exit is
/// accepted, or a restart is required, no installation can be reserved.
pub proof fn lemma_install_and_exit_exclude_each_other(s: LifecycleState)
    ensures
        exit_request_step(LifecycleState::InstallReserved) == (LifecycleState::InstallReserved, false),
        exit_request_step(s).1 ==> !reserve_install_step(exit_request_step(s).0).1,
        !reserve_install_step(LifecycleState::RestartRequired).1,
        reserve_install_step(s).1 ==> !exit_request_step(reserve_install_step(s).0).1,
{
}

/// After a failed preparation the receiver can be reserved again exactly
/// when the worker is known to have ended.
pub proof fn lemma_failed_preparation_reopens_only_after_termination(outcome: StopOutcome)
    ensures
        reserve_install_step(preparation_failure_step(outcome)).1 == outcome.worker_terminated,
{
}

} // verus!
