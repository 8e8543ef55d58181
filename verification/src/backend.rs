//! The virtual controller that receives mapped pad states.

use vstd::prelude::*;
use crate::mapping::{neutral_output, ControllerOutputState};

verus! {

/// Why a virtual controller could not be created or updated.
#[derive(Debug)]
pub struct BackendError(String);

impl View for BackendError {
    type V = Seq<char>;

    closed spec fn view(&self) -> Seq<char> {
        self.0@
    }
}

impl BackendError {
    /// An error with the message `message`.
    pub fn new(message: String) -> (e: BackendError)
        ensures
            e@ == message@,
    {
        BackendError(message)
    }

    /// The message of the error.
    pub fn to_string(&self) -> (s: String)
        ensures
            s@ == self@,
    {
        self.0.clone()
    }
}

/// A virtual controller that pad states are written to.
pub trait ControllerBackend {
    /// The states this controller has been asked to show, oldest first,
    /// for a controller that keeps that record; `None` for one that keeps
    /// none.
    open spec fn shown(&self) -> Option<Seq<ControllerOutputState>> {
        None
    }

    /// Every state handed to this controller is shown without error. A
    /// controller that does not say so promises nothing of its results.
    open spec fn accepts_every_state(&self) -> bool {
        false
    }

    /// Shows `state` on the virtual controller.
    fn update(&mut self, state: ControllerOutputState) -> (r: Result<(), BackendError>)
        ensures
            old(self).shown() matches Some(h) ==> final(self).shown() == Some(h.push(state)),
            old(self).accepts_every_state() ==> r is Ok && final(self).accepts_every_state(),
    ;

    /// Releases every button of the virtual controller: one update with
    /// the neutral output.
    fn neutral(&mut self) -> (r: Result<(), BackendError>)
        ensures
            old(self).shown() matches Some(h) ==> final(self).shown() == Some(
                h.push(neutral_output()),
            ),
            old(self).accepts_every_state() ==> r is Ok && final(self).accepts_every_state(),
    {
        self.update(ControllerOutputState::default())
    }
}

/// A controller that drops every state, for running the receiver without
/// a virtual pad. It keeps, as ghost state, the record of what it was
/// asked to show.
pub struct NoopBackend {
    shown: Ghost<Seq<ControllerOutputState>>,
}

impl NoopBackend {
    /// A no-op controller that has shown nothing yet.
    pub fn new() -> (b: NoopBackend)
        ensures
            b.shown() == Some(Seq::<ControllerOutputState>::empty()),
            b.accepts_every_state(),
    {
        NoopBackend { shown: Ghost(Seq::empty()) }
    }
}

impl ControllerBackend for NoopBackend {
    closed spec fn shown(&self) -> Option<Seq<ControllerOutputState>> {
        Some(self.shown@)
    }

    /// Showing a state on the no-op controller always succeeds.
    open spec fn accepts_every_state(&self) -> bool {
        true
    }

    fn update(&mut self, state: ControllerOutputState) -> (r: Result<(), BackendError>) {
        self.shown = Ghost(self.shown@.push(state));
        Ok(())
    }
}

/// The message given where ViGEm output is asked for off Windows.
pub open spec fn vigem_unavailable_message() -> Seq<char> {
    "ViGEm output requires Windows; use --no-vigem on this platform"@
}

/// The controller to write states to: the no-op controller, which accepts
/// every state, when ViGEm output is switched off; else the error that
/// ViGEm output is unavailable. The library holds no ViGEm controller: on
/// Windows the application builds that one itself and asks here only for
/// the no-op controller.
pub fn create_backend(no_vigem: bool) -> (r: Result<Box<dyn ControllerBackend>, BackendError>)
    ensures
        no_vigem <==> r is Ok,
        r matches Ok(b) ==> b.accepts_every_state() && b.shown() == Some(
            Seq::<ControllerOutputState>::empty(),
        ),
        !no_vigem ==> (r matches Err(e) && e@ == vigem_unavailable_message()),
{
    if no_vigem {
        return Ok(Box::new(NoopBackend::new()));
    }
    create_platform_backend()
}

fn create_platform_backend() -> (r: Result<Box<dyn ControllerBackend>, BackendError>)
    ensures
        r matches Err(e) && e@ == vigem_unavailable_message(),
{
    Err(BackendError::new(String::from_str("ViGEm output requires Windows; use --no-vigem on this platform")))
}

} // verus!
