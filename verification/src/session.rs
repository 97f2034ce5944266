//! The session: an aggregate device with a render callback registered on
//! it and its hardware clock running, and the machines that start it, swap
//! its devices and stop it.
//!
//! The render callback itself stays with the caller, who hands the
//! trampoline to the audio subsystem when a machine asks for the
//! registration; the session keeps the registration identifier.
//!
//! A device swap never rewires under a running clock: the swap machine stops
//! the clock, which waits for a callback in flight to return, then rewires,
//! then starts the clock again.
use vstd::prelude::*;
use crate::aggregate_device::{
    AggregateDevice, AggregateDeviceView, Destroy, DestroyView, Refresh, RefreshView, Setup,
    SetupView,
};
use crate::backend::CABackend;
use crate::cf::{CFError, NO_ERR};
use crate::device::CADevice;
use crate::traits::{AudioBuffers, Session};
use crate::protocol::{
    answers, AudioBuffer, Machine, Reply, ReplyView, Request, RequestView, Step, Teardown,
};

verus! {

/// The bytes of one sample.
pub const SAMPLE_SIZE: u32 = 4;

/// The mathematical value of a [`CASession`].
pub struct CASessionView {
    /// The aggregate device that the session owns.
    pub device: AggregateDeviceView,
    /// The identifier of the callback registration, from the moment the
    /// registration has succeeded.
    pub callback: Option<u64>,
}

impl CASessionView {
    /// The request that registers the callback trampoline.
    pub open spec fn registration(self) -> RequestView {
        RequestView::CreateIOProcID { device: self.device.device.0 }
    }

    /// The request that starts the hardware clock.
    pub open spec fn clock_start(self) -> RequestView {
        RequestView::DeviceStart {
            device: self.device.device.0,
            proc_id: self.callback.unwrap_or(0),
        }
    }

    /// The request that stops the hardware clock.
    pub open spec fn clock_stop(self) -> RequestView {
        RequestView::DeviceStop {
            device: self.device.device.0,
            proc_id: self.callback.unwrap_or(0),
        }
    }

    /// The request that releases the callback registration.
    pub open spec fn release(self) -> RequestView {
        RequestView::DestroyIOProcID {
            device: self.device.device.0,
            proc_id: self.callback.unwrap_or(0),
        }
    }
}

/// An audio session: an aggregate device, and the registration of the
/// render callback on it once there is one.
#[derive(Debug, PartialEq, Eq)]
pub struct CASession {
    device: AggregateDevice,
    callback: Option<u64>,
}

impl View for CASession {
    type V = CASessionView;

    closed spec fn view(&self) -> CASessionView {
        CASessionView { device: self.device@, callback: self.callback }
    }
}

/// The mathematical value of a [`Stop`].
pub enum StopView {
    /// Waiting for the hardware clock to stop.
    Stopping { session: CASessionView },
    /// Waiting for the callback registration to be released.
    Unregistering { session: CASessionView },
    /// Waiting for the aggregate device to be destroyed.
    Destroying { destroy: DestroyView },
}

impl StopView {
    /// The teardown of `session` at its beginning: with the stop of the
    /// clock where a callback is registered, and else with the destruction
    /// of the aggregate device.
    pub open spec fn begin(session: CASessionView) -> StopView {
        if session.callback is Some {
            StopView::Stopping { session }
        } else {
            StopView::Destroying {
                destroy: DestroyView::begin(session.device.plugin_id, session.device.device),
            }
        }
    }

    /// The request that the machine wants performed.
    pub open spec fn pending(self) -> RequestView {
        match self {
            StopView::Stopping { session } => session.clock_stop(),
            StopView::Unregistering { session } => session.release(),
            StopView::Destroying { destroy } => destroy.pending(),
        }
    }

    /// What the machine does with a reply: the clock stopped, the
    /// registration is released; the registration released, the aggregate
    /// device is destroyed; the device destroyed, the machine ends. A
    /// failure of any of the three is fatal and ends the machine at once.
    pub open spec fn advance(self, reply: ReplyView) -> Step<StopView, ()> {
        match self {
            StopView::Stopping { session } => {
                if reply.status != NO_ERR {
                    Step::Fatal(Teardown::Stop, CFError(reply.status))
                } else {
                    Step::Continue(StopView::Unregistering { session })
                }
            },
            StopView::Unregistering { session } => {
                if reply.status != NO_ERR {
                    Step::Fatal(Teardown::Unregister, CFError(reply.status))
                } else {
                    Step::Continue(
                        StopView::Destroying {
                            destroy: DestroyView::begin(
                                session.device.plugin_id,
                                session.device.device,
                            ),
                        },
                    )
                }
            },
            StopView::Destroying { destroy } => match destroy.advance(reply) {
                Step::Continue(d) => Step::Continue(StopView::Destroying { destroy: d }),
                Step::Done(_) => Step::Done(()),
                Step::Failed(e) => Step::Failed(e),
                Step::Fatal(t, e) => Step::Fatal(t, e),
            },
        }
    }

    /// Whether a callback is registered for as long as the machine still
    /// has to stop the clock or release the registration.
    pub open spec fn wf(self) -> bool {
        match self {
            StopView::Stopping { session } => session.callback is Some,
            StopView::Unregistering { session } => session.callback is Some,
            StopView::Destroying { destroy } => destroy.wf(),
        }
    }

}

enum StopState {
    Stopping { session: CASession, pending: Request },
    Unregistering { session: CASession, pending: Request },
    Destroying { destroy: Destroy },
}

/// The teardown of a session in progress.
pub struct Stop {
    state: StopState,
}

impl View for Stop {
    type V = StopView;

    closed spec fn view(&self) -> StopView {
        match self.state {
            StopState::Stopping { session, .. } => StopView::Stopping { session: session@ },
            StopState::Unregistering { session, .. } => StopView::Unregistering {
                session: session@,
            },
            StopState::Destroying { destroy } => StopView::Destroying { destroy: destroy@ },
        }
    }
}

impl Stop {
    #[verifier::type_invariant]
    spec fn inv(self) -> bool {
        &&& self@.wf()
        &&& match self.state {
            StopState::Stopping { pending, .. } => pending@ == self@.pending(),
            StopState::Unregistering { pending, .. } => pending@ == self@.pending(),
            StopState::Destroying { .. } => true,
        }
    }

    /// Begins the teardown of `session`.
    pub fn begin(session: CASession) -> (r: Self)
        ensures
            r@ == StopView::begin(session@),
    {
        match session.callback {
            Some(proc_id) => {
                let pending = Request::DeviceStop { device: session.device.device().id(), proc_id };
                Stop { state: StopState::Stopping { session, pending } }
            },
            None => Stop { state: StopState::Destroying { destroy: session.device.destroy() } },
        }
    }

    /// The request that the machine wants performed.
    pub fn request(&self) -> (r: &Request)
        ensures
            r@ == self@.pending(),
    {
        proof {
            use_type_invariant(self);
        }
        match &self.state {
            StopState::Stopping { pending, .. } => pending,
            StopState::Unregistering { pending, .. } => pending,
            StopState::Destroying { destroy } => destroy.request(),
        }
    }

    /// Takes the reply to the pending request.
    pub fn advance(self, reply: Reply) -> (step: Step<Stop, ()>)
        requires
            answers(reply@, self@.pending()),
        ensures
            step@ == self@.advance(reply@),
    {
        proof {
            use_type_invariant(&self);
        }
        match self.state {
            StopState::Stopping { session, .. } => {
                if reply.status != NO_ERR {
                    return Step::Fatal(Teardown::Stop, CFError(reply.status));
                }
                match session.callback {
                    Some(proc_id) => {
                        let pending = Request::DestroyIOProcID {
                            device: session.device.device().id(),
                            proc_id,
                        };
                        Step::Continue(Stop { state: StopState::Unregistering { session, pending } })
                    },
                    None => unreached(),
                }
            },
            StopState::Unregistering { session, .. } => {
                if reply.status != NO_ERR {
                    return Step::Fatal(Teardown::Unregister, CFError(reply.status));
                }
                Step::Continue(
                    Stop { state: StopState::Destroying { destroy: session.device.destroy() } },
                )
            },
            StopState::Destroying { destroy } => match destroy.advance(reply) {
                Step::Continue(d) => Step::Continue(
                    Stop { state: StopState::Destroying { destroy: d } },
                ),
                Step::Done(_) => Step::Done(()),
                Step::Failed(e) => Step::Failed(e),
                Step::Fatal(t, e) => Step::Fatal(t, e),
            },
        }
    }
}

/// The mathematical value of a [`Start`].
pub enum StartView {
    /// Waiting for the aggregate device.
    Building { setup: SetupView },
    /// Waiting for the registration of the callback trampoline.
    Registering { session: CASessionView },
    /// The registration is stored: waiting for the hardware clock to start.
    Starting { session: CASessionView },
    /// A step failed with `error`: waiting for what was built to be torn
    /// down again.
    Unwinding { error: CFError, stop: StopView },
}

impl StartView {
    /// The start of a session on the aggregate device that `uid`
    /// identifies, which is to join `input` and `output`, at its beginning.
    pub open spec fn begin(uid: Seq<char>, input: CADevice, output: CADevice) -> StartView {
        StartView::Building { setup: SetupView::begin(uid, input, output) }
    }

    /// The request that the machine wants performed.
    pub open spec fn pending(self) -> RequestView {
        match self {
            StartView::Building { setup } => setup.pending(),
            StartView::Registering { session } => session.registration(),
            StartView::Starting { session } => session.clock_start(),
            StartView::Unwinding { stop, .. } => stop.pending(),
        }
    }

    /// What the machine does with a reply.
    ///
    /// The aggregate device built, the callback is registered; the
    /// registration stored in the session, and only then, the hardware clock
    /// is started; the clock started, the machine ends with the session. A
    /// failure to build ends the machine with that error. A failure to
    /// register or to start leads to the teardown of what stands by then,
    /// after which the machine ends with the error of the step that failed.
    pub open spec fn advance(self, reply: ReplyView) -> Step<StartView, CASessionView> {
        match self {
            StartView::Building { setup } => match setup.advance(reply) {
                Step::Continue(s) => Step::Continue(StartView::Building { setup: s }),
                Step::Done(aggregate) => Step::Continue(
                    StartView::Registering {
                        session: CASessionView { device: aggregate, callback: None },
                    },
                ),
                Step::Failed(e) => Step::Failed(e),
                Step::Fatal(t, e) => Step::Fatal(t, e),
            },
            StartView::Registering { session } => {
                if reply.status != NO_ERR {
                    Step::Continue(
                        StartView::Unwinding {
                            error: CFError(reply.status),
                            stop: StopView::begin(session),
                        },
                    )
                } else {
                    Step::Continue(
                        StartView::Starting {
                            session: CASessionView {
                                callback: Some(reply.data.proc_id()),
                                ..session
                            },
                        },
                    )
                }
            },
            StartView::Starting { session } => {
                if reply.status != NO_ERR {
                    Step::Continue(
                        StartView::Unwinding {
                            error: CFError(reply.status),
                            stop: StopView::begin(session),
                        },
                    )
                } else {
                    Step::Done(session)
                }
            },
            StartView::Unwinding { error, stop } => match stop.advance(reply) {
                Step::Continue(s) => Step::Continue(StartView::Unwinding { error, stop: s }),
                Step::Done(_) => Step::Failed(error),
                Step::Failed(e) => Step::Failed(e),
                Step::Fatal(t, e) => Step::Fatal(t, e),
            },
        }
    }

    /// Whether the session has no registration while it waits for one, and
    /// has one while it waits for the clock.
    pub open spec fn wf(self) -> bool {
        match self {
            StartView::Building { setup } => setup.wf(),
            StartView::Registering { session } => session.callback is None,
            StartView::Starting { session } => session.callback is Some,
            StartView::Unwinding { stop, .. } => stop.wf(),
        }
    }
}

enum StartState {
    Building { setup: Setup },
    Registering { session: CASession, pending: Request },
    Starting { session: CASession, pending: Request },
    Unwinding { error: CFError, stop: Stop },
}

/// The start of a session in progress.
pub struct Start {
    state: StartState,
}

impl View for Start {
    type V = StartView;

    closed spec fn view(&self) -> StartView {
        match self.state {
            StartState::Building { setup } => StartView::Building { setup: setup@ },
            StartState::Registering { session, .. } => StartView::Registering {
                session: session@,
            },
            StartState::Starting { session, .. } => StartView::Starting { session: session@ },
            StartState::Unwinding { error, stop } => StartView::Unwinding { error, stop: stop@ },
        }
    }
}

impl Start {
    #[verifier::type_invariant]
    spec fn inv(self) -> bool {
        &&& self@.wf()
        &&& match self.state {
            StartState::Registering { pending, .. } => pending@ == self@.pending(),
            StartState::Starting { pending, .. } => pending@ == self@.pending(),
            _ => true,
        }
    }

    /// The request that the machine wants performed.
    pub fn request(&self) -> (r: &Request)
        ensures
            r@ == self@.pending(),
    {
        proof {
            use_type_invariant(self);
        }
        match &self.state {
            StartState::Building { setup } => setup.request(),
            StartState::Registering { pending, .. } => pending,
            StartState::Starting { pending, .. } => pending,
            StartState::Unwinding { stop, .. } => stop.request(),
        }
    }

    /// The session as it stands while the machine waits for the hardware
    /// clock to start, with its registration stored: a mirror of it for the
    /// slot that the callback trampoline reads, which is thereby filled
    /// before the clock is asked to start. In every other state there is
    /// none. The mirror and the session that the machine ends with are one
    /// session: only one of the two is ever torn down.
    pub fn registered(&self) -> (s: Option<CASession>)
        ensures
            s is Some <==> self@ is Starting,
            s is Some ==> s->0@ == self@->Starting_session,
    {
        match &self.state {
            StartState::Starting { session, .. } => Some(
                CASession { device: session.device.mirror(), callback: session.callback },
            ),
            _ => None,
        }
    }

    /// Takes the reply to the pending request.
    pub fn advance(self, reply: Reply) -> (step: Step<Start, CASession>)
        requires
            answers(reply@, self@.pending()),
        ensures
            step@ == self@.advance(reply@),
    {
        proof {
            use_type_invariant(&self);
        }
        match self.state {
            StartState::Building { setup } => match setup.advance(reply) {
                Step::Continue(s) => Step::Continue(Start { state: StartState::Building { setup: s } }),
                Step::Done(aggregate) => {
                    let pending = Request::CreateIOProcID { device: aggregate.device().id() };
                    let session = CASession { device: aggregate, callback: None };
                    Step::Continue(Start { state: StartState::Registering { session, pending } })
                },
                Step::Failed(e) => Step::Failed(e),
                Step::Fatal(t, e) => Step::Fatal(t, e),
            },
            StartState::Registering { session, .. } => {
                if reply.status != NO_ERR {
                    return Step::Continue(
                        Start {
                            state: StartState::Unwinding {
                                error: CFError(reply.status),
                                stop: Stop::begin(session),
                            },
                        },
                    );
                }
                let proc_id = reply.data.into_proc_id();
                let pending = Request::DeviceStart { device: session.device.device().id(), proc_id };
                let session = CASession { device: session.device, callback: Some(proc_id) };
                Step::Continue(Start { state: StartState::Starting { session, pending } })
            },
            StartState::Starting { session, .. } => {
                if reply.status != NO_ERR {
                    return Step::Continue(
                        Start {
                            state: StartState::Unwinding {
                                error: CFError(reply.status),
                                stop: Stop::begin(session),
                            },
                        },
                    );
                }
                Step::Done(session)
            },
            StartState::Unwinding { error, stop } => match stop.advance(reply) {
                Step::Continue(s) => Step::Continue(
                    Start { state: StartState::Unwinding { error, stop: s } },
                ),
                Step::Done(_) => Step::Failed(error),
                Step::Failed(e) => Step::Failed(e),
                Step::Fatal(t, e) => Step::Fatal(t, e),
            },
        }
    }
}

/// The request that stops the hardware clock of `device` for the
/// registration `proc_id`.
pub open spec fn clock_stop(device: u32, proc_id: u64) -> RequestView {
    RequestView::DeviceStop { device, proc_id }
}

/// The request that starts the hardware clock of `device` for the
/// registration `proc_id`.
pub open spec fn clock_start(device: u32, proc_id: u64) -> RequestView {
    RequestView::DeviceStart { device, proc_id }
}

/// The mathematical value of a [`Swap`].
pub enum SwapView {
    /// Waiting for the hardware clock to stop.
    Pausing { device: u32, proc_id: u64, refresh: RefreshView },
    /// Waiting for the sub-device list to be refreshed. `resume` names the
    /// device and the registration whose clock is to be started again,
    /// where it was stopped.
    Refreshing { resume: Option<(u32, u64)>, refresh: RefreshView },
    /// Waiting for the hardware clock to start again. `error` is the error
    /// of the refresh, where it failed.
    Resuming { device: u32, proc_id: u64, error: Option<CFError> },
}

impl SwapView {
    /// The swap at its beginning, on a session that already names its new
    /// devices: with the stop of the clock where a callback is registered,
    /// and else with the refresh.
    pub open spec fn begin(session: CASessionView) -> SwapView {
        let refresh = RefreshView::begin(
            session.device.device.0,
            session.device.input,
            session.device.output,
        );
        match session.callback {
            Some(proc_id) => SwapView::Pausing {
                device: session.device.device.0,
                proc_id,
                refresh,
            },
            None => SwapView::Refreshing { resume: None, refresh },
        }
    }

    /// The request that the machine wants performed.
    pub open spec fn pending(self) -> RequestView {
        match self {
            SwapView::Pausing { device, proc_id, .. } => clock_stop(device, proc_id),
            SwapView::Refreshing { refresh, .. } => refresh.pending(),
            SwapView::Resuming { device, proc_id, .. } => clock_start(device, proc_id),
        }
    }

    /// What the machine does with a reply.
    ///
    /// A clock that does not stop ends the machine with that error, and
    /// nothing has been rewired. The clock stopped, the sub-device list is
    /// refreshed, and whether or not that succeeds the clock is started
    /// again. The machine ends with the first error met, or well where
    /// there was none.
    pub open spec fn advance(self, reply: ReplyView) -> Step<SwapView, ()> {
        match self {
            SwapView::Pausing { device, proc_id, refresh } => {
                if reply.status != NO_ERR {
                    Step::Failed(CFError(reply.status))
                } else {
                    Step::Continue(
                        SwapView::Refreshing { resume: Some((device, proc_id)), refresh },
                    )
                }
            },
            SwapView::Refreshing { resume, refresh } => match refresh.advance(reply) {
                Step::Continue(r) => Step::Continue(SwapView::Refreshing { resume, refresh: r }),
                Step::Done(_) => match resume {
                    Some((device, proc_id)) => Step::Continue(
                        SwapView::Resuming { device, proc_id, error: None },
                    ),
                    None => Step::Done(()),
                },
                Step::Failed(e) => match resume {
                    Some((device, proc_id)) => Step::Continue(
                        SwapView::Resuming { device, proc_id, error: Some(e) },
                    ),
                    None => Step::Failed(e),
                },
                Step::Fatal(t, e) => Step::Fatal(t, e),
            },
            SwapView::Resuming { error, .. } => match error {
                Some(e) => Step::Failed(e),
                None => if reply.status != NO_ERR {
                    Step::Failed(CFError(reply.status))
                } else {
                    Step::Done(())
                },
            },
        }
    }

    /// Whether the refresh in progress is in order.
    pub open spec fn wf(self) -> bool {
        match self {
            SwapView::Pausing { refresh, .. } => refresh.wf(),
            SwapView::Refreshing { refresh, .. } => refresh.wf(),
            SwapView::Resuming { .. } => true,
        }
    }
}

enum SwapState {
    Pausing { device: u32, proc_id: u64, pending: Request, refresh: Refresh },
    Refreshing { resume: Option<(u32, u64)>, refresh: Refresh },
    Resuming { device: u32, proc_id: u64, pending: Request, error: Option<CFError> },
}

/// A device swap in progress.
pub struct Swap {
    state: SwapState,
}

impl View for Swap {
    type V = SwapView;

    closed spec fn view(&self) -> SwapView {
        match self.state {
            SwapState::Pausing { device, proc_id, refresh, .. } => SwapView::Pausing {
                device,
                proc_id,
                refresh: refresh@,
            },
            SwapState::Refreshing { resume, refresh } => SwapView::Refreshing {
                resume,
                refresh: refresh@,
            },
            SwapState::Resuming { device, proc_id, error, .. } => SwapView::Resuming {
                device,
                proc_id,
                error,
            },
        }
    }
}

impl Swap {
    #[verifier::type_invariant]
    spec fn inv(self) -> bool {
        &&& self@.wf()
        &&& match self.state {
            SwapState::Pausing { pending, .. } => pending@ == self@.pending(),
            SwapState::Refreshing { .. } => true,
            SwapState::Resuming { pending, .. } => pending@ == self@.pending(),
        }
    }

    /// The request that the machine wants performed.
    pub fn request(&self) -> (r: &Request)
        ensures
            r@ == self@.pending(),
    {
        proof {
            use_type_invariant(self);
        }
        match &self.state {
            SwapState::Pausing { pending, .. } => pending,
            SwapState::Refreshing { refresh, .. } => refresh.request(),
            SwapState::Resuming { pending, .. } => pending,
        }
    }

    /// Takes the reply to the pending request.
    pub fn advance(self, reply: Reply) -> (step: Step<Swap, ()>)
        requires
            answers(reply@, self@.pending()),
        ensures
            step@ == self@.advance(reply@),
    {
        proof {
            use_type_invariant(&self);
        }
        match self.state {
            SwapState::Pausing { device, proc_id, refresh, .. } => {
                if reply.status != NO_ERR {
                    return Step::Failed(CFError(reply.status));
                }
                Step::Continue(
                    Swap {
                        state: SwapState::Refreshing { resume: Some((device, proc_id)), refresh },
                    },
                )
            },
            SwapState::Refreshing { resume, refresh } => match refresh.advance(reply) {
                Step::Continue(r) => Step::Continue(
                    Swap { state: SwapState::Refreshing { resume, refresh: r } },
                ),
                Step::Done(_) => match resume {
                    Some((device, proc_id)) => Step::Continue(
                        Swap {
                            state: SwapState::Resuming {
                                device,
                                proc_id,
                                pending: Request::DeviceStart { device, proc_id },
                                error: None,
                            },
                        },
                    ),
                    None => Step::Done(()),
                },
                Step::Failed(e) => match resume {
                    Some((device, proc_id)) => Step::Continue(
                        Swap {
                            state: SwapState::Resuming {
                                device,
                                proc_id,
                                pending: Request::DeviceStart { device, proc_id },
                                error: Some(e),
                            },
                        },
                    ),
                    None => Step::Failed(e),
                },
                Step::Fatal(t, e) => Step::Fatal(t, e),
            },
            SwapState::Resuming { error, .. } => match error {
                Some(e) => Step::Failed(e),
                None => if reply.status != NO_ERR {
                    Step::Failed(CFError(reply.status))
                } else {
                    Step::Done(())
                },
            },
        }
    }
}

impl CASession {
    /// Begins the start of a session on the aggregate device of `backend`,
    /// which is to join `input_device` and `output_device`.
    pub fn new_started(backend: &CABackend, input_device: CADevice, output_device: CADevice) -> (r:
        Start)
        ensures
            r@ == StartView::begin(backend@, input_device, output_device),
    {
        Start {
            state: StartState::Building {
                setup: AggregateDevice::new(backend, input_device, output_device),
            },
        }
    }

    /// The aggregate device of the session.
    pub fn aggregate_device(&self) -> (d: &AggregateDevice)
        ensures
            d@ == self@.device,
    {
        &self.device
    }

    /// The identifier of the callback registration, where there is one.
    pub fn registration(&self) -> (id: Option<u64>)
        ensures
            id == self@.callback,
    {
        self.callback
    }

    /// The aggregate device of the session, to work on. Whoever changes
    /// its devices through this reference has the hardware to bring in line
    /// by the refresh that the change hands out.
    pub fn aggregate_device_mut(&mut self) -> (d: &mut AggregateDevice)
        ensures
            d@ == old(self)@.device,
            final(self)@ == (CASessionView { device: final(d)@, ..old(self)@ }),
    {
        &mut self.device
    }

    fn swap(&self) -> (r: Swap)
        ensures
            r@ == SwapView::begin(self@),
    {
        let refresh = self.device.refresh_sub_device_array();
        let device = self.device.device().id();
        match self.callback {
            Some(proc_id) => Swap {
                state: SwapState::Pausing {
                    device,
                    proc_id,
                    pending: Request::DeviceStop { device, proc_id },
                    refresh,
                },
            },
            None => Swap { state: SwapState::Refreshing { resume: None, refresh } },
        }
    }

    /// Gives the session up, and begins its teardown.
    pub fn stop(self) -> (r: Stop)
        ensures
            r@ == StopView::begin(self@),
    {
        Stop::begin(self)
    }
}

impl Session<CABackend> for CASession {
    type Swapping = Swap;

    /// The device that the session takes its input from.
    fn input_device(&self) -> (r: Result<CADevice, CFError>)
        ensures
            r == Ok::<CADevice, CFError>(self@.device.input),
    {
        Ok(self.device.input())
    }

    /// The device that the session sends its output to.
    fn output_device(&self) -> (r: Result<CADevice, CFError>)
        ensures
            r == Ok::<CADevice, CFError>(self@.device.output),
    {
        Ok(self.device.output())
    }

    /// Makes `device` the input device of the session, and begins the swap
    /// that brings the hardware in line.
    fn set_input_device(&mut self, device: CADevice) -> (r: Swap)
        ensures
            final(self)@ == (CASessionView {
                device: AggregateDeviceView { input: device, ..old(self)@.device },
                ..old(self)@
            }),
            r@ == SwapView::begin(final(self)@),
    {
        let _ = self.device.set_input(device);
        self.swap()
    }

    /// Makes `device` the output device of the session, and begins the swap
    /// that brings the hardware in line.
    fn set_output_device(&mut self, device: CADevice) -> (r: Swap)
        ensures
            final(self)@ == (CASessionView {
                device: AggregateDeviceView { output: device, ..old(self)@.device },
                ..old(self)@
            }),
            r@ == SwapView::begin(final(self)@),
    {
        let _ = self.device.set_output(device);
        self.swap()
    }
}

/// The most channels that a stream can interleave: with more, the bytes of
/// one frame would not fit the 32 bits that sizes are counted in.
pub const MAX_CHANNELS: u32 = 0x3fff_ffff;

/// The whole frames that `data_byte_size` bytes hold, a frame being one
/// sample for each of `number_channels` channels.
pub open spec fn frames_in(number_channels: u32, data_byte_size: u32) -> int {
    data_byte_size as int / (SAMPLE_SIZE as int * number_channels as int)
}

/// The shape of the samples of one stream in a render callback: a region of
/// interleaved samples that belongs to the hardware clock for as long as the
/// callback runs. It has at least one channel and no more than
/// [`MAX_CHANNELS`].
#[derive(Debug, Clone, Copy)]
pub struct InterleavedBuffer(AudioBuffer);

impl View for InterleavedBuffer {
    type V = AudioBuffer;

    closed spec fn view(&self) -> AudioBuffer {
        self.0
    }
}

impl InterleavedBuffer {
    #[verifier::type_invariant]
    spec fn inv(self) -> bool {
        0 < self.0.number_channels <= MAX_CHANNELS
    }

    /// The shape of a stream with the layout `buffer`, where the layout has
    /// a channel count that frames can be counted with.
    pub fn new(buffer: AudioBuffer) -> (r: Option<Self>)
        ensures
            r is Some <==> 0 < buffer.number_channels <= MAX_CHANNELS,
            r is Some ==> r->0@ == buffer,
    {
        if 0 < buffer.number_channels && buffer.number_channels <= MAX_CHANNELS {
            Some(InterleavedBuffer(buffer))
        } else {
            None
        }
    }

    /// The number of samples in the region: one for each channel of each
    /// whole frame. Four times that is the stream's byte size, less the
    /// bytes of a frame that is not whole.
    pub fn num_samples(&self) -> (n: usize)
        ensures
            0 < self@.number_channels <= MAX_CHANNELS,
            n == frames_in(self@.number_channels, self@.data_byte_size)
                * self@.number_channels,
            SAMPLE_SIZE * n <= self@.data_byte_size,
            self@.data_byte_size < SAMPLE_SIZE * n + SAMPLE_SIZE * self@.number_channels,
            self@.data_byte_size as int % (SAMPLE_SIZE * self@.number_channels) == 0
                ==> SAMPLE_SIZE * n == self@.data_byte_size,
    {
        proof {
            use_type_invariant(self);
        }
        let frame_size: u32 = SAMPLE_SIZE * self.0.number_channels;
        let frames: u32 = self.0.data_byte_size / frame_size;
        proof {
            lemma_whole_frames(self.0.data_byte_size as int, frame_size as int);
            assert(self.0.number_channels * frames == frames * self.0.number_channels)
                by (nonlinear_arith);
            assert(frame_size * frames == SAMPLE_SIZE * (self.0.number_channels * frames))
                by (nonlinear_arith)
                requires
                    frame_size == SAMPLE_SIZE * self.0.number_channels,
            ;
        }
        let n: u32 = frames * self.0.number_channels;
        n as usize
    }
}

/// Division into whole frames: the frames take no more bytes than there
/// are, they leave less than one frame over, and nothing where the bytes are
/// a multiple of the frame size.
pub proof fn lemma_whole_frames(bytes: int, frame_size: int)
    requires
        0 <= bytes,
        0 < frame_size,
    ensures
        0 <= bytes / frame_size,
        frame_size * (bytes / frame_size) <= bytes,
        bytes < frame_size * (bytes / frame_size) + frame_size,
        bytes % frame_size == 0 ==> frame_size * (bytes / frame_size) == bytes,
{
    assert(bytes == frame_size * (bytes / frame_size) + bytes % frame_size) by (nonlinear_arith)
        requires
            0 < frame_size,
    ;
    assert(0 <= bytes % frame_size < frame_size) by (nonlinear_arith)
        requires
            0 < frame_size,
    ;
    assert(0 <= bytes / frame_size) by (nonlinear_arith)
        requires
            0 <= bytes,
            0 < frame_size,
    ;
}

impl AudioBuffers for InterleavedBuffer {
    /// The whole frames in the region.
    fn num_frames(&self) -> (n: usize)
        ensures
            n == frames_in(self@.number_channels, self@.data_byte_size),
    {
        proof {
            use_type_invariant(self);
        }
        (self.0.data_byte_size / (SAMPLE_SIZE * self.0.number_channels)) as usize
    }

    /// The channels that are interleaved in the region.
    fn num_channels(&self) -> (n: usize)
        ensures
            n == self@.number_channels,
            n > 0,
    {
        proof {
            use_type_invariant(self);
        }
        self.0.number_channels as usize
    }
}

/// What the trampoline does in one quantum.
#[derive(Debug, Clone, Copy, PartialEq, Eq, Structural)]
pub enum Quantum {
    /// Nothing: the quantum is missed.
    Skip,
    /// It hands the render callback as many input views and as many output
    /// views as the two buffer lists hold buffers.
    Render { inputs: usize, outputs: usize },
}

/// What the trampoline does in one quantum, given the session as the
/// context pointer leads to it, and the number of buffers in the input and
/// the output list, each where the pointer to it is not null.
pub open spec fn quantum(
    session: Option<CASessionView>,
    input_buffers: Option<u32>,
    output_buffers: Option<u32>,
) -> Quantum {
    match (session, input_buffers, output_buffers) {
        (Some(s), Some(inputs), Some(outputs)) => if s.callback is Some {
            Quantum::Render { inputs: inputs as usize, outputs: outputs as usize }
        } else {
            Quantum::Skip
        },
        _ => Quantum::Skip,
    }
}

/// The decision of the callback trampoline. It reports success to the
/// hardware clock whatever it is given, and has the render callback called
/// only where the session, a registered callback, the input list and the
/// output list are all there. It allocates nothing and cannot fail.
pub fn session_io_proc(
    session: Option<&CASession>,
    input_buffers: Option<u32>,
    output_buffers: Option<u32>,
) -> (r: (i32, Quantum))
    ensures
        r.0 == NO_ERR,
        r.1 == quantum(
            match session {
                Some(s) => Some(s@),
                None => None,
            },
            input_buffers,
            output_buffers,
        ),
{
    let action = match (session, input_buffers, output_buffers) {
        (Some(s), Some(inputs), Some(outputs)) => match s.callback {
            Some(_) => Quantum::Render { inputs: inputs as usize, outputs: outputs as usize },
            None => Quantum::Skip,
        },
        _ => Quantum::Skip,
    };
    (NO_ERR, action)
}

impl Machine for Stop {
    type Output = ();

    open spec fn waits_on(&self) -> RequestView {
        self@.pending()
    }

    fn request(&self) -> (r: &Request) {
        self.request()
    }

    fn advance(self, reply: Reply) -> (step: Step<Self, ()>)
        ensures
            step@ == self@.advance(reply@),
    {
        self.advance(reply)
    }
}

impl Machine for Start {
    type Output = CASession;

    open spec fn waits_on(&self) -> RequestView {
        self@.pending()
    }

    fn request(&self) -> (r: &Request) {
        self.request()
    }

    fn advance(self, reply: Reply) -> (step: Step<Self, CASession>)
        ensures
            step@ == self@.advance(reply@),
    {
        self.advance(reply)
    }
}

impl Machine for Swap {
    type Output = ();

    open spec fn waits_on(&self) -> RequestView {
        self@.pending()
    }

    fn request(&self) -> (r: &Request) {
        self.request()
    }

    fn advance(self, reply: Reply) -> (step: Step<Self, ()>)
        ensures
            step@ == self@.advance(reply@),
    {
        self.advance(reply)
    }
}

} // verus!
