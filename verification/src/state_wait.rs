//! Decisions of the waits on NetworkManager state transitions.
//!
//! The waits subscribe to `StateChanged` signals, read the current state, and
//! then react to each state read, signal, timeout or end of the signal
//! stream. The functions here take one such event and say whether the wait
//! is over and how; the D-Bus plumbing that produces the events lives with
//! the caller.

use vstd::prelude::*;

verus! {

/// `NM_DEVICE_STATE_UNAVAILABLE`.
pub const DEVICE_STATE_UNAVAILABLE: u32 = 20;
/// `NM_DEVICE_STATE_DISCONNECTED`.
pub const DEVICE_STATE_DISCONNECTED: u32 = 30;
/// `NM_DEVICE_STATE_ACTIVATED`.
pub const DEVICE_STATE_ACTIVATED: u32 = 100;

/// `NM_ACTIVE_CONNECTION_STATE_ACTIVATED`.
pub const ACTIVE_CONNECTION_ACTIVATED: u32 = 2;
/// `NM_ACTIVE_CONNECTION_STATE_DEACTIVATED`.
pub const ACTIVE_CONNECTION_DEACTIVATED: u32 = 4;
/// `NM_ACTIVE_CONNECTION_STATE_REASON_DEVICE_DISCONNECTED`.
pub const REASON_DEVICE_DISCONNECTED: u32 = 3;

/// Something that happened while waiting on a device.
#[derive(Debug, Clone, Copy, PartialEq, Eq, Structural)]
pub enum DeviceWaitEvent {
    /// The device's `State` property was read.
    StateRead(u32),
    /// A `StateChanged` signal arrived with this new state.
    Signal(u32),
    /// A `StateChanged` signal arrived whose arguments could not be parsed.
    UnreadableSignal,
    /// The signal stream ended.
    StreamEnded,
    /// The timeout elapsed; the device's state read right after is given.
    TimedOut(u32),
}

/// How a wait on a device goes on after an event.
#[derive(Debug, Clone, Copy, PartialEq, Eq, Structural)]
pub enum DisconnectWaitStep {
    /// The device reached a disconnected state: the wait succeeds.
    Disconnected,
    /// Keep waiting.
    KeepWaiting,
    /// The timeout elapsed while the device was still in this state.
    StuckInState(u32),
    /// The signal stream ended before the device disconnected.
    StreamEnded,
}

/// The device no longer holds a connection: disconnected or unavailable.
pub open spec fn is_disconnected_state(state: u32) -> bool {
    state == DEVICE_STATE_DISCONNECTED || state == DEVICE_STATE_UNAVAILABLE
}

/// The step a disconnect wait takes on an event.
pub open spec fn disconnect_step(event: DeviceWaitEvent) -> DisconnectWaitStep {
    match event {
        DeviceWaitEvent::StateRead(s) => if is_disconnected_state(s) {
            DisconnectWaitStep::Disconnected
        } else {
            DisconnectWaitStep::KeepWaiting
        },
        DeviceWaitEvent::Signal(s) => if is_disconnected_state(s) {
            DisconnectWaitStep::Disconnected
        } else {
            DisconnectWaitStep::KeepWaiting
        },
        DeviceWaitEvent::UnreadableSignal => DisconnectWaitStep::KeepWaiting,
        DeviceWaitEvent::StreamEnded => DisconnectWaitStep::StreamEnded,
        DeviceWaitEvent::TimedOut(s) => if is_disconnected_state(s) {
            DisconnectWaitStep::Disconnected
        } else {
            DisconnectWaitStep::StuckInState(s)
        },
    }
}

fn is_disconnected(state: u32) -> (r: bool)
    ensures
        r == is_disconnected_state(state),
{
    state == DEVICE_STATE_DISCONNECTED || state == DEVICE_STATE_UNAVAILABLE
}

/// Decides how a wait for a device to disconnect goes on after `event`: it
/// succeeds once a read or signalled state is disconnected or unavailable,
/// fails as stuck when the timeout finds the device in another state, and
/// fails when the signal stream ends.
pub fn disconnect_wait_step(event: DeviceWaitEvent) -> (step: DisconnectWaitStep)
    ensures
        step == disconnect_step(event),
{
    match event {
        DeviceWaitEvent::StateRead(s) => if is_disconnected(s) {
            DisconnectWaitStep::Disconnected
        } else {
            DisconnectWaitStep::KeepWaiting
        },
        DeviceWaitEvent::Signal(s) => if is_disconnected(s) {
            DisconnectWaitStep::Disconnected
        } else {
            DisconnectWaitStep::KeepWaiting
        },
        DeviceWaitEvent::UnreadableSignal => DisconnectWaitStep::KeepWaiting,
        DeviceWaitEvent::StreamEnded => DisconnectWaitStep::StreamEnded,
        DeviceWaitEvent::TimedOut(s) => if is_disconnected(s) {
            DisconnectWaitStep::Disconnected
        } else {
            DisconnectWaitStep::StuckInState(s)
        },
    }
}

/// How a wait for a Wi-Fi device to become ready goes on after an event.
#[derive(Debug, Clone, Copy, PartialEq, Eq, Structural)]
pub enum ReadyWaitStep {
    /// The device is ready: disconnected or activated.
    Ready,
    /// Keep waiting.
    KeepWaiting,
    /// The device did not become ready (timeout or end of the signals).
    NotReady,
}

/// A Wi-Fi device is ready for a connection attempt when it is
/// disconnected or activated.
pub open spec fn is_ready_state(state: u32) -> bool {
    state == DEVICE_STATE_DISCONNECTED || state == DEVICE_STATE_ACTIVATED
}

/// The step a readiness wait takes on an event.
pub open spec fn ready_step(event: DeviceWaitEvent) -> ReadyWaitStep {
    match event {
        DeviceWaitEvent::StateRead(s) => if is_ready_state(s) {
            ReadyWaitStep::Ready
        } else {
            ReadyWaitStep::KeepWaiting
        },
        DeviceWaitEvent::Signal(s) => if is_ready_state(s) {
            ReadyWaitStep::Ready
        } else {
            ReadyWaitStep::KeepWaiting
        },
        DeviceWaitEvent::UnreadableSignal => ReadyWaitStep::KeepWaiting,
        DeviceWaitEvent::StreamEnded => ReadyWaitStep::NotReady,
        DeviceWaitEvent::TimedOut(s) => if is_ready_state(s) {
            ReadyWaitStep::Ready
        } else {
            ReadyWaitStep::NotReady
        },
    }
}

fn is_ready(state: u32) -> (r: bool)
    ensures
        r == is_ready_state(state),
{
    state == DEVICE_STATE_DISCONNECTED || state == DEVICE_STATE_ACTIVATED
}

/// Decides how a wait for a Wi-Fi device to be ready goes on after `event`:
/// ready once a read or signalled state is disconnected or activated; not
/// ready when the timeout finds another state or the signals end.
pub fn ready_wait_step(event: DeviceWaitEvent) -> (step: ReadyWaitStep)
    ensures
        step == ready_step(event),
{
    match event {
        DeviceWaitEvent::StateRead(s) => if is_ready(s) {
            ReadyWaitStep::Ready
        } else {
            ReadyWaitStep::KeepWaiting
        },
        DeviceWaitEvent::Signal(s) => if is_ready(s) {
            ReadyWaitStep::Ready
        } else {
            ReadyWaitStep::KeepWaiting
        },
        DeviceWaitEvent::UnreadableSignal => ReadyWaitStep::KeepWaiting,
        DeviceWaitEvent::StreamEnded => ReadyWaitStep::NotReady,
        DeviceWaitEvent::TimedOut(s) => if is_ready(s) {
            ReadyWaitStep::Ready
        } else {
            ReadyWaitStep::NotReady
        },
    }
}

/// Something that happened while waiting on an active connection.
#[derive(Debug, Clone, Copy, PartialEq, Eq, Structural)]
pub enum ActivationEvent {
    /// The active connection's `State` property was read.
    StateRead(u32),
    /// A `StateChanged` signal arrived with this state and reason.
    Signal { state: u32, reason: u32 },
    /// A `StateChanged` signal arrived whose arguments could not be parsed.
    UnreadableSignal,
    /// The signal stream ended.
    StreamEnded,
    /// The timeout elapsed.
    TimedOut,
}

/// How a wait for a connection to activate goes on after an event.
#[derive(Debug, Clone, Copy, PartialEq, Eq, Structural)]
pub enum ActivationStep {
    /// The connection is activated: the wait succeeds.
    Activated,
    /// Keep waiting.
    KeepWaiting,
    /// The connection was deactivated because its device disconnected; the
    /// device's own state reason tells the real failure.
    AskDeviceReason,
    /// The connection was deactivated for this reason.
    Failed(u32),
    /// The timeout elapsed.
    TimedOut,
    /// The signal stream ended.
    StreamEnded,
}

/// The step an activation wait takes on an event.
pub open spec fn activation_step(event: ActivationEvent) -> ActivationStep {
    match event {
        ActivationEvent::StateRead(s) => if s == ACTIVE_CONNECTION_ACTIVATED {
            ActivationStep::Activated
        } else if s == ACTIVE_CONNECTION_DEACTIVATED {
            ActivationStep::AskDeviceReason
        } else {
            ActivationStep::KeepWaiting
        },
        ActivationEvent::Signal { state, reason } => if state == ACTIVE_CONNECTION_ACTIVATED {
            ActivationStep::Activated
        } else if state == ACTIVE_CONNECTION_DEACTIVATED {
            if reason == REASON_DEVICE_DISCONNECTED {
                ActivationStep::AskDeviceReason
            } else {
                ActivationStep::Failed(reason)
            }
        } else {
            ActivationStep::KeepWaiting
        },
        ActivationEvent::UnreadableSignal => ActivationStep::KeepWaiting,
        ActivationEvent::StreamEnded => ActivationStep::StreamEnded,
        ActivationEvent::TimedOut => ActivationStep::TimedOut,
    }
}

/// Decides how a wait for an active connection to reach `Activated` goes
/// on after `event`. A deactivation seen in a state read, or signalled with
/// the reason "device disconnected", sends the caller to the device's own
/// state reason; a deactivation signalled with another reason fails with
/// that reason.
pub fn activation_wait_step(event: ActivationEvent) -> (step: ActivationStep)
    ensures
        step == activation_step(event),
{
    match event {
        ActivationEvent::StateRead(s) => if s == ACTIVE_CONNECTION_ACTIVATED {
            ActivationStep::Activated
        } else if s == ACTIVE_CONNECTION_DEACTIVATED {
            ActivationStep::AskDeviceReason
        } else {
            ActivationStep::KeepWaiting
        },
        ActivationEvent::Signal { state, reason } => if state == ACTIVE_CONNECTION_ACTIVATED {
            ActivationStep::Activated
        } else if state == ACTIVE_CONNECTION_DEACTIVATED {
            if reason == REASON_DEVICE_DISCONNECTED {
                ActivationStep::AskDeviceReason
            } else {
                ActivationStep::Failed(reason)
            }
        } else {
            ActivationStep::KeepWaiting
        },
        ActivationEvent::UnreadableSignal => ActivationStep::KeepWaiting,
        ActivationEvent::StreamEnded => ActivationStep::StreamEnded,
        ActivationEvent::TimedOut => ActivationStep::TimedOut,
    }
}

/// The first device state reason that could be read, if any.
pub open spec fn first_readable(reasons: Seq<Option<u32>>) -> Option<u32>
    decreases reasons.len(),
{
    if reasons.len() == 0 {
        None
    } else if reasons[0] is Some {
        reasons[0]
    } else {
        first_readable(reasons.drop_first())
    }
}

/// Picks, among the state reasons read from the connection's devices in
/// order (`None` where the read failed), the first that was read. `None`
/// means the failure stays "device disconnected".
pub fn device_failure_reason(reasons: &Vec<Option<u32>>) -> (r: Option<u32>)
    ensures
        r == first_readable(reasons@),
{
    let mut i: usize = 0;
    assert(reasons@.skip(0) =~= reasons@);
    while i < reasons.len()
        invariant
            i <= reasons@.len(),
            first_readable(reasons@) == first_readable(reasons@.skip(i as int)),
        decreases reasons@.len() - i,
    {
        assert(reasons@.skip(i as int).drop_first() =~= reasons@.skip(i + 1));
        if reasons[i].is_some() {
            return reasons[i];
        }
        i = i + 1;
    }
    assert(reasons@.skip(i as int).len() == 0);
    None
}

/// Law: a disconnect wait ends in success exactly on the disconnected and
/// unavailable states, whether read, signalled or found at the timeout; it
/// never fails before the timeout or the end of the signals.
pub proof fn law_disconnect_wait(state: u32)
    ensures
        (disconnect_step(DeviceWaitEvent::StateRead(state)) == DisconnectWaitStep::Disconnected)
            == is_disconnected_state(state),
        (disconnect_step(DeviceWaitEvent::Signal(state)) == DisconnectWaitStep::Disconnected)
            == is_disconnected_state(state),
        (disconnect_step(DeviceWaitEvent::TimedOut(state)) == DisconnectWaitStep::Disconnected)
            == is_disconnected_state(state),
        disconnect_step(DeviceWaitEvent::StateRead(state)) != DisconnectWaitStep::StreamEnded,
        disconnect_step(DeviceWaitEvent::Signal(state)) != DisconnectWaitStep::StreamEnded,
        disconnect_step(DeviceWaitEvent::TimedOut(state)) != DisconnectWaitStep::KeepWaiting,
        disconnect_step(DeviceWaitEvent::UnreadableSignal) == DisconnectWaitStep::KeepWaiting,
{
}

/// Law: a readiness wait succeeds exactly on the disconnected and activated
/// states, and a timeout always ends it.
pub proof fn law_ready_wait(state: u32)
    ensures
        (ready_step(DeviceWaitEvent::StateRead(state)) == ReadyWaitStep::Ready) == is_ready_state(
            state,
        ),
        (ready_step(DeviceWaitEvent::Signal(state)) == ReadyWaitStep::Ready) == is_ready_state(
            state,
        ),
        ready_step(DeviceWaitEvent::TimedOut(state)) != ReadyWaitStep::KeepWaiting,
        ready_step(DeviceWaitEvent::StreamEnded) == ReadyWaitStep::NotReady,
{
}

/// Law: an activation wait succeeds exactly on the activated state; a
/// deactivation never counts as success; a signalled failure carries the
/// reason NetworkManager gave, unless that reason is "device disconnected".
pub proof fn law_activation_wait(state: u32, reason: u32)
    ensures
        (activation_step(ActivationEvent::StateRead(state)) == ActivationStep::Activated) == (state
            == ACTIVE_CONNECTION_ACTIVATED),
        (activation_step(ActivationEvent::Signal { state, reason }) == ActivationStep::Activated)
            == (state == ACTIVE_CONNECTION_ACTIVATED),
        state == ACTIVE_CONNECTION_DEACTIVATED && reason != REASON_DEVICE_DISCONNECTED
            ==> activation_step(ActivationEvent::Signal { state, reason })
            == ActivationStep::Failed(reason),
        activation_step(ActivationEvent::Signal { state, reason }) != ActivationStep::Failed(
            REASON_DEVICE_DISCONNECTED,
        ),
        activation_step(ActivationEvent::TimedOut) == ActivationStep::TimedOut,
{
}

} // verus!
