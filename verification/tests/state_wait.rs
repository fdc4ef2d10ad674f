use nmrs::state_wait::{
    activation_wait_step, device_failure_reason, disconnect_wait_step, ready_wait_step,
    ActivationEvent, ActivationStep, DeviceWaitEvent, DisconnectWaitStep, ReadyWaitStep,
};

#[test]
fn disconnect_wait_decisions() {
    assert_eq!(disconnect_wait_step(DeviceWaitEvent::StateRead(30)), DisconnectWaitStep::Disconnected);
    assert_eq!(disconnect_wait_step(DeviceWaitEvent::StateRead(20)), DisconnectWaitStep::Disconnected);
    assert_eq!(disconnect_wait_step(DeviceWaitEvent::StateRead(100)), DisconnectWaitStep::KeepWaiting);
    assert_eq!(disconnect_wait_step(DeviceWaitEvent::Signal(30)), DisconnectWaitStep::Disconnected);
    assert_eq!(disconnect_wait_step(DeviceWaitEvent::UnreadableSignal), DisconnectWaitStep::KeepWaiting);
    assert_eq!(disconnect_wait_step(DeviceWaitEvent::StreamEnded), DisconnectWaitStep::StreamEnded);
    assert_eq!(disconnect_wait_step(DeviceWaitEvent::TimedOut(110)), DisconnectWaitStep::StuckInState(110));
    assert_eq!(disconnect_wait_step(DeviceWaitEvent::TimedOut(20)), DisconnectWaitStep::Disconnected);
}

#[test]
fn ready_wait_decisions() {
    assert_eq!(ready_wait_step(DeviceWaitEvent::StateRead(100)), ReadyWaitStep::Ready);
    assert_eq!(ready_wait_step(DeviceWaitEvent::StateRead(20)), ReadyWaitStep::KeepWaiting);
    assert_eq!(ready_wait_step(DeviceWaitEvent::Signal(30)), ReadyWaitStep::Ready);
    assert_eq!(ready_wait_step(DeviceWaitEvent::StreamEnded), ReadyWaitStep::NotReady);
    assert_eq!(ready_wait_step(DeviceWaitEvent::TimedOut(50)), ReadyWaitStep::NotReady);
    assert_eq!(ready_wait_step(DeviceWaitEvent::TimedOut(30)), ReadyWaitStep::Ready);
}

#[test]
fn activation_wait_decisions() {
    assert_eq!(activation_wait_step(ActivationEvent::StateRead(2)), ActivationStep::Activated);
    assert_eq!(activation_wait_step(ActivationEvent::StateRead(1)), ActivationStep::KeepWaiting);
    assert_eq!(activation_wait_step(ActivationEvent::StateRead(4)), ActivationStep::AskDeviceReason);
    assert_eq!(
        activation_wait_step(ActivationEvent::Signal { state: 4, reason: 3 }),
        ActivationStep::AskDeviceReason
    );
    assert_eq!(
        activation_wait_step(ActivationEvent::Signal { state: 4, reason: 6 }),
        ActivationStep::Failed(6)
    );
    assert_eq!(
        activation_wait_step(ActivationEvent::Signal { state: 2, reason: 0 }),
        ActivationStep::Activated
    );
    assert_eq!(activation_wait_step(ActivationEvent::TimedOut), ActivationStep::TimedOut);
    assert_eq!(activation_wait_step(ActivationEvent::StreamEnded), ActivationStep::StreamEnded);
    assert_eq!(activation_wait_step(ActivationEvent::UnreadableSignal), ActivationStep::KeepWaiting);
}

#[test]
fn device_reason_is_the_first_read() {
    assert_eq!(device_failure_reason(&vec![]), None);
    assert_eq!(device_failure_reason(&vec![None, Some(7), Some(9)]), Some(7));
    assert_eq!(device_failure_reason(&vec![None, None]), None);
}
