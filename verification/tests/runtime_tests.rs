use gamesim::device::{Device, PhysicalDevice};
use gamesim::error::{Error, ERROR_DEVICE_LOST, NOT_READY, SUCCESS, TIMEOUT};
use gamesim::runtime::{
    push_fence, runtime_step, RuntimeAction, RuntimeEvent, RuntimeFence, RuntimeStage, RuntimeState,
    MAX_BUDGET_NANOS,
};

fn device(id: u64) -> Device {
    Device::from_created(SUCCESS, id, PhysicalDevice::from_handle(9)).unwrap()
}

#[test]
fn pushed_fences_are_capped_and_checked() {
    let d = device(3);
    assert_eq!(push_fence(11, &d, &d, 1_000), Ok(RuntimeFence { id: 11, budget: 1_000 }));
    assert_eq!(push_fence(11, &d, &d, 1u128 << 70), Ok(RuntimeFence { id: 11, budget: MAX_BUDGET_NANOS }));
    assert_eq!(push_fence(11, &device(4), &d, 1_000), Err(Error::Vulkan(ERROR_DEVICE_LOST)));
}

#[test]
fn runtime_waits_checks_and_releases() {
    let s = RuntimeState::new();
    let a = RuntimeFence { id: 1, budget: 100 };
    let b = RuntimeFence { id: 2, budget: 50 };
    let (s, acts) = runtime_step(s, RuntimeEvent::Round { new: vec![a, b], closed: false });
    assert_eq!(acts, vec![RuntimeAction::Wait { fence: 1, nanos: 100 }]);
    // The first wait times out: the fence stays for the next round.
    let (s, acts) = runtime_step(s, RuntimeEvent::Waited { code: TIMEOUT, elapsed: 100 });
    assert_eq!(acts, vec![RuntimeAction::Wait { fence: 2, nanos: 50 }]);
    let (s, acts) = runtime_step(s, RuntimeEvent::Waited { code: SUCCESS, elapsed: 20 });
    assert_eq!(acts, vec![RuntimeAction::CheckStatus { fence: 2 }]);
    assert_eq!(s.stage, RuntimeStage::Checking { elapsed: 20 });
    // Not ready yet: waited again with what is left of the budget.
    let (s, acts) = runtime_step(s, RuntimeEvent::Status { listening: true, code: NOT_READY });
    assert_eq!(acts, vec![RuntimeAction::Wait { fence: 2, nanos: 30 }]);
    let (s, acts) = runtime_step(s, RuntimeEvent::Waited { code: SUCCESS, elapsed: 5 });
    assert_eq!(acts, vec![RuntimeAction::CheckStatus { fence: 2 }]);
    let (s, acts) = runtime_step(s, RuntimeEvent::Status { listening: true, code: SUCCESS });
    assert_eq!(acts, vec![
        RuntimeAction::DestroyFence { fence: 2 },
        RuntimeAction::SetResult { fence: 2, code: SUCCESS },
        RuntimeAction::Poll,
    ]);
    assert_eq!(s.fences, vec![a]);
    // Next round: nobody listens for fence 1 any more; it is destroyed without a result.
    let (s, acts) = runtime_step(s, RuntimeEvent::Round { new: vec![], closed: true });
    assert_eq!(acts, vec![RuntimeAction::Wait { fence: 1, nanos: 100 }]);
    let (s, _) = runtime_step(s, RuntimeEvent::Waited { code: ERROR_DEVICE_LOST, elapsed: 1 });
    let (s, acts) = runtime_step(s, RuntimeEvent::Status { listening: false, code: NOT_READY });
    assert_eq!(acts, vec![RuntimeAction::DestroyFence { fence: 1 }, RuntimeAction::Poll]);
    let (s, acts) = runtime_step(s, RuntimeEvent::Round { new: vec![], closed: true });
    assert_eq!(acts, vec![RuntimeAction::Stop]);
    assert_eq!(s.stage, RuntimeStage::Stopped);
}

#[test]
fn spent_budget_leaves_fence_for_next_round() {
    let s = RuntimeState::new();
    let (s, _) = runtime_step(s, RuntimeEvent::Round { new: vec![RuntimeFence { id: 7, budget: 10 }], closed: false });
    let (s, _) = runtime_step(s, RuntimeEvent::Waited { code: SUCCESS, elapsed: 11 });
    let (s, acts) = runtime_step(s, RuntimeEvent::Status { listening: true, code: NOT_READY });
    assert_eq!(acts, vec![RuntimeAction::Poll]);
    assert_eq!(s.fences, vec![RuntimeFence { id: 7, budget: 10 }]);
    let (_, acts) = runtime_step(s, RuntimeEvent::Round { new: vec![], closed: false });
    assert_eq!(acts, vec![RuntimeAction::Wait { fence: 7, nanos: 10 }]);
}
