use unikernel_core::irq::InterruptFlag;
use unikernel_core::net::{
    netwait, netwakeup, network_irqhandler, set_polling_mode, InterruptOutcome, NetBridge, NetWait,
    NetworkInterface,
};

use unikernel_core::context::CoreContext;

fn unlocked() -> CoreContext {
    CoreContext::new(InterruptFlag::new(true))
}

fn interrupted() -> CoreContext {
    let mut ctx = CoreContext::new(InterruptFlag::new(true));
    ctx.enter_interrupt();
    ctx
}

struct TestDevice {
    polling: bool,
    pending: bool,
    mode_changes: usize,
}

impl NetworkInterface for TestDevice {
    fn get_mac_address(&self) -> [u8; 6] {
        [2, 0, 0, 0, 0, 1]
    }

    fn get_mtu(&self) -> u16 {
        1500
    }

    fn get_tx_buffer(&mut self, _len: usize) -> Result<(usize, usize), ()> {
        Err(())
    }

    fn free_tx_buffer(&self, _token: usize) {}

    fn send_tx_buffer(&mut self, _tkn_handle: usize, _len: usize) -> Result<(), ()> {
        Err(())
    }

    fn has_packet(&self) -> bool {
        self.pending
    }

    fn receive_rx_buffer(&mut self) -> Result<(Vec<u8>, usize), ()> {
        Err(())
    }

    fn rx_buffer_consumed(&mut self, _trf_handle: usize) {}

    fn set_polling_mode(&mut self, value: bool) {
        self.polling = value;
        self.mode_changes += 1;
    }

    fn handle_interrupt(&mut self) -> bool {
        self.pending
    }
}

#[test]
fn polling_on_and_off_leaves_a_catch_up_wakeup() {
    let mut bridge = NetBridge::new();
    let mut device = TestDevice { polling: false, pending: false, mode_changes: 0 };
    assert_eq!(netwait(&mut bridge, &unlocked(), 3), NetWait::Suspended);
    assert_eq!(set_polling_mode(&mut bridge, Some(&mut device), true), None);
    assert!(device.polling);
    assert_eq!(set_polling_mode(&mut bridge, Some(&mut device), false), Some(3));
    assert!(!device.polling);
    assert_eq!(device.mode_changes, 2);
    assert_eq!(bridge.threads_in_polling_mode(), 0);
}

#[test]
fn interrupt_with_work_wakes_the_waiter_once() {
    let mut bridge = NetBridge::new();
    let mut device = TestDevice { polling: false, pending: true, mode_changes: 0 };
    assert_eq!(netwait(&mut bridge, &unlocked(), 1), NetWait::Suspended);
    let outcome = network_irqhandler(&mut bridge, &interrupted(), Some(&mut device));
    assert_eq!(outcome.woken, Some(1));
    assert!(outcome.reschedule);
    let outcome = network_irqhandler(&mut bridge, &interrupted(), Some(&mut device));
    assert_eq!(outcome.woken, None);
    assert_eq!(bridge.pending_wakeups(), 1);
    assert_eq!(netwakeup(&mut bridge), None);
    assert_eq!(netwait(&mut bridge, &unlocked(), 1), NetWait::Ready { coalesced: 1 });
    assert_eq!(bridge.pending_wakeups(), 0);
}

#[test]
fn only_the_first_and_the_last_poller_tell_the_driver() {
    let mut bridge = NetBridge::new();
    let mut device = TestDevice { polling: false, pending: false, mode_changes: 0 };
    assert_eq!(set_polling_mode(&mut bridge, Some(&mut device), true), None);
    assert_eq!(set_polling_mode(&mut bridge, Some(&mut device), true), None);
    assert_eq!(device.mode_changes, 1);
    assert_eq!(bridge.threads_in_polling_mode(), 2);
    assert_eq!(set_polling_mode(&mut bridge, Some(&mut device), false), None);
    assert_eq!(device.mode_changes, 1);
    assert!(device.polling);
    assert_eq!(bridge.pending_wakeups(), 0);
    assert_eq!(set_polling_mode(&mut bridge, Some(&mut device), false), None);
    assert_eq!(device.mode_changes, 2);
    assert!(!device.polling);
    // Nobody waited: the catch-up wakeup stays pending.
    assert_eq!(bridge.pending_wakeups(), 1);
    assert_eq!(netwait(&mut bridge, &unlocked(), 9), NetWait::Ready { coalesced: 0 });
}

#[test]
fn polling_without_a_driver_still_counts_and_wakes() {
    let mut bridge = NetBridge::new();
    assert_eq!(bridge.polling_transition(true), (Some(true), None));
    assert_eq!(bridge.polling_transition(true), (None, None));
    assert_eq!(bridge.polling_transition(false), (None, None));
    assert_eq!(netwait(&mut bridge, &unlocked(), 5), NetWait::Suspended);
    assert_eq!(bridge.polling_transition(false), (Some(false), Some(5)));
    assert_eq!(set_polling_mode::<TestDevice>(&mut bridge, None, true), None);
    assert_eq!(bridge.threads_in_polling_mode(), 1);
}

#[test]
fn interrupts_while_polling_wake_nobody() {
    let mut bridge = NetBridge::new();
    let mut device = TestDevice { polling: false, pending: true, mode_changes: 0 };
    assert_eq!(netwait(&mut bridge, &unlocked(), 2), NetWait::Suspended);
    set_polling_mode(&mut bridge, Some(&mut device), true);
    let outcome = network_irqhandler(&mut bridge, &interrupted(), Some(&mut device));
    assert_eq!(outcome.woken, None);
    assert!(outcome.reschedule);
    assert_eq!(bridge.pending_wakeups(), 0);
    assert!(bridge.semaphore().is_waiting(2));
}

#[test]
fn interrupt_without_work_or_driver_does_nothing() {
    let mut bridge = NetBridge::new();
    let mut device = TestDevice { polling: false, pending: false, mode_changes: 0 };
    assert_eq!(netwait(&mut bridge, &unlocked(), 2), NetWait::Suspended);
    let outcome = network_irqhandler(&mut bridge, &interrupted(), Some(&mut device));
    assert_eq!(outcome, InterruptOutcome { woken: None, reschedule: false });
    let outcome = network_irqhandler::<TestDevice>(&mut bridge, &interrupted(), None);
    assert_eq!(outcome, InterruptOutcome { woken: None, reschedule: false });
    assert_eq!(
        bridge.complete_interrupt(true),
        InterruptOutcome { woken: Some(2), reschedule: true }
    );
}

#[test]
fn waking_up_drains_the_backlog() {
    let mut bridge = NetBridge::new();
    for _ in 0..5 {
        assert_eq!(netwakeup(&mut bridge), None);
    }
    assert_eq!(bridge.pending_wakeups(), 5);
    assert_eq!(netwait(&mut bridge, &unlocked(), 1), NetWait::Ready { coalesced: 4 });
    assert_eq!(bridge.pending_wakeups(), 0);
    assert_eq!(netwait(&mut bridge, &unlocked(), 1), NetWait::Suspended);
    assert_eq!(netwakeup(&mut bridge), Some(1));
    assert_eq!(netwakeup(&mut bridge), None);
    assert_eq!(netwakeup(&mut bridge), None);
    assert_eq!(bridge.drain_wakeups(), 2);
    assert_eq!(bridge.drain_wakeups(), 0);
}
