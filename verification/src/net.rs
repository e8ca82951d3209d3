//! The path from a device interrupt to the task that waits for the device.
//!
//! A consumer waits on the bridge's semaphore. The interrupt handler lets
//! the driver service the device and releases the semaphore once if that
//! made work available, unless a consumer is polling the device itself.

use vstd::prelude::*;
use crate::semaphore::{AcquireStep, Semaphore, SemaphoreView, TaskId};
use crate::context::CoreContext;

verus! {

/// What a network device must offer.
pub trait NetworkInterface {
    /// Returns the MAC address of the device.
    fn get_mac_address(&self) -> [u8; 6];

    /// Returns the current MTU of the device.
    fn get_mtu(&self) -> u16;

    /// Hands out a buffer of `len` bytes for a packet to send: its address
    /// and the token by which it is sent or freed.
    fn get_tx_buffer(&mut self, len: usize) -> Result<(usize, usize), ()>;

    /// Gives a buffer back unsent.
    fn free_tx_buffer(&self, token: usize);

    /// Sends the first `len` bytes of a buffer.
    fn send_tx_buffer(&mut self, tkn_handle: usize, len: usize) -> Result<(), ()>;

    /// Checks whether a packet has arrived.
    fn has_packet(&self) -> bool;

    /// Hands out a received packet and the handle by which it is given back.
    fn receive_rx_buffer(&mut self) -> Result<(Vec<u8>, usize), ()>;

    /// Tells the driver that a received packet has been consumed.
    fn rx_buffer_consumed(&mut self, trf_handle: usize);

    /// Switches the polling mode of the device on or off. In polling mode
    /// the device delivers no interrupts.
    fn set_polling_mode(&mut self, value: bool);

    /// Services an interrupt of the device and reports whether a packet is available.
    fn handle_interrupt(&mut self) -> bool;
}

/// The mathematical state of a bridge.
pub struct NetBridgeView {
    /// The semaphore on which consumers wait.
    pub sem: SemaphoreView,
    /// How many consumers have asked for polling mode.
    pub polling: nat,
}

impl NetBridgeView {
    /// The semaphore of the bridge is well formed.
    pub open spec fn wf(self) -> bool {
        self.sem.wf()
    }

    /// The bridge after a consumer has switched polling on or off: the
    /// count moves by one, and the last consumer to leave polling mode
    /// releases the semaphore once.
    pub open spec fn set_polling(self, value: bool) -> NetBridgeView {
        if value {
            NetBridgeView { sem: self.sem, polling: self.polling + 1 }
        } else if self.polling == 1 {
            NetBridgeView { sem: self.sem.release(), polling: 0 }
        } else {
            NetBridgeView { sem: self.sem, polling: (self.polling - 1) as nat }
        }
    }

    /// The mode that the driver is told to take when a consumer switches
    /// polling on or off, if it is told anything.
    pub open spec fn driver_mode(self, value: bool) -> Option<bool> {
        if value && self.polling == 0 {
            Some(true)
        } else if !value && self.polling == 1 {
            Some(false)
        } else {
            None
        }
    }

    /// The task that is woken when a consumer switches polling on or off.
    pub open spec fn polling_wakeup(self, value: bool) -> Option<TaskId> {
        if !value && self.polling == 1 {
            self.sem.next_woken()
        } else {
            None
        }
    }

    /// Whether an interrupt releases the semaphore.
    pub open spec fn interrupt_releases(self, work_available: bool) -> bool {
        work_available && self.polling == 0
    }

    /// The bridge after an interrupt has been serviced.
    pub open spec fn interrupt(self, work_available: bool) -> NetBridgeView {
        if self.interrupt_releases(work_available) {
            NetBridgeView { sem: self.sem.release(), polling: self.polling }
        } else {
            self
        }
    }
}

/// What the handler of a device interrupt has decided.
#[derive(Clone, Copy, Debug, PartialEq, Eq, Structural)]
pub struct InterruptOutcome {
    /// The task to wake, if the release went to a waiter.
    pub woken: Option<TaskId>,
    /// Whether the scheduler of this core must look at its queues again.
    pub reschedule: bool,
}

/// What `netwait` decided for the calling task.
#[derive(Clone, Copy, Debug, PartialEq, Eq, Structural)]
pub enum NetWait {
    /// A wakeup was pending: the call is over. `coalesced` further wakeups
    /// were pending with it and have been taken as well.
    Ready { coalesced: usize },
    /// Nothing was pending: the task is queued and must be suspended. Once
    /// it is woken it calls `drain_wakeups`.
    Suspended,
}

/// The semaphore and the polling count of one device.
pub struct NetBridge {
    sem: Semaphore,
    threads_in_polling_mode: usize,
}

impl View for NetBridge {
    type V = NetBridgeView;

    closed spec fn view(&self) -> NetBridgeView {
        NetBridgeView { sem: self.sem@, polling: self.threads_in_polling_mode as nat }
    }
}

impl NetBridge {
    /// Holds of every bridge that this module hands out.
    pub open spec fn wf(&self) -> bool {
        &&& self@.wf()
        &&& self@.sem.count <= isize::MAX
        &&& self@.polling <= usize::MAX
    }

    /// A bridge with nothing pending, nobody waiting and nobody polling.
    pub fn new() -> (bridge: NetBridge)
        ensures
            bridge.wf(),
            bridge@.polling == 0,
            bridge@.sem.count == 0,
            bridge@.sem.queue == Seq::<TaskId>::empty(),
    {
        NetBridge { sem: Semaphore::new(0), threads_in_polling_mode: 0 }
    }

    /// How many consumers have asked for polling mode.
    pub fn threads_in_polling_mode(&self) -> (n: usize)
        ensures
            n == self@.polling,
    {
        self.threads_in_polling_mode
    }

    /// The number of wakeups that nobody has taken yet.
    pub fn pending_wakeups(&self) -> (n: isize)
        ensures
            n == self@.sem.count,
    {
        self.sem.count()
    }

    /// The semaphore on which consumers wait.
    pub fn semaphore(&self) -> (sem: &Semaphore)
        ensures
            sem@ == self@.sem,
    {
        &self.sem
    }
}

impl NetBridge {
    /// Counts a consumer into or out of polling mode and returns the mode
    /// that the driver must be told to take, if any, and the task to wake,
    /// if any. The first consumer to poll switches the device's interrupts
    /// off; the last one to stop switches them on again and releases the
    /// semaphore once, for what may have arrived in between.
    pub fn polling_transition(&mut self, value: bool) -> (action: (Option<bool>, Option<TaskId>))
        requires
            old(self).wf(),
            value ==> old(self)@.polling < usize::MAX,
            !value ==> old(self)@.polling > 0,
            !value && old(self)@.polling == 1 && old(self)@.sem.queue.len() == 0 ==> old(
                self,
            )@.sem.count < isize::MAX,
        ensures
            final(self).wf(),
            final(self)@ == old(self)@.set_polling(value),
            action.0 == old(self)@.driver_mode(value),
            action.1 == old(self)@.polling_wakeup(value),
    {
        if value {
            self.threads_in_polling_mode += 1;
            if self.threads_in_polling_mode == 1 {
                (Some(true), None)
            } else {
                (None, None)
            }
        } else {
            self.threads_in_polling_mode -= 1;
            if self.threads_in_polling_mode == 0 {
                let woken = self.sem.release();
                (Some(false), woken)
            } else {
                (None, None)
            }
        }
    }

    /// Takes every wakeup that is pending and returns how many there were.
    /// Never queues the caller.
    pub fn drain_wakeups(&mut self) -> (coalesced: usize)
        requires
            old(self).wf(),
        ensures
            final(self).wf(),
            coalesced == old(self)@.sem.count,
            final(self)@ == (NetBridgeView {
                sem: SemaphoreView { count: 0, queue: old(self)@.sem.queue },
                polling: old(self)@.polling,
            }),
    {
        let mut coalesced: usize = 0;
        while self.sem.try_acquire()
            invariant
                self.wf(),
                self@.polling == old(self)@.polling,
                self@.sem.queue == old(self)@.sem.queue,
                coalesced + self@.sem.count == old(self)@.sem.count,
                old(self)@.sem.count <= isize::MAX,
            decreases self@.sem.count,
        {
            coalesced += 1;
        }
        coalesced
    }

    /// The second half of an interrupt: after the driver's service step has
    /// reported whether work became available, releases the semaphore once
    /// if it did and nobody is polling, and asks for the scheduler if it did.
    pub fn complete_interrupt(&mut self, work_available: bool) -> (outcome: InterruptOutcome)
        requires
            old(self).wf(),
            old(self)@.interrupt_releases(work_available) && old(self)@.sem.queue.len() == 0
                ==> old(self)@.sem.count < isize::MAX,
        ensures
            final(self).wf(),
            final(self)@ == old(self)@.interrupt(work_available),
            outcome.reschedule == work_available,
            outcome.woken == if old(self)@.interrupt_releases(work_available) {
                old(self)@.sem.next_woken()
            } else {
                None
            },
    {
        let woken = if work_available && self.threads_in_polling_mode == 0 {
            self.sem.release()
        } else {
            None
        };
        InterruptOutcome { woken, reschedule: work_available }
    }
}

/// Counts a consumer into or out of polling mode, in which consumers are
/// not blocked, and hands the driver, if there is one, the mode that
/// `polling_transition` asks for. Returns the task to wake, if any.
pub fn set_polling_mode<D: NetworkInterface>(
    bridge: &mut NetBridge,
    driver: Option<&mut D>,
    value: bool,
) -> (woken: Option<TaskId>)
    requires
        old(bridge).wf(),
        value ==> old(bridge)@.polling < usize::MAX,
        !value ==> old(bridge)@.polling > 0,
        !value && old(bridge)@.polling == 1 && old(bridge)@.sem.queue.len() == 0 ==> old(
            bridge,
        )@.sem.count < isize::MAX,
    ensures
        final(bridge).wf(),
        final(bridge)@ == old(bridge)@.set_polling(value),
        woken == old(bridge)@.polling_wakeup(value),
        driver matches Some(d) ==> (old(bridge)@.driver_mode(value).is_none() ==> *final(d) == *d),
{
    let (mode, woken) = bridge.polling_transition(value);
    match driver {
        Some(d) => {
            match mode {
                Some(mode) => {
                    d.set_polling_mode(mode);
                },
                None => {},
            }
        },
        None => {},
    }
    woken
}

/// Waits for the device: takes a pending wakeup and all that are pending
/// with it, or queues `task` if there is none. As the task may be
/// suspended, its core must be outside critical sections and handlers.
pub fn netwait(bridge: &mut NetBridge, ctx: &CoreContext, task: TaskId) -> (wait: NetWait)
    requires
        old(bridge).wf(),
        ctx@.may_suspend(),
        !old(bridge)@.sem.is_waiting(task),
    ensures
        final(bridge).wf(),
        final(bridge)@.polling == old(bridge)@.polling,
        old(bridge)@.sem.count > 0 ==> wait == (NetWait::Ready {
            coalesced: (old(bridge)@.sem.count - 1) as usize,
        }) && final(bridge)@.sem == (SemaphoreView { count: 0, queue: old(bridge)@.sem.queue }),
        old(bridge)@.sem.count == 0 ==> wait == NetWait::Suspended && final(bridge)@.sem == old(
            bridge,
        )@.sem.acquire(task),
{
    match bridge.sem.acquire(ctx, task, None) {
        AcquireStep::Acquired => {
            let coalesced = bridge.drain_wakeups();
            NetWait::Ready { coalesced }
        },
        AcquireStep::Suspended { .. } => NetWait::Suspended,
    }
}

/// Signals that the device has work: wakes the earliest waiter, who is
/// returned, or leaves a wakeup pending.
pub fn netwakeup(bridge: &mut NetBridge) -> (woken: Option<TaskId>)
    requires
        old(bridge).wf(),
        old(bridge)@.sem.queue.len() == 0 ==> old(bridge)@.sem.count < isize::MAX,
    ensures
        final(bridge).wf(),
        woken == old(bridge)@.sem.next_woken(),
        final(bridge)@ == (NetBridgeView {
            sem: old(bridge)@.sem.release(),
            polling: old(bridge)@.polling,
        }),
{
    bridge.sem.release()
}

/// Handles an interrupt of the device, after the caller has acknowledged
/// it at the interrupt controller: lets the driver service the device and
/// completes the interrupt with what the driver reports. Without a driver
/// no work is ever available. The handler runs in the context of an
/// interrupt, in which nothing may wait: it only ever releases.
pub fn network_irqhandler<D: NetworkInterface>(
    bridge: &mut NetBridge,
    ctx: &CoreContext,
    driver: Option<&mut D>,
) -> (outcome: InterruptOutcome)
    requires
        old(bridge).wf(),
        ctx@.in_interrupt,
        old(bridge)@.polling == 0 && old(bridge)@.sem.queue.len() == 0 ==> old(bridge)@.sem.count
            < isize::MAX,
    ensures
        final(bridge).wf(),
        final(bridge)@ == old(bridge)@.interrupt(outcome.reschedule),
        outcome.woken == if old(bridge)@.interrupt_releases(outcome.reschedule) {
            old(bridge)@.sem.next_woken()
        } else {
            None
        },
        driver.is_none() ==> !outcome.reschedule,
{
    let work_available = match driver {
        Some(d) => d.handle_interrupt(),
        None => false,
    };
    bridge.complete_interrupt(work_available)
}

/// A consumer that starts to poll and stops again, with no interrupt in
/// between, leaves one wakeup behind: the earliest waiter is woken, or, if
/// nobody waits, the next `netwait` returns at once. The device delivers
/// interrupts again.
pub proof fn lemma_catch_up_wake(bridge: NetBridgeView)
    requires
        bridge.wf(),
        bridge.polling == 0,
    ensures
        bridge.driver_mode(true) == Some(true),
        bridge.set_polling(true).driver_mode(false) == Some(false),
        bridge.set_polling(true).set_polling(false).polling == 0,
        bridge.set_polling(true).set_polling(false).sem == bridge.sem.release(),
        bridge.set_polling(true).polling_wakeup(false) == bridge.sem.next_woken(),
        bridge.sem.queue.len() > 0 ==> bridge.set_polling(true).polling_wakeup(false) == Some(
            bridge.sem.queue[0],
        ),
        bridge.sem.queue.len() == 0 ==> bridge.set_polling(true).set_polling(false).sem.count
            == bridge.sem.count + 1,
{
}

} // verus!
