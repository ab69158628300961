//! The timer interrupt source: the timer peripheral's update flag and the
//! interrupt controller's configuration, mask and pending latch for it.
use vstd::prelude::*;

verus! {

/// The signal condition that counts as an event for a source.
#[derive(Clone, Copy, Debug, PartialEq, Eq, Structural)]
pub enum TriggerType {
    Level,
    RisingEdge,
    FallingEdge,
}

/// Where a source stands: not configured, configured but masked, or unmasked.
#[derive(Clone, Copy, Debug, PartialEq, Eq, Structural)]
pub enum SourceState {
    Disabled,
    Armed,
    Active,
}

/// The timer interrupt source as the foreground and the handler see it.
#[derive(Clone, Copy, Debug, PartialEq, Eq, Structural)]
pub struct TimerInterrupt {
    pub state: SourceState,
    pub trigger: TriggerType,
    pub level: u8,
    pub priority: u8,
    /// The controller's latch: an event not yet serviced.
    pub pending: bool,
    /// The peripheral's flag: a countdown has completed.
    pub update_flag: bool,
    /// Whether the peripheral raises its interrupt line on update.
    pub listening: bool,
    /// Countdown completions per second; zero while unconfigured.
    pub frequency_hz: u32,
}

/// The source after a controller reset.
pub open spec fn reset_spec(t: TimerInterrupt) -> TimerInterrupt {
    TimerInterrupt { state: SourceState::Disabled, pending: false, ..t }
}

/// The source after its trigger, level and priority are assigned.
pub open spec fn setup_spec(t: TimerInterrupt, trigger: TriggerType, level: u8, priority: u8) -> TimerInterrupt {
    TimerInterrupt {
        state: if t.state == SourceState::Active { SourceState::Active } else { SourceState::Armed },
        trigger,
        level,
        priority,
        ..t
    }
}

/// The source after it is unmasked.
pub open spec fn unmask_spec(t: TimerInterrupt) -> TimerInterrupt {
    if t.state == SourceState::Armed {
        TimerInterrupt { state: SourceState::Active, ..t }
    } else {
        t
    }
}

/// The source after one countdown completion.
pub open spec fn fire_spec(t: TimerInterrupt) -> TimerInterrupt {
    TimerInterrupt { update_flag: true, pending: t.pending || t.listening, ..t }
}

/// The source after `n` countdown completions.
pub open spec fn fire_n(t: TimerInterrupt, n: nat) -> TimerInterrupt
    decreases n,
{
    if n == 0 { t } else { fire_spec(fire_n(t, (n - 1) as nat)) }
}

/// The source after its update flag is cleared.
pub open spec fn clear_update_spec(t: TimerInterrupt) -> TimerInterrupt {
    TimerInterrupt { update_flag: false, ..t }
}

/// The source after its pending latch is cleared.
pub open spec fn unpend_spec(t: TimerInterrupt) -> TimerInterrupt {
    TimerInterrupt { pending: false, ..t }
}

/// What the handler does on its way out: the peripheral flag first, then the
/// controller's latch.
pub open spec fn acknowledge_spec(t: TimerInterrupt) -> TimerInterrupt {
    unpend_spec(clear_update_spec(t))
}

/// Whether the handler is invoked now, given the global interrupt enable.
pub open spec fn dispatches(t: TimerInterrupt, cpu_enabled: bool) -> bool {
    cpu_enabled && t.state == SourceState::Active && t.pending
}

impl TimerInterrupt {
    /// A source at reset: disabled, nothing latched, timer not running.
    pub fn new() -> (r: TimerInterrupt)
        ensures
            r.state == SourceState::Disabled,
            !r.pending,
            !r.update_flag,
            !r.listening,
            r.frequency_hz == 0,
    {
        TimerInterrupt {
            state: SourceState::Disabled,
            trigger: TriggerType::Level,
            level: 0,
            priority: 0,
            pending: false,
            update_flag: false,
            listening: false,
            frequency_hz: 0,
        }
    }

    /// Controller reset: the source is disabled and its latch cleared.
    pub fn reset(&mut self)
        ensures
            *final(self) == reset_spec(*old(self)),
    {
        self.state = SourceState::Disabled;
        self.pending = false;
    }

    /// Assigns trigger type, level and priority; a disabled source becomes armed.
    pub fn setup(&mut self, trigger: TriggerType, level: u8, priority: u8)
        ensures
            *final(self) == setup_spec(*old(self), trigger, level, priority),
    {
        if self.state != SourceState::Active {
            self.state = SourceState::Armed;
        }
        self.trigger = trigger;
        self.level = level;
        self.priority = priority;
    }

    /// Starts the peripheral counting down `hz` times per second.
    pub fn start_timer(&mut self, hz: u32)
        requires
            hz > 0,
        ensures
            *final(self) == (TimerInterrupt { frequency_hz: hz, ..*old(self) }),
    {
        self.frequency_hz = hz;
    }

    /// Lets the peripheral raise its line on each update.
    pub fn listen(&mut self)
        ensures
            *final(self) == (TimerInterrupt { listening: true, ..*old(self) }),
    {
        self.listening = true;
    }

    /// Unmasks the source: an armed source becomes active; otherwise nothing changes.
    pub fn unmask(&mut self)
        ensures
            *final(self) == unmask_spec(*old(self)),
    {
        if self.state == SourceState::Armed {
            self.state = SourceState::Active;
        }
    }

    /// A countdown completes: the update flag is set and, if the peripheral
    /// listens, the controller latches the event, whatever the mask.
    pub fn fire(&mut self)
        ensures
            *final(self) == fire_spec(*old(self)),
    {
        self.update_flag = true;
        if self.listening {
            self.pending = true;
        }
    }

    /// Clears the peripheral's update flag.
    pub fn clear_update_flag(&mut self)
        ensures
            *final(self) == clear_update_spec(*old(self)),
    {
        self.update_flag = false;
    }

    /// Clears the controller's pending latch.
    pub fn unpend(&mut self)
        ensures
            *final(self) == unpend_spec(*old(self)),
    {
        self.pending = false;
    }

    /// Clears the update flag, then the pending latch.
    pub fn acknowledge(&mut self)
        ensures
            *final(self) == acknowledge_spec(*old(self)),
    {
        self.clear_update_flag();
        self.unpend();
    }

    /// Whether the handler runs now, given the global interrupt enable.
    pub fn dispatches(&self, cpu_enabled: bool) -> (r: bool)
        ensures
            r == dispatches(*self, cpu_enabled),
    {
        cpu_enabled && self.state == SourceState::Active && self.pending
    }
}

/// Clearing a flag that is already clear changes nothing, and a source whose
/// latch has been cleared does not dispatch until it fires again.
pub proof fn lemma_clear_is_idempotent(t: TimerInterrupt, cpu_enabled: bool)
    ensures
        clear_update_spec(clear_update_spec(t)) == clear_update_spec(t),
        unpend_spec(unpend_spec(t)) == unpend_spec(t),
        !t.update_flag ==> clear_update_spec(t) == t,
        !t.pending ==> unpend_spec(t) == t,
        acknowledge_spec(acknowledge_spec(t)) == acknowledge_spec(t),
        !dispatches(unpend_spec(t), cpu_enabled),
        !dispatches(unpend_spec(unpend_spec(t)), cpu_enabled),
        !dispatches(acknowledge_spec(t), cpu_enabled),
{
}

/// Events that arrive while the source is armed but masked are latched and
/// never dispatched; once unmasked, the handler runs for them once, and after
/// it acknowledges, not again until the next event.
pub proof fn lemma_masked_events_coalesce(t: TimerInterrupt, n: nat, cpu_enabled: bool)
    requires
        t.state == SourceState::Armed,
        t.listening,
        n >= 1,
    ensures
        fire_n(t, n).state == SourceState::Armed,
        fire_n(t, n).update_flag,
        fire_n(t, n).pending,
        !dispatches(fire_n(t, n), cpu_enabled),
        dispatches(unmask_spec(fire_n(t, n)), true),
        !dispatches(acknowledge_spec(unmask_spec(fire_n(t, n))), cpu_enabled),
    decreases n,
{
    if n > 1 {
        lemma_masked_events_coalesce(t, (n - 1) as nat, cpu_enabled);
    } else {
        assert(fire_n(t, 0) == t);
    }
}

} // verus!
