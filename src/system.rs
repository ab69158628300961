//! The whole system as one context: the shared counter, the global interrupt
//! enable, the timer source and the foreground loop's progress through its
//! iteration. Each transition is one step that the hardware may interleave
//! with the others.
//!
//! The handler relies on running with its own source masked and does not open
//! a critical section of its own: one masking discipline, the foreground's.
use vstd::prelude::*;
use crate::counter::{SharedCounter, wrapping_succ, succ_n, counter_modulus, lemma_increments_wrap};
use crate::critical::{InterruptMask, entered, exited};
use crate::controller::{
    TimerInterrupt, TriggerType, SourceState, dispatches, fire_spec, acknowledge_spec,
};
use crate::text::{decimal, format_counter};

verus! {

/// Column of the text's anchor on the display.
pub const TEXT_X: i32 = 40;

/// Row of the text's anchor on the display.
pub const TEXT_Y: i32 = 35;

/// Interrupt level given to the timer source.
pub const TIMER_LEVEL: u8 = 0;

/// Priority given to the timer source.
pub const TIMER_PRIORITY: u8 = 0;

/// Where the foreground loop stands within one iteration.
#[derive(Clone, Copy, Debug, PartialEq, Eq, Structural)]
pub enum MainPhase {
    /// About to mask interrupts.
    Enter,
    /// Inside the critical section, about to load the counter.
    Load,
    /// Inside the critical section, about to store the incremented value.
    Store,
    /// About to restore the interrupt enable.
    Exit,
    /// Waiting for an interrupt. The wait instruction is only a hint that
    /// may return at any time, so the next step resumes the loop whether or
    /// not an interrupt came.
    Wait,
}

/// One thing that can happen next.
#[derive(Clone, Copy, Debug, PartialEq, Eq, Structural)]
pub enum Event {
    /// The foreground loop takes one step.
    MainStep,
    /// The timer completes a countdown.
    TimerFires,
    /// The processor checks for a deliverable interrupt.
    Interrupt,
}

/// What one handler invocation asks the display to show.
#[derive(Debug)]
pub struct Render {
    /// The counter value read.
    pub value: u32,
    /// Its decimal text.
    pub text: String,
    pub x: i32,
    pub y: i32,
}

/// The context shared by the foreground loop and the handler.
pub struct System {
    pub counter: SharedCounter,
    pub cpu: InterruptMask,
    pub timer: TimerInterrupt,
    pub phase: MainPhase,
    /// The interrupt enable saved by the foreground's critical section.
    pub saved: bool,
    /// The value the foreground has loaded and not yet stored back.
    pub scratch: u32,
    /// The counter's value at start.
    pub base: Ghost<u32>,
    /// Increments stored since start.
    pub completed: Ghost<nat>,
}

impl System {
    /// The counter equals its start value advanced by the stored increments,
    /// a loaded value is still current when it is stored, and interrupts stay
    /// masked from the load through the store.
    pub open spec fn inv(&self) -> bool {
        &&& self.counter.value == succ_n(self.base@, self.completed@)
        &&& self.phase == MainPhase::Store ==> self.scratch == self.counter.value
        &&& (self.phase == MainPhase::Load || self.phase == MainPhase::Store
            || self.phase == MainPhase::Exit) ==> !self.cpu.enabled
    }

    /// Whether the handler is invoked in this state.
    pub open spec fn handler_runs(&self) -> bool {
        dispatches(self.timer, self.cpu.enabled)
    }
}

/// The state after one foreground step.
pub open spec fn main_step_spec(s: System) -> System {
    match s.phase {
        MainPhase::Enter => System {
            cpu: entered(s.cpu),
            saved: s.cpu.enabled,
            phase: MainPhase::Load,
            ..s
        },
        MainPhase::Load => System { scratch: s.counter.value, phase: MainPhase::Store, ..s },
        MainPhase::Store => System {
            counter: SharedCounter { value: wrapping_succ(s.scratch) },
            completed: Ghost(s.completed@ + 1),
            phase: MainPhase::Exit,
            ..s
        },
        MainPhase::Exit => System { cpu: exited(s.cpu, s.saved), phase: MainPhase::Wait, ..s },
        MainPhase::Wait => System { phase: MainPhase::Enter, ..s },
    }
}

/// The state after the timer completes a countdown.
pub open spec fn timer_event_spec(s: System) -> System {
    System { timer: fire_spec(s.timer), ..s }
}

/// The handler acknowledges the event, and a sleeping foreground wakes.
pub open spec fn interrupt_spec(s: System) -> System {
    if s.handler_runs() {
        System {
            timer: acknowledge_spec(s.timer),
            phase: if s.phase == MainPhase::Wait { MainPhase::Enter } else { s.phase },
            ..s
        }
    } else {
        s
    }
}

/// The state after one event.
pub open spec fn step_spec(s: System, e: Event) -> System {
    match e {
        Event::MainStep => main_step_spec(s),
        Event::TimerFires => timer_event_spec(s),
        Event::Interrupt => interrupt_spec(s),
    }
}

/// The state after the events of `sched`, in order.
pub open spec fn run(s: System, sched: Seq<Event>) -> System
    decreases sched.len(),
{
    if sched.len() == 0 {
        s
    } else {
        step_spec(run(s, sched.drop_last()), sched.last())
    }
}

/// What the handler reads when it runs in state `s`.
pub open spec fn handler_reads(s: System) -> u32 {
    s.counter.value
}

impl System {
    /// A system at reset holding `initial`: interrupts off, source disabled,
    /// foreground at the top of its loop.
    pub fn new(initial: u32) -> (r: System)
        ensures
            r.inv(),
            r.counter.value == initial,
            r.base@ == initial,
            r.completed@ == 0,
            r.phase == MainPhase::Enter,
            !r.cpu.enabled,
            r.timer.state == SourceState::Disabled,
            !r.timer.pending,
            !r.timer.update_flag,
            !r.timer.listening,
    {
        System {
            counter: SharedCounter::new(initial),
            cpu: InterruptMask::new(),
            timer: TimerInterrupt::new(),
            phase: MainPhase::Enter,
            saved: false,
            scratch: 0,
            base: Ghost(initial),
            completed: Ghost(0),
        }
    }

    /// Resets the controller, configures the source for falling edges at
    /// `TIMER_LEVEL` and `TIMER_PRIORITY`, and starts the timer at `hz`.
    pub fn arm(&mut self, hz: u32)
        requires
            hz > 0,
        ensures
            final(self).timer == (TimerInterrupt {
                state: SourceState::Armed,
                trigger: TriggerType::FallingEdge,
                level: TIMER_LEVEL,
                priority: TIMER_PRIORITY,
                pending: false,
                frequency_hz: hz,
                ..old(self).timer
            }),
            final(self).counter == old(self).counter,
            final(self).cpu == old(self).cpu,
            final(self).phase == old(self).phase,
            final(self).saved == old(self).saved,
            final(self).scratch == old(self).scratch,
            final(self).base == old(self).base,
            final(self).completed == old(self).completed,
    {
        self.timer.reset();
        self.timer.setup(TriggerType::FallingEdge, TIMER_LEVEL, TIMER_PRIORITY);
        self.timer.start_timer(hz);
    }

    /// Unmasks the source, lets the timer raise its line, and turns interrupts on.
    pub fn activate(&mut self)
        ensures
            final(self).timer == (TimerInterrupt {
                state: if old(self).timer.state == SourceState::Armed {
                    SourceState::Active
                } else {
                    old(self).timer.state
                },
                listening: true,
                ..old(self).timer
            }),
            final(self).cpu.enabled,
            final(self).counter == old(self).counter,
            final(self).phase == old(self).phase,
            final(self).saved == old(self).saved,
            final(self).scratch == old(self).scratch,
            final(self).base == old(self).base,
            final(self).completed == old(self).completed,
            old(self).inv() && (old(self).phase == MainPhase::Enter || old(self).phase
                == MainPhase::Wait) ==> final(self).inv(),
    {
        self.timer.unmask();
        self.timer.listen();
        self.cpu.enable();
    }

    /// The foreground loop takes one step.
    pub fn main_step(&mut self)
        ensures
            *final(self) == main_step_spec(*old(self)),
            old(self).inv() ==> final(self).inv(),
    {
        proof {
            if old(self).inv() {
                lemma_step_preserves_inv(*old(self), Event::MainStep);
            }
        }
        match self.phase {
            MainPhase::Enter => {
                self.saved = self.cpu.enter();
                self.phase = MainPhase::Load;
            },
            MainPhase::Load => {
                self.scratch = self.counter.read();
                self.phase = MainPhase::Store;
            },
            MainPhase::Store => {
                self.counter.value = self.scratch;
                self.counter.increment();
                self.completed = Ghost(self.completed@ + 1);
                self.phase = MainPhase::Exit;
            },
            MainPhase::Exit => {
                self.cpu.exit(self.saved);
                self.phase = MainPhase::Wait;
            },
            MainPhase::Wait => {
                self.phase = MainPhase::Enter;
            },
        }
    }

    /// The timer completes a countdown.
    pub fn timer_event(&mut self)
        ensures
            *final(self) == timer_event_spec(*old(self)),
            old(self).inv() ==> final(self).inv(),
    {
        self.timer.fire();
    }

    /// Runs the handler if an interrupt is deliverable: it reads the counter,
    /// formats it, and acknowledges the event; the text goes to the display.
    pub fn interrupt(&mut self) -> (r: Option<Render>)
        ensures
            *final(self) == interrupt_spec(*old(self)),
            old(self).inv() ==> final(self).inv(),
            r.is_some() == old(self).handler_runs(),
            r matches Some(rd) ==> rd.value == handler_reads(*old(self))
                && rd.text@ == decimal(rd.value as nat)
                && rd.x == TEXT_X
                && rd.y == TEXT_Y,
    {
        if self.timer.dispatches(self.cpu.enabled) {
            let value = self.counter.read();
            let text = format_counter(value);
            self.timer.acknowledge();
            if self.phase == MainPhase::Wait {
                self.phase = MainPhase::Enter;
            }
            Some(Render { value, text, x: TEXT_X, y: TEXT_Y })
        } else {
            None
        }
    }

    /// Applies one event.
    pub fn step(&mut self, e: Event) -> (r: Option<Render>)
        ensures
            *final(self) == step_spec(*old(self), e),
            old(self).inv() ==> final(self).inv(),
            r.is_some() == (e == Event::Interrupt && old(self).handler_runs()),
            r matches Some(rd) ==> rd.value == handler_reads(*old(self))
                && rd.text@ == decimal(rd.value as nat),
    {
        match e {
            Event::MainStep => {
                self.main_step();
                None
            },
            Event::TimerFires => {
                self.timer_event();
                None
            },
            Event::Interrupt => self.interrupt(),
        }
    }
}

/// Every transition keeps the invariant and never lowers the count of stored
/// increments.
pub proof fn lemma_step_preserves_inv(s: System, e: Event)
    requires
        s.inv(),
    ensures
        step_spec(s, e).inv(),
        step_spec(s, e).completed@ >= s.completed@,
        step_spec(s, e).base == s.base,
{
}

/// Whatever the interleaving of foreground steps, timer events and interrupt
/// deliveries, the handler only reads whole values: each read equals the start
/// value advanced by exactly the increments stored before it, and that count
/// never goes down from one state to a later one.
pub proof fn lemma_no_torn_reads(s: System, sched: Seq<Event>)
    requires
        s.inv(),
    ensures
        forall|i: int| 0 <= i <= sched.len() ==> (#[trigger] run(s, sched.take(i))).inv(),
        forall|i: int| #![trigger run(s, sched.take(i))]
            0 <= i <= sched.len() ==> handler_reads(run(s, sched.take(i)))
                == succ_n(s.base@, run(s, sched.take(i)).completed@),
        forall|i: int, j: int| 0 <= i <= j <= sched.len()
            ==> (#[trigger] run(s, sched.take(i))).completed@
                <= (#[trigger] run(s, sched.take(j))).completed@,
    decreases sched.len(),
{
    if sched.len() > 0 {
        let prefix = sched.drop_last();
        lemma_no_torn_reads(s, prefix);
        assert forall|i: int| 0 <= i <= prefix.len() implies sched.take(i) == prefix.take(i) by {
            assert(sched.take(i) =~= prefix.take(i));
        }
        assert(sched.take(sched.len() as int) =~= sched);
        assert(prefix.take(prefix.len() as int) =~= prefix);
        lemma_step_preserves_inv(run(s, prefix), sched.last());
        assert(run(s, sched) == step_spec(run(s, prefix), sched.last()));
    } else {
        assert(sched.take(0) =~= sched);
    }
}

/// The state after `k` foreground steps with nothing else happening.
pub open spec fn main_steps(s: System, k: nat) -> System
    decreases k,
{
    if k == 0 {
        s
    } else {
        main_step_spec(main_steps(s, (k - 1) as nat))
    }
}

/// Foreground steps compose.
pub proof fn lemma_main_steps_add(s: System, a: nat, b: nat)
    ensures
        main_steps(s, a + b) == main_steps(main_steps(s, a), b),
    decreases b,
{
    if b > 0 {
        lemma_main_steps_add(s, a, (b - 1) as nat);
        assert((a + b - 1) as nat == a + (b - 1) as nat);
    }
}

/// One full iteration, from the top of the loop back to it, stores one
/// increment and leaves the interrupt enable and the timer as they were.
pub proof fn lemma_one_iteration(s: System)
    requires
        s.phase == MainPhase::Enter,
    ensures
        main_steps(s, 5).counter.value == wrapping_succ(s.counter.value),
        main_steps(s, 5).completed@ == s.completed@ + 1,
        main_steps(s, 5).phase == MainPhase::Enter,
        main_steps(s, 5).cpu == s.cpu,
        main_steps(s, 5).timer == s.timer,
        main_steps(s, 5).base == s.base,
{
    reveal_with_fuel(main_steps, 6);
}

/// `n` iterations of the foreground loop with no interrupt leave the counter
/// at its start value plus `n`, modulo its range, and the loop back at its top.
pub proof fn lemma_iterations_count(s: System, n: nat)
    requires
        s.phase == MainPhase::Enter,
    ensures
        main_steps(s, 5 * n).counter.value == succ_n(s.counter.value, n),
        main_steps(s, 5 * n).counter.value as int == (s.counter.value as int + n) % counter_modulus(),
        main_steps(s, 5 * n).completed@ == s.completed@ + n,
        main_steps(s, 5 * n).phase == MainPhase::Enter,
        main_steps(s, 5 * n).cpu == s.cpu,
        main_steps(s, 5 * n).timer == s.timer,
        main_steps(s, 5 * n).base == s.base,
    decreases n,
{
    lemma_increments_wrap(s.counter.value, n);
    if n > 0 {
        let m = (n - 1) as nat;
        lemma_iterations_count(s, m);
        assert(5 * n == 5 * m + 5) by (nonlinear_arith)
            requires n == m + 1;
        lemma_main_steps_add(s, 5 * m, 5);
        lemma_one_iteration(main_steps(s, 5 * m));
    } else {
        assert(5 * n == 0);
    }
}

impl System {
    /// Runs `n` full iterations of the foreground loop with no interrupt
    /// delivered: each masks interrupts, increments, restores and waits.
    pub fn run_main_iterations(&mut self, n: u64)
        requires
            old(self).phase == MainPhase::Enter,
        ensures
            *final(self) == main_steps(*old(self), 5 * n as nat),
            final(self).counter.value == succ_n(old(self).counter.value, n as nat),
            final(self).counter.value as int == (old(self).counter.value as int + n) % counter_modulus(),
            final(self).phase == MainPhase::Enter,
            final(self).cpu == old(self).cpu,
            final(self).timer == old(self).timer,
            old(self).inv() ==> final(self).inv(),
    {
        let ghost start = *self;
        let mut i: u64 = 0;
        while i < n
            invariant
                i <= n,
                start.phase == MainPhase::Enter,
                *self == main_steps(start, 5 * i as nat),
            decreases n - i,
        {
            proof {
                lemma_iterations_count(start, i as nat);
                lemma_main_steps_add(start, 5 * i as nat, 5);
                reveal_with_fuel(main_steps, 6);
                assert(5 * (i + 1) as nat == 5 * i as nat + 5);
            }
            let ghost before = *self;
            self.main_step();
            self.main_step();
            self.main_step();
            self.main_step();
            self.main_step();
            proof {
                assert(main_steps(before, 5) == *self);
            }
            i = i + 1;
        }
        proof {
            lemma_iterations_count(start, n as nat);
            if start.inv() {
                lemma_steps_keep_inv(start, 5 * n as nat);
            }
        }
    }
}

/// Foreground steps alone keep the invariant.
pub proof fn lemma_steps_keep_inv(s: System, k: nat)
    requires
        s.inv(),
    ensures
        main_steps(s, k).inv(),
    decreases k,
{
    if k > 0 {
        lemma_steps_keep_inv(s, (k - 1) as nat);
        lemma_step_preserves_inv(main_steps(s, (k - 1) as nat), Event::MainStep);
    }
}

/// Boots a system holding `initial` with the timer at `hz` and runs it for
/// `seconds`: in each timer period the foreground completes one iteration and
/// goes to sleep, the timer fires, and the handler runs. Returns the value
/// each handler invocation read, in order.
pub fn simulate(initial: u32, hz: u32, seconds: u32) -> (r: Vec<u32>)
    requires
        hz > 0,
    ensures
        r@.len() == hz as int * seconds as int,
        forall|i: int| 0 <= i < r@.len() ==> #[trigger] r@[i] == succ_n(initial, (i + 1) as nat),
        initial as int + hz as int * seconds as int <= u32::MAX as int ==>
            forall|i: int, j: int| 0 <= i < j < r@.len() ==> r@[i] < r@[j],
{
    let mut sys = System::new(initial);
    sys.arm(hz);
    sys.activate();
    proof {
        vstd::arithmetic::mul::lemma_mul_upper_bound(hz as int, u32::MAX as int, seconds as int, u32::MAX as int);
    }
    let total: u64 = hz as u64 * seconds as u64;
    let mut seen: Vec<u32> = Vec::new();
    let mut i: u64 = 0;
    while i < total
        invariant
            i <= total,
            total == hz as int * seconds as int,
            sys.phase == MainPhase::Enter,
            sys.cpu.enabled,
            sys.timer.state == SourceState::Active,
            sys.timer.listening,
            !sys.timer.pending,
            sys.counter.value == succ_n(initial, i as nat),
            seen@.len() == i,
            forall|k: int| 0 <= k < i ==> #[trigger] seen@[k] == succ_n(initial, (k + 1) as nat),
        decreases total - i,
    {
        sys.main_step();
        sys.main_step();
        sys.main_step();
        sys.main_step();
        sys.timer_event();
        let delivered = sys.interrupt();
        proof {
            assert(succ_n(initial, (i + 1) as nat) == wrapping_succ(succ_n(initial, i as nat)));
        }
        match delivered {
            Some(rd) => {
                seen.push(rd.value);
            },
            None => {},
        }
        i = i + 1;
    }
    proof {
        if initial as int + hz as int * seconds as int <= u32::MAX as int {
            assert forall|a: int, b: int| 0 <= a < b < seen@.len() implies seen@[a] < seen@[b] by {
                lemma_no_wrap(initial, (a + 1) as nat);
                lemma_no_wrap(initial, (b + 1) as nat);
            }
        }
    }
    seen
}

/// Below the top of the range, increments add without wrapping.
pub proof fn lemma_no_wrap(v: u32, n: nat)
    requires
        v as int + n <= u32::MAX as int,
    ensures
        succ_n(v, n) as int == v as int + n,
{
    lemma_increments_wrap(v, n);
    vstd::arithmetic::div_mod::lemma_small_mod((v as int + n) as nat, counter_modulus() as nat);
}

} // verus!
