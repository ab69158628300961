use counter_display::controller::{SourceState, TimerInterrupt, TriggerType};
use counter_display::counter::SharedCounter;
use counter_display::critical::InterruptMask;
use counter_display::system::{simulate, Event, MainPhase, System, TEXT_X, TEXT_Y};
use counter_display::text::format_counter;

fn booted(initial: u32, hz: u32) -> System {
    let mut sys = System::new(initial);
    sys.arm(hz);
    sys.activate();
    sys
}

#[test]
fn counter_increments_by_one() {
    let mut c = SharedCounter::new(7);
    c.increment();
    assert_eq!(c.read(), 8);
}

#[test]
fn counter_wraps_at_max() {
    let mut c = SharedCounter::new(u32::MAX);
    c.increment();
    assert_eq!(c.read(), 0);
}

#[test]
fn format_max_fits_buffer() {
    let t = format_counter(u32::MAX);
    assert_eq!(t, "4294967295");
    assert!(t.len() <= 10);
}

#[test]
fn format_digits() {
    assert_eq!(format_counter(0), "0");
    assert_eq!(format_counter(7), "7");
    assert_eq!(format_counter(10), "10");
    assert_eq!(format_counter(1234), "1234");
}

#[test]
fn nested_sections_restore_enable() {
    let mut m = InterruptMask::new();
    m.enable();
    let outer = m.enter();
    let inner = m.enter();
    assert!(!m.enabled);
    m.exit(inner);
    assert!(!m.enabled);
    m.exit(outer);
    assert!(m.enabled);
}

#[test]
fn section_from_masked_stays_masked() {
    let mut m = InterruptMask::new();
    let prior = m.enter();
    m.exit(prior);
    assert!(!m.enabled);
}

#[test]
fn iterations_without_interrupt_add_n() {
    let mut sys = System::new(5);
    sys.run_main_iterations(1000);
    assert_eq!(sys.counter.read(), 1005);
    assert_eq!(sys.phase, MainPhase::Enter);
}

#[test]
fn iterations_wrap_past_max() {
    let mut sys = System::new(u32::MAX - 1);
    sys.run_main_iterations(3);
    assert_eq!(sys.counter.read(), 1);
}

#[test]
fn render_zero_at_fixed_position() {
    let mut sys = booted(0, 2);
    sys.timer_event();
    let r = sys.interrupt().expect("handler runs");
    assert_eq!(r.value, 0);
    assert_eq!(r.text, "0");
    assert_eq!((r.x, r.y), (40, 35));
    assert_eq!((TEXT_X, TEXT_Y), (40, 35));
}

#[test]
fn increment_then_render_43() {
    let mut sys = booted(42, 2);
    for _ in 0..4 {
        sys.main_step();
    }
    assert_eq!(sys.phase, MainPhase::Wait);
    assert_eq!(sys.counter.read(), 43);
    sys.timer_event();
    let r = sys.interrupt().expect("handler runs");
    assert_eq!(r.text, "43");
    assert_eq!(sys.phase, MainPhase::Enter);
}

#[test]
fn two_hz_for_five_seconds() {
    let seen = simulate(0, 2, 5);
    assert_eq!(seen.len(), 10);
    assert_eq!(seen, vec![1, 2, 3, 4, 5, 6, 7, 8, 9, 10]);
    assert!(seen.windows(2).all(|w| w[0] <= w[1]));
}

#[test]
fn simulate_near_top_wraps() {
    let seen = simulate(u32::MAX - 1, 1, 3);
    assert_eq!(seen, vec![u32::MAX, 0, 1]);
}

#[test]
fn armed_source_latches_without_dispatch() {
    let mut t = TimerInterrupt::new();
    t.reset();
    t.setup(TriggerType::FallingEdge, 0, 0);
    t.start_timer(2);
    t.listen();
    assert_eq!(t.state, SourceState::Armed);
    for _ in 0..5 {
        t.fire();
        assert!(!t.dispatches(true));
    }
    assert!(t.update_flag);
    assert!(t.pending);
    t.unmask();
    assert_eq!(t.state, SourceState::Active);
    assert!(t.dispatches(true));
    t.acknowledge();
    assert!(!t.dispatches(true));
    assert!(!t.update_flag);
}

#[test]
fn handler_runs_once_for_latched_events() {
    let mut sys = System::new(3);
    sys.arm(2);
    sys.timer.listen();
    sys.cpu.enable();
    sys.timer_event();
    sys.timer_event();
    sys.timer_event();
    assert!(sys.interrupt().is_none());
    sys.activate();
    assert!(sys.interrupt().is_some());
    assert!(sys.interrupt().is_none());
}

#[test]
fn clearing_cleared_flags_is_noop() {
    let mut t = TimerInterrupt::new();
    t.reset();
    t.setup(TriggerType::FallingEdge, 0, 0);
    t.unmask();
    t.clear_update_flag();
    t.unpend();
    let before = t;
    t.clear_update_flag();
    t.unpend();
    assert_eq!(t, before);
    assert!(!t.dispatches(true));
}

#[test]
fn masked_cpu_blocks_dispatch() {
    let mut sys = booted(0, 2);
    sys.main_step();
    assert_eq!(sys.phase, MainPhase::Load);
    sys.timer_event();
    assert!(sys.interrupt().is_none());
    sys.main_step();
    sys.main_step();
    sys.main_step();
    let r = sys.interrupt().expect("delivered after the section");
    assert_eq!(r.value, 1);
}

#[test]
fn interleavings_read_whole_values() {
    let mut sys = booted(0, 4);
    let mut seed: u32 = 12345;
    let mut last: Option<u32> = None;
    let mut stored: u32 = 0;
    for _ in 0..5000 {
        seed = seed.wrapping_mul(1103515245).wrapping_add(12345);
        let e = match (seed >> 16) % 3 {
            0 => Event::MainStep,
            1 => Event::TimerFires,
            _ => Event::Interrupt,
        };
        let phase = sys.phase;
        if let Some(r) = sys.step(e) {
            assert_eq!(r.value, stored);
            assert_eq!(r.text, r.value.to_string());
            if let Some(prev) = last {
                assert!(prev <= r.value);
            }
            last = Some(r.value);
        }
        if e == Event::MainStep && phase == MainPhase::Store {
            stored += 1;
        }
    }
    assert!(last.is_some());
}
