use raspi_monitor::scheduler::{next_phase, FrameState, TickPhase};

#[test]
fn new_state_starts_at_zero() {
    let s = FrameState::new();
    assert_eq!(s, FrameState { frame: 0, cycle: 0, page: 0 });
}

#[test]
fn advance_wraps_frame_into_cycle() {
    let mut s = FrameState::new();
    for _ in 0..10 {
        s.advance();
    }
    assert_eq!(s, FrameState { frame: 0, cycle: 1, page: 0 });
}

#[test]
fn page_holds_for_twenty_ticks_then_flips() {
    let mut s = FrameState::new();
    for _ in 0..19 {
        s.advance();
        assert_eq!(s.page, 0);
    }
    s.advance();
    assert_eq!(s, FrameState { frame: 0, cycle: 0, page: 1 });
    for _ in 0..19 {
        s.advance();
        assert_eq!(s.page, 1);
    }
    s.advance();
    assert_eq!(s, FrameState { frame: 0, cycle: 0, page: 0 });
}

#[test]
fn refresh_happens_exactly_on_multiples_of_the_interval() {
    let mut s = FrameState::new();
    let mut refreshed = Vec::new();
    for tick in 0..20 {
        if s.should_refresh(4) {
            refreshed.push(tick);
        }
        s.advance();
    }
    assert_eq!(refreshed, vec![0, 4, 8, 10, 14, 18]);
}

#[test]
fn refresh_every_tick_when_interval_is_one() {
    let mut s = FrameState::new();
    for _ in 0..20 {
        assert!(s.should_refresh(1));
        s.advance();
    }
}

#[test]
fn phases_cycle_in_order_when_nothing_fails() {
    let order = [
        TickPhase::Refresh,
        TickPhase::Clear,
        TickPhase::Render,
        TickPhase::Advance,
        TickPhase::Flush,
        TickPhase::Sleep,
    ];
    for i in 0..order.len() {
        let next = next_phase(order[i], false);
        assert_eq!(next, Some(order[(i + 1) % order.len()]));
    }
}

#[test]
fn failed_render_still_reaches_the_flush() {
    // A draw fault inside the frame is absorbed: the tick goes on to advance
    // its counters and still transmits the buffer.
    let mut phase = TickPhase::Render;
    let mut flushed = false;
    for _ in 0..4 {
        let failed = phase == TickPhase::Render;
        if phase == TickPhase::Flush {
            flushed = true;
            break;
        }
        phase = next_phase(phase, failed).expect("loop must survive a render fault");
    }
    assert!(flushed);
}

#[test]
fn tick_with_one_draw_fault_still_flushes_and_continues() {
    // Drive two full ticks of the phase machine with a simulated device that
    // fails exactly one render: that tick still reaches its flush, sleeps,
    // and the loop proceeds to the next tick.
    let mut phase = TickPhase::Refresh;
    let mut renders = 0;
    let mut flushes = 0;
    let mut sleeps = 0;
    for _ in 0..12 {
        let failed = match phase {
            TickPhase::Render => {
                renders += 1;
                renders == 1
            }
            TickPhase::Flush => {
                flushes += 1;
                false
            }
            TickPhase::Sleep => {
                sleeps += 1;
                false
            }
            _ => false,
        };
        phase = next_phase(phase, failed).expect("a draw fault must not stop the loop");
    }
    assert_eq!(renders, 2);
    assert_eq!(flushes, 2);
    assert_eq!(sleeps, 2);
}

#[test]
fn always_failing_flush_terminates_on_the_first_attempt() {
    let mut phase = TickPhase::Refresh;
    let mut flush_attempts = 0;
    loop {
        let failed = match phase {
            TickPhase::Flush => {
                flush_attempts += 1;
                true
            }
            _ => false,
        };
        match next_phase(phase, failed) {
            Some(next) => phase = next,
            None => break,
        }
    }
    assert_eq!(flush_attempts, 1);
}

#[test]
fn failed_flush_ends_the_loop_at_once() {
    assert_eq!(next_phase(TickPhase::Flush, true), None);
}

#[test]
fn successful_flush_continues_to_the_sleep() {
    assert_eq!(next_phase(TickPhase::Flush, false), Some(TickPhase::Sleep));
}
