use hermes_clicker::config::clamp_u8;
use hermes_clicker::winutil::{burst_inputs, clicks_sent, MouseEvent};
use hermes_clicker::worker::{
    burst_continues, clamp_burst, keeps_running, wait_action, BurstCounter, ClickRate, LoopState,
    LoopStep, WaitAction,
};

#[test]
fn idle_when_not_running() {
    let mut s = LoopState::new();
    assert_eq!(s.next_step(false, 1), LoopStep::Idle);
    assert_eq!(s, LoopState::new());
}

#[test]
fn first_paced_step_restarts_pacing() {
    let mut s = LoopState::new();
    assert_eq!(
        s.next_step(true, ClickRate::Fast.as_u8()),
        LoopStep::Paced { rate: ClickRate::Fast, restart_pacing: true, refresh_monitor: false }
    );
    assert_eq!(
        s.next_step(true, ClickRate::Fast.as_u8()),
        LoopStep::Paced { rate: ClickRate::Fast, restart_pacing: false, refresh_monitor: false }
    );
    assert_eq!(
        s.next_step(true, ClickRate::Slow.as_u8()),
        LoopStep::Paced { rate: ClickRate::Slow, restart_pacing: true, refresh_monitor: false }
    );
}

#[test]
fn maximum_rate_bursts() {
    let mut s = LoopState::new();
    assert_eq!(s.next_step(true, 6), LoopStep::Burst);
    assert_eq!(s.last_rate, Some(ClickRate::Maximum));
    assert_eq!(
        s.next_step(true, 6 + 1),
        LoopStep::Paced { rate: ClickRate::Fps, restart_pacing: true, refresh_monitor: true }
    );
}

#[test]
fn unknown_rate_number_paces_normally() {
    let mut s = LoopState::new();
    assert_eq!(
        s.next_step(true, 200),
        LoopStep::Paced { rate: ClickRate::Normal, restart_pacing: true, refresh_monitor: false }
    );
}

#[test]
fn per_frame_rate_reads_refresh_rate_every_300_frames() {
    let mut s = LoopState::new();
    let mut refreshes = 0;
    for _ in 0..601 {
        match s.next_step(true, ClickRate::Fps.as_u8()) {
            LoopStep::Paced { refresh_monitor: true, .. } => refreshes += 1,
            _ => {}
        }
    }
    assert_eq!(refreshes, 3);
    assert_eq!(s.frame_ticks, 601);
}

#[test]
fn frame_counter_wraps() {
    let mut s = LoopState { last_rate: Some(ClickRate::Fps), frame_ticks: u32::MAX };
    s.next_step(true, ClickRate::Fps.as_u8());
    assert_eq!(s.frame_ticks, 0);
}

#[test]
fn burst_counter_polls_every_64_cycles() {
    let mut c = BurstCounter::new();
    c.enter();
    let mut polls = 0;
    for i in 1..=200u32 {
        let t = c.count_cycle();
        if t.poll {
            polls += 1;
            assert_eq!(i % 64, 0);
        }
        assert!(!t.yield_now);
    }
    assert_eq!(polls, 3);
    assert_eq!(c.cycles, 200);
    assert_eq!(c.since_poll, 200 - 192);
}

#[test]
fn burst_counter_yields_every_8192_cycles() {
    let mut c = BurstCounter { cycles: 8191, since_poll: 0 };
    assert!(c.count_cycle().yield_now);
    let mut c = BurstCounter { cycles: u32::MAX, since_poll: 0 };
    assert!(c.count_cycle().yield_now);
    assert_eq!(c.cycles, 0);
}

#[test]
fn entering_burst_restarts_poll_count() {
    let mut c = BurstCounter { cycles: 10, since_poll: 50 };
    c.enter();
    assert_eq!(c, BurstCounter { cycles: 10, since_poll: 0 });
}

#[test]
fn burst_stops_when_state_changes() {
    assert!(burst_continues(false, true, 6));
    assert!(!burst_continues(true, true, 6));
    assert!(!burst_continues(false, false, 6));
    assert!(!burst_continues(false, true, 1));
    assert!(keeps_running(false, true));
    assert!(!keeps_running(true, true));
}

#[test]
fn burst_size_is_clamped() {
    assert_eq!(clamp_burst(0), 1);
    assert_eq!(clamp_burst(3), 3);
    assert_eq!(clamp_burst(200), 5);
    assert_eq!(clamp_u8(50, 15, 100), 50);
}

#[test]
fn waiting_sleeps_yields_or_spins() {
    assert_eq!(wait_action(10, 10), WaitAction::Done);
    assert_eq!(wait_action(11, 10), WaitAction::Done);
    assert_eq!(wait_action(0, 5_000_000), WaitAction::Sleep(4_000_000));
    assert_eq!(wait_action(0, 2_000_000), WaitAction::Yield);
    assert_eq!(wait_action(0, 200_001), WaitAction::Yield);
    assert_eq!(wait_action(0, 200_000), WaitAction::Spin);
}

#[test]
fn burst_inputs_pair_press_and_release() {
    let inputs = burst_inputs(3);
    assert_eq!(
        inputs,
        vec![
            MouseEvent::LeftDown,
            MouseEvent::LeftUp,
            MouseEvent::LeftDown,
            MouseEvent::LeftUp,
            MouseEvent::LeftDown,
            MouseEvent::LeftUp,
        ]
    );
    assert_eq!(burst_inputs(0), vec![MouseEvent::LeftDown, MouseEvent::LeftUp]);
    assert_eq!(clicks_sent(6), 3);
    assert_eq!(clicks_sent(5), 2);
}
