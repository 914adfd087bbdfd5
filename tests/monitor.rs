use regolith_inputd::{
    on_event, retry_decision, Direction, MonitorAction, MonitorEvent, ReloadStatus, RetryDecision,
    RetryPolicy, SuppressionGate, COOLDOWN_MS,
};

fn tick(status: Option<ReloadStatus>) -> MonitorEvent {
    MonitorEvent::Tick { first: false, status }
}

#[test]
fn gate_starts_open() {
    let g = SuppressionGate::new();
    assert!(g.allows(Direction::DeviceToSettings));
    assert!(g.allows(Direction::SettingsToDevice));
    assert_eq!(COOLDOWN_MS, 100);
}

#[test]
fn propagation_closes_opposite_until_it_ends() {
    let mut g = SuppressionGate::new();
    assert!(g.begin(Direction::SettingsToDevice));
    assert!(!g.allows(Direction::DeviceToSettings));
    assert!(g.allows(Direction::SettingsToDevice));
    g.end(Direction::SettingsToDevice);
    assert!(g.allows(Direction::DeviceToSettings));
    assert_eq!(g, SuppressionGate::new());
}

#[test]
fn propagation_end_respects_concurrent_reload_pause() {
    let mut g = SuppressionGate::new();
    assert!(g.begin(Direction::SettingsToDevice));
    assert_eq!(on_event(&mut g, tick(Some(ReloadStatus::Pending))), MonitorAction::Pause);
    g.end(Direction::SettingsToDevice);
    assert!(!g.allows(Direction::DeviceToSettings));
    g.finish_reload();
    assert!(g.allows(Direction::DeviceToSettings));
}

#[test]
fn overlapping_propagations_keep_direction_closed() {
    let mut g = SuppressionGate::new();
    assert!(g.begin(Direction::SettingsToDevice));
    assert!(g.begin(Direction::SettingsToDevice));
    g.end(Direction::SettingsToDevice);
    assert!(!g.allows(Direction::DeviceToSettings));
    g.end(Direction::SettingsToDevice);
    assert!(g.allows(Direction::DeviceToSettings));
}

#[test]
fn closed_direction_does_not_begin() {
    let mut g = SuppressionGate::new();
    assert!(g.begin(Direction::DeviceToSettings));
    let before = g;
    assert!(!g.begin(Direction::SettingsToDevice));
    assert_eq!(g, before);
}

#[test]
fn device_event_absorbed_when_open() {
    let mut g = SuppressionGate::new();
    assert_eq!(on_event(&mut g, MonitorEvent::DeviceChanged), MonitorAction::Absorb);
    assert!(!g.allows(Direction::SettingsToDevice));
    g.end(Direction::DeviceToSettings);
    assert!(g.allows(Direction::SettingsToDevice));
}

#[test]
fn reload_cycle_drops_events_and_reapplies_once() {
    let mut g = SuppressionGate::new();
    let mut actions = Vec::new();
    actions.push(on_event(&mut g, tick(Some(ReloadStatus::Pending))));
    for _ in 0..3 {
        actions.push(on_event(&mut g, MonitorEvent::DeviceChanged));
    }
    actions.push(on_event(&mut g, tick(Some(ReloadStatus::Done))));
    assert_eq!(
        actions,
        vec![
            MonitorAction::Pause,
            MonitorAction::Drop,
            MonitorAction::Drop,
            MonitorAction::Drop,
            MonitorAction::ReapplyAfterCooldown,
        ]
    );
    assert_eq!(actions.iter().filter(|a| **a == MonitorAction::ReapplyAfterCooldown).count(), 1);
    g.finish_reload();
    assert_eq!(on_event(&mut g, MonitorEvent::DeviceChanged), MonitorAction::Absorb);
}

#[test]
fn first_and_malformed_ticks_are_ignored() {
    let mut g = SuppressionGate::new();
    let first = MonitorEvent::Tick { first: true, status: Some(ReloadStatus::Pending) };
    assert_eq!(on_event(&mut g, first), MonitorAction::Ignore);
    assert_eq!(on_event(&mut g, tick(None)), MonitorAction::Ignore);
    assert!(g.allows(Direction::DeviceToSettings));
    assert_eq!(on_event(&mut g, MonitorEvent::StreamError), MonitorAction::Warn);
    assert_eq!(on_event(&mut g, MonitorEvent::Other), MonitorAction::Ignore);
}

#[test]
fn four_failures_then_success_retries_four_times() {
    let p = RetryPolicy { max_retry: 5, step_ms: 1000 };
    let delays: Vec<RetryDecision> = (0..4).map(|i| retry_decision(&p, i)).collect();
    assert_eq!(
        delays,
        vec![
            RetryDecision::RetryAfterMs(0),
            RetryDecision::RetryAfterMs(1000),
            RetryDecision::RetryAfterMs(2000),
            RetryDecision::RetryAfterMs(3000),
        ]
    );
}

#[test]
fn six_failures_give_up() {
    let p = RetryPolicy { max_retry: 5, step_ms: 1000 };
    assert_eq!(retry_decision(&p, 4), RetryDecision::RetryAfterMs(4000));
    assert_eq!(retry_decision(&p, 5), RetryDecision::GiveUp);
}

#[test]
fn retry_delay_at_limits() {
    let p = RetryPolicy { max_retry: u32::MAX, step_ms: u32::MAX };
    assert_eq!(retry_decision(&p, u32::MAX - 1), RetryDecision::RetryAfterMs((u32::MAX as u64 - 1) * u32::MAX as u64));
    assert_eq!(retry_decision(&p, u32::MAX), RetryDecision::GiveUp);
}

#[test]
fn forced_propagation_runs_while_direction_closed() {
    let mut g = SuppressionGate::new();
    assert!(g.begin(Direction::DeviceToSettings));
    assert!(!g.allows(Direction::SettingsToDevice));
    assert!(!g.begin(Direction::SettingsToDevice));
    assert!(g.begin_forced(Direction::SettingsToDevice));
    assert!(!g.allows(Direction::DeviceToSettings));
    g.end(Direction::SettingsToDevice);
    g.end(Direction::DeviceToSettings);
    assert_eq!(g, SuppressionGate::new());
}
