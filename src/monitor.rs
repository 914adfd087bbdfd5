use vstd::prelude::*;
use crate::gate::{Direction, SuppressionGate};

verus! {

/// The status a compositor reload announces in a tick's payload.
#[derive(Clone, Copy, Debug, PartialEq, Eq, Structural)]
pub enum ReloadStatus {
    Pending,
    Done,
}

/// What the compositor's event stream delivered, as far as the monitor
/// decides on it.
#[derive(Clone, Copy, Debug, PartialEq, Eq, Structural)]
pub enum MonitorEvent {
    /// A device's state changed.
    DeviceChanged,
    /// A tick; `status` is `None` where its payload is malformed.
    Tick { first: bool, status: Option<ReloadStatus> },
    /// The stream reported an error.
    StreamError,
    /// Any other event.
    Other,
}

/// What the monitor does with an event.
#[derive(Clone, Copy, Debug, PartialEq, Eq, Structural)]
pub enum MonitorAction {
    /// Absorb the report; the hold on settings→device is taken, to be
    /// released after the cooldown.
    Absorb,
    /// Drop the report: device→settings is closed.
    Drop,
    /// A reload began: device→settings is paused.
    Pause,
    /// A reload ended: after the cooldown lift the pause, then forward every
    /// store to the compositor.
    ReapplyAfterCooldown,
    /// Nothing to do; the payload, if any, is only worth a debug line.
    Ignore,
    /// Log a warning and go on.
    Warn,
}

/// The monitor's decision on one event, with the suppression flags after it.
pub open spec fn step(g: SuppressionGate, e: MonitorEvent) -> (SuppressionGate, MonitorAction) {
    match e {
        MonitorEvent::DeviceChanged => if g.may_begin(Direction::DeviceToSettings) {
            (g.begun(Direction::DeviceToSettings), MonitorAction::Absorb)
        } else {
            (g, MonitorAction::Drop)
        },
        MonitorEvent::Tick { first, status } => if first {
            (g, MonitorAction::Ignore)
        } else {
            match status {
                Some(ReloadStatus::Pending) => (
                    SuppressionGate { reload_paused: true, ..g },
                    MonitorAction::Pause,
                ),
                Some(ReloadStatus::Done) => (g, MonitorAction::ReapplyAfterCooldown),
                None => (g, MonitorAction::Ignore),
            }
        },
        MonitorEvent::StreamError => (g, MonitorAction::Warn),
        MonitorEvent::Other => (g, MonitorAction::Ignore),
    }
}

/// The actions the monitor takes on a sequence of events, in order, and the
/// suppression flags after them.
pub open spec fn run(g: SuppressionGate, es: Seq<MonitorEvent>) -> (SuppressionGate, Seq<MonitorAction>)
    decreases es.len(),
{
    if es.len() == 0 {
        (g, Seq::empty())
    } else {
        let (g1, a) = step(g, es[0]);
        let (g2, rest) = run(g1, es.drop_first());
        (g2, seq![a] + rest)
    }
}

/// Decides what to do with one event of the compositor's stream, updating
/// the suppression flags.
pub fn on_event(gate: &mut SuppressionGate, event: MonitorEvent) -> (r: MonitorAction)
    ensures
        (*final(gate), r) == step(*old(gate), event),
{
    match event {
        MonitorEvent::DeviceChanged => {
            if gate.begin(Direction::DeviceToSettings) {
                MonitorAction::Absorb
            } else {
                MonitorAction::Drop
            }
        },
        MonitorEvent::Tick { first, status } => {
            if first {
                MonitorAction::Ignore
            } else {
                match status {
                    Some(ReloadStatus::Pending) => {
                        gate.pause_reload();
                        MonitorAction::Pause
                    },
                    Some(ReloadStatus::Done) => MonitorAction::ReapplyAfterCooldown,
                    None => MonitorAction::Ignore,
                }
            }
        },
        MonitorEvent::StreamError => MonitorAction::Warn,
        MonitorEvent::Other => MonitorAction::Ignore,
    }
}

/// How often, and how patiently, subscribing to the compositor is retried.
#[derive(Clone, Copy, Debug, PartialEq, Eq, Structural)]
pub struct RetryPolicy {
    /// Retries after the first failure; one failure more is fatal.
    pub max_retry: u32,
    /// Growth of the delay from one retry to the next, in milliseconds.
    pub step_ms: u32,
}

/// What to do after a failed attempt.
#[derive(Clone, Copy, Debug, PartialEq, Eq, Structural)]
pub enum RetryDecision {
    RetryAfterMs(u64),
    GiveUp,
}

/// The decision after a failure that `earlier` failures preceded: a retry
/// with linearly growing delay (none before the first retry) while the bound
/// allows one, else giving up.
pub open spec fn retry_spec(p: RetryPolicy, earlier: nat) -> RetryDecision {
    if earlier < p.max_retry {
        RetryDecision::RetryAfterMs((earlier * p.step_ms) as u64)
    } else {
        RetryDecision::GiveUp
    }
}

/// The decision after a failure that `earlier` failures preceded.
pub fn retry_decision(p: &RetryPolicy, earlier: u32) -> (r: RetryDecision)
    ensures
        r == retry_spec(*p, earlier as nat),
{
    if earlier < p.max_retry {
        let a = earlier as u64;
        let b = p.step_ms as u64;
        assert(a * b <= u64::MAX) by (nonlinear_arith)
            requires
                a <= u32::MAX,
                b <= u32::MAX,
        ;
        let d: u64 = a * b;
        RetryDecision::RetryAfterMs(d)
    } else {
        RetryDecision::GiveUp
    }
}

} // verus!
