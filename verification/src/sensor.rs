use vstd::prelude::*;

use crate::kalval::KalVal;

verus! {

/// Where a sensor stands in its wake, measure, read, sleep cycle.
#[derive(Debug, Clone, Copy, PartialEq, Eq, Structural)]
pub enum PollerPhase {
    /// Waiting for the polling timer.
    Idle,
    /// Warm-up delay after the wake-up command.
    WakingUp,
    /// Conversion delay after the measurement was triggered.
    Measuring,
    /// Fetching the measurement result.
    Reading,
    /// Low-power command before the next idle period.
    Sleeping,
}

/// What the task driving the sensor reports back to the poller.
#[derive(Debug, Clone, Copy, PartialEq, Eq, Structural)]
pub enum SensorEvent {
    /// The polling timer expired.
    TimerElapsed,
    /// The warm-up delay completed.
    WarmupDone,
    /// The conversion delay completed.
    ConversionDone,
    /// The result was fetched: a temperature and a humidity, both in
    /// hundredths of a unit.
    ReadOk { temperature: i32, humidity: i32 },
    /// Some bus or measurement step failed.
    Failed,
    /// The low-power command was issued.
    SleepDone,
}

/// The sensor work the poller asks for next.
#[derive(Debug, Clone, Copy, PartialEq, Eq, Structural)]
pub enum SensorAction {
    /// Issue the wake-up command and wait the fixed warm-up delay.
    Wake,
    /// Trigger a measurement and wait the fixed conversion delay.
    TriggerMeasurement,
    /// Fetch the measurement result.
    FetchResult,
    /// Issue the low-power command.
    Sleep,
    /// Arm the polling timer for the fixed cadence.
    StartTimer,
    /// The event does not apply in the current phase; nothing to do.
    Ignore,
}

/// Whether an event drives a transition out of a phase.  A failure report
/// applies anywhere between waking and reading; any other stray pairing is
/// ignored.
pub open spec fn sensor_event_applies(phase: PollerPhase, event: SensorEvent) -> bool {
    match (phase, event) {
        (PollerPhase::Idle, SensorEvent::TimerElapsed) => true,
        (PollerPhase::WakingUp, SensorEvent::WarmupDone) => true,
        (PollerPhase::WakingUp, SensorEvent::Failed) => true,
        (PollerPhase::Measuring, SensorEvent::ConversionDone) => true,
        (PollerPhase::Measuring, SensorEvent::Failed) => true,
        (PollerPhase::Reading, SensorEvent::ReadOk { .. }) => true,
        (PollerPhase::Reading, SensorEvent::Failed) => true,
        (PollerPhase::Sleeping, SensorEvent::SleepDone) => true,
        _ => false,
    }
}

/// One sensor's fixed-cadence polling cycle.  The poller decides every
/// phase change; the bus traffic and the delays are performed outside and
/// reported back as a `SensorEvent`.  Two physically different sensor
/// drivers satisfy this same sequencing contract.
#[derive(Debug, Clone, Copy, PartialEq, Eq, Structural)]
pub struct SensorPoller {
    pub phase: PollerPhase,
}

impl SensorPoller {
    /// A poller at the start of its idle period.
    pub fn new() -> (r: SensorPoller)
        ensures
            r.phase is Idle,
    {
        SensorPoller { phase: PollerPhase::Idle }
    }

    /// One transition of the polling cycle.  A successful read is the only
    /// transition that emits samples — the humidity then the temperature,
    /// in that order; any failure between waking and reading skips straight
    /// to the low-power command with nothing enqueued, and the next cycle
    /// proceeds on schedule.  There are no retries within a cycle.
    pub fn step(&mut self, event: SensorEvent) -> (r: (SensorAction, Option<(KalVal, KalVal)>))
        ensures
            old(self).phase is Idle && event is TimerElapsed ==> final(self).phase is WakingUp
                && r.0 is Wake,
            old(self).phase is WakingUp && event is WarmupDone ==> final(self).phase is Measuring
                && r.0 is TriggerMeasurement,
            old(self).phase is Measuring && event is ConversionDone ==> final(
                self).phase is Reading && r.0 is FetchResult,
            event matches SensorEvent::ReadOk { temperature, humidity } ==> (old(
                self).phase is Reading ==> {
                &&& final(self).phase is Sleeping
                &&& r.0 is Sleep
                &&& r.1 == Some((KalVal::Humidity(humidity), KalVal::Temperature(temperature)))
            }),
            old(self).phase is WakingUp && event is Failed ==> final(self).phase is Sleeping
                && r.0 is Sleep,
            old(self).phase is Measuring && event is Failed ==> final(self).phase is Sleeping
                && r.0 is Sleep,
            old(self).phase is Reading && event is Failed ==> final(self).phase is Sleeping
                && r.0 is Sleep,
            old(self).phase is Sleeping && event is SleepDone ==> final(self).phase is Idle
                && r.0 is StartTimer,
            !sensor_event_applies(old(self).phase, event) ==> *final(self) == *old(self)
                && r.0 is Ignore,
            !(old(self).phase is Reading && event matches SensorEvent::ReadOk { .. }) ==> r.1 is None,
    {
        match (self.phase, event) {
            (PollerPhase::Idle, SensorEvent::TimerElapsed) => {
                self.phase = PollerPhase::WakingUp;
                (SensorAction::Wake, None)
            },
            (PollerPhase::WakingUp, SensorEvent::WarmupDone) => {
                self.phase = PollerPhase::Measuring;
                (SensorAction::TriggerMeasurement, None)
            },
            (PollerPhase::Measuring, SensorEvent::ConversionDone) => {
                self.phase = PollerPhase::Reading;
                (SensorAction::FetchResult, None)
            },
            (PollerPhase::Reading, SensorEvent::ReadOk { temperature, humidity }) => {
                self.phase = PollerPhase::Sleeping;
                (
                    SensorAction::Sleep,
                    Some((KalVal::Humidity(humidity), KalVal::Temperature(temperature))),
                )
            },
            (PollerPhase::WakingUp, SensorEvent::Failed)
            | (PollerPhase::Measuring, SensorEvent::Failed)
            | (PollerPhase::Reading, SensorEvent::Failed) => {
                self.phase = PollerPhase::Sleeping;
                (SensorAction::Sleep, None)
            },
            (PollerPhase::Sleeping, SensorEvent::SleepDone) => {
                self.phase = PollerPhase::Idle;
                (SensorAction::StartTimer, None)
            },
            _ => (SensorAction::Ignore, None),
        }
    }
}

} // verus!
