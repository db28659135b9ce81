use vstd::prelude::*;

use crate::kalval::KalVal;
use crate::togglable::Togglable;

verus! {

/// Which controllable output a controller owns.
#[derive(Debug, Clone, Copy, PartialEq, Eq, Structural)]
pub enum DeviceKind {
    Led,
    Relay,
}

/// What woke a device controller: a command from its inbox, or the expiry of
/// its heartbeat timer.
#[derive(Debug, Clone, Copy, PartialEq, Eq, Structural)]
pub enum ControllerEvent {
    Command(Togglable),
    Heartbeat,
}

/// The level a command drives the output to, given the current level.
pub open spec fn next_level(current: bool, cmd: Togglable) -> bool {
    match cmd {
        Togglable::On => true,
        Togglable::Off => false,
        Togglable::Toggle => !current,
    }
}

/// The telemetry sample announcing a device's level.
pub open spec fn state_sample(kind: DeviceKind, level: bool) -> KalVal {
    match kind {
        DeviceKind::Led => KalVal::Led(level),
        DeviceKind::Relay => KalVal::Relay(level),
    }
}

/// One controllable boolean output.  It owns the output's level; every
/// mutation goes through `step`, and every step emits a telemetry sample,
/// so downstream staleness is bounded by the heartbeat period.
#[derive(Debug, Clone, Copy, PartialEq, Eq, Structural)]
pub struct DeviceController {
    pub kind: DeviceKind,
    pub level: bool,
}

impl DeviceController {
    /// A controller for `kind` starting at `initial_level`.  The returned
    /// sample announces the initial level, as the first publication.
    pub fn start(kind: DeviceKind, initial_level: bool) -> (r: (DeviceController, KalVal))
        ensures
            r.0.kind == kind,
            r.0.level == initial_level,
            r.1 == state_sample(kind, initial_level),
    {
        let c = DeviceController { kind, level: initial_level };
        let sample = c.heartbeat();
        (c, sample)
    }

    /// One iteration of the control loop.  A command moves the level to what
    /// it demands and asks for exactly one hardware write, even when the
    /// level is unchanged; a heartbeat leaves the level alone and asks for
    /// none.  Either way the returned sample republishes the (possibly
    /// unchanged) level.
    pub fn step(&mut self, event: ControllerEvent) -> (r: (KalVal, Option<bool>))
        ensures
            final(self).kind == old(self).kind,
            event matches ControllerEvent::Command(cmd) ==> {
                &&& final(self).level == next_level(old(self).level, cmd)
                &&& r.1 == Some(final(self).level)
            },
            event is Heartbeat ==> {
                &&& final(self).level == old(self).level
                &&& r.1 is None
            },
            r.0 == state_sample(final(self).kind, final(self).level),
    {
        let write: Option<bool> = match event {
            ControllerEvent::Command(cmd) => {
                self.level = match cmd {
                    Togglable::On => true,
                    Togglable::Off => false,
                    Togglable::Toggle => !self.level,
                };
                Some(self.level)
            },
            ControllerEvent::Heartbeat => None,
        };
        (self.heartbeat(), write)
    }

    /// The sample that re-announces the current level without changing it.
    pub fn heartbeat(&self) -> (r: KalVal)
        ensures
            r == state_sample(self.kind, self.level),
    {
        match self.kind {
            DeviceKind::Led => KalVal::Led(self.level),
            DeviceKind::Relay => KalVal::Relay(self.level),
        }
    }
}

/// Applying Toggle twice in succession returns a controller to its original
/// level: toggling is an involution on the level.
pub proof fn lemma_toggle_twice(level: bool)
    ensures
        next_level(next_level(level, Togglable::Toggle), Togglable::Toggle) == level,
{
}

/// A controller's bounded command inbox.  The decoder side enqueues, the
/// controller dequeues; commands are consumed exactly once, in arrival
/// order, and an arrival beyond the bound is refused, not dropped silently.
#[derive(Debug)]
pub struct CommandInbox {
    capacity: usize,
    commands: Vec<Togglable>,
}

impl View for CommandInbox {
    type V = Seq<Togglable>;

    closed spec fn view(&self) -> Seq<Togglable> {
        self.commands@
    }
}

impl CommandInbox {
    /// The inbox's fixed bound.
    pub closed spec fn cap(&self) -> nat {
        self.capacity as nat
    }

    /// The inbox never holds more commands than its bound.
    pub open spec fn wf(&self) -> bool {
        self@.len() <= self.cap() && self.cap() >= 1
    }

    /// An empty inbox with the given bound.
    pub fn new(capacity: usize) -> (r: CommandInbox)
        requires
            capacity >= 1,
        ensures
            r.wf(),
            r.cap() == capacity,
            r@ == Seq::<Togglable>::empty(),
    {
        CommandInbox { capacity, commands: Vec::new() }
    }

    /// Enqueue one decoded command, in arrival order; a full inbox refuses
    /// it and reports so.
    pub fn try_send(&mut self, cmd: Togglable) -> (r: bool)
        requires
            old(self).wf(),
        ensures
            final(self).wf(),
            final(self).cap() == old(self).cap(),
            old(self)@.len() < old(self).cap() ==> r && final(self)@ == old(self)@.push(cmd),
            old(self)@.len() == old(self).cap() ==> !r && final(self)@ == old(self)@,
    {
        if self.commands.len() < self.capacity {
            self.commands.push(cmd);
            true
        } else {
            false
        }
    }

    /// Dequeue the oldest command, consuming it.
    pub fn receive(&mut self) -> (r: Option<Togglable>)
        requires
            old(self).wf(),
        ensures
            final(self).wf(),
            final(self).cap() == old(self).cap(),
            old(self)@.len() == 0 ==> r is None && final(self)@ == old(self)@,
            old(self)@.len() > 0 ==> r == Some(old(self)@[0]) && final(self)@ == old(
                self,
            )@.drop_first(),
    {
        if self.commands.len() > 0 {
            Some(self.commands.remove(0))
        } else {
            None
        }
    }

    /// How many commands wait.
    pub fn len(&self) -> (r: usize)
        ensures
            r == self@.len(),
    {
        self.commands.len()
    }
}

} // verus!
