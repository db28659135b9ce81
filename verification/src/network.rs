use vstd::prelude::*;

verus! {

/// The wireless connection state, owned and transitioned solely by the
/// session manager.
#[derive(Debug, Clone, Copy, PartialEq, Eq, Structural)]
pub enum LinkState {
    Down,
    Starting,
    Scanning,
    Connecting,
    Connected,
}

/// A completion event handed back by the task performing the radio work.
#[derive(Debug)]
pub enum NetEvent {
    /// The manager was kicked off for the first time.
    Woken,
    /// Credentials were applied and the radio powered on.
    RadioStarted,
    /// The bounded scan finished with these network names.
    ScanComplete(Vec<Vec<u8>>),
    ConnectSucceeded,
    ConnectFailed,
    /// The established link was lost.
    Disconnected,
}

/// The outside work the manager asks for next.
#[derive(Debug, Clone, Copy, PartialEq, Eq, Structural)]
pub enum NetAction {
    /// Apply the client credentials and power the radio on.
    StartRadio,
    /// Run a bounded scan for nearby networks.
    Scan,
    /// Attempt to join the configured network.  The scan is advisory only:
    /// the attempt is made whether or not the network was seen.
    Connect { ssid_seen: bool },
    /// Wait for a disconnect event on the established link.
    AwaitDisconnect,
    /// Wait the fixed backoff delay, then carry on from the current state.
    Backoff,
    /// The event does not apply in the current state; nothing to do.
    Ignore,
}

/// Whether the configured network name occurs among the scanned ones.
pub open spec fn ssid_present(scans: Seq<Vec<u8>>, ssid: Seq<u8>) -> bool {
    exists|i: int| 0 <= i < scans.len() && scans[i]@ == ssid
}

/// Whether an event drives a transition out of a state; any other pairing
/// is ignored and leaves the manager unchanged.
pub open spec fn event_applies(state: LinkState, event: NetEvent) -> bool {
    match (state, event) {
        (LinkState::Down, NetEvent::Woken) => true,
        (LinkState::Starting, NetEvent::RadioStarted) => true,
        (LinkState::Scanning, NetEvent::ScanComplete(_)) => true,
        (LinkState::Connecting, NetEvent::ConnectSucceeded) => true,
        (LinkState::Connecting, NetEvent::ConnectFailed) => true,
        (LinkState::Connected, NetEvent::Disconnected) => true,
        _ => false,
    }
}

/// The retrying state machine for the wireless link.  It decides every
/// transition; the radio work itself (powering, scanning, joining) is done
/// outside and reported back as a `NetEvent`.  Connection failures and
/// disconnects back off for a fixed delay and retry indefinitely; they are
/// never fatal.
#[derive(Debug)]
pub struct NetworkSessionManager {
    /// The current link state.
    pub state: LinkState,
    /// The configured network name, fixed at construction.
    pub ssid: Vec<u8>,
}

fn bytes_equal(a: &Vec<u8>, b: &Vec<u8>) -> (r: bool)
    ensures
        r == (a@ == b@),
{
    if a.len() != b.len() {
        return false;
    }
    let mut i: usize = 0;
    while i < a.len()
        invariant
            a@.len() == b@.len(),
            0 <= i <= a@.len(),
            forall|j: int| 0 <= j < i ==> a@[j] == b@[j],
        decreases a@.len() - i,
    {
        if a[i] != b[i] {
            return false;
        }
        i = i + 1;
    }
    proof {
        assert(a@ =~= b@);
    }
    true
}

fn contains_ssid(scans: &Vec<Vec<u8>>, ssid: &Vec<u8>) -> (r: bool)
    ensures
        r == ssid_present(scans@, ssid@),
{
    let mut i: usize = 0;
    while i < scans.len()
        invariant
            0 <= i <= scans@.len(),
            forall|j: int| 0 <= j < i ==> scans@[j]@ != ssid@,
        decreases scans@.len() - i,
    {
        if bytes_equal(&scans[i], ssid) {
            return true;
        }
        i = i + 1;
    }
    false
}

impl NetworkSessionManager {
    /// A manager for the given network, with the link down.
    pub fn new(ssid: Vec<u8>) -> (r: NetworkSessionManager)
        ensures
            r.state is Down,
            r.ssid@ == ssid@,
    {
        NetworkSessionManager { state: LinkState::Down, ssid }
    }

    /// One transition of the state machine.  An event that does not belong
    /// to the current state changes nothing.  A scan that did not see the
    /// configured network still moves on to the connect attempt: the scan
    /// result is advisory, never a gate.
    pub fn step(&mut self, event: NetEvent) -> (r: NetAction)
        ensures
            final(self).ssid@ == old(self).ssid@,
            old(self).state is Down && event is Woken ==> final(self).state is Starting
                && r is StartRadio,
            old(self).state is Starting && event is RadioStarted ==> final(self).state is Scanning
                && r is Scan,
            event matches NetEvent::ScanComplete(scans) ==> (old(self).state is Scanning ==> {
                &&& final(self).state is Connecting
                &&& r == (NetAction::Connect { ssid_seen: ssid_present(scans@, old(self).ssid@) })
            }),
            old(self).state is Connecting && event is ConnectSucceeded ==> final(self).state is Connected && r is AwaitDisconnect,
            old(self).state is Connecting && event is ConnectFailed ==> final(self).state is Starting && r is Backoff,
            old(self).state is Connected && event is Disconnected ==> final(self).state is Starting && r is Backoff,
            !event_applies(old(self).state, event) ==> final(self).state == old(self).state
                && r is Ignore,
    {
        match (self.state, event) {
            (LinkState::Down, NetEvent::Woken) => {
                self.state = LinkState::Starting;
                NetAction::StartRadio
            },
            (LinkState::Starting, NetEvent::RadioStarted) => {
                self.state = LinkState::Scanning;
                NetAction::Scan
            },
            (LinkState::Scanning, NetEvent::ScanComplete(scans)) => {
                self.state = LinkState::Connecting;
                let ssid_seen = contains_ssid(&scans, &self.ssid);
                NetAction::Connect { ssid_seen }
            },
            (LinkState::Connecting, NetEvent::ConnectSucceeded) => {
                self.state = LinkState::Connected;
                NetAction::AwaitDisconnect
            },
            (LinkState::Connecting, NetEvent::ConnectFailed) => {
                self.state = LinkState::Starting;
                NetAction::Backoff
            },
            (LinkState::Connected, NetEvent::Disconnected) => {
                self.state = LinkState::Starting;
                NetAction::Backoff
            },
            _ => NetAction::Ignore,
        }
    }
}

} // verus!
