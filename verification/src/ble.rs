//! The wireless link manager: one connected, encrypted, subscribed
//! session with a single input peripheral, restarted from scanning after
//! any failure. The radio stack itself is an outside collaborator; this
//! module holds the decisions — the state machine, the bonding policy,
//! the error taxonomy, and the notification dispatch into the
//! input-sample mailbox.

use vstd::prelude::*;
use crate::mailbox::Mailbox;
use crate::xbox::{JoystickData, XboxHidServiceClient, HID_REPORT_LEN, decode_hid_report,
    spec_decode};

verus! {

/// Bound on one scanning pass; on its expiry the manager returns to
/// scanning afresh.
pub const SCAN_TIMEOUT_SECS: u64 = 10;
/// Pause before retrying after a scan error.
pub const SCAN_RETRY_DELAY_MS: u64 = 100;

/// A peer's link-layer identity: an address type and a 6-byte address.
/// Immutable once obtained.
#[derive(Clone, Copy, PartialEq, Eq, Debug)]
pub struct PeerAddress {
    /// The link-layer address type (public, random, ...).
    pub kind: u8,
    /// The 6-byte device address.
    pub octets: [u8; 6],
}

/// The link error taxonomy. Every one of these resets the manager to
/// scanning; none is fatal to the system.
#[derive(Clone, Copy, PartialEq, Eq, Structural, Debug)]
pub enum BleError {
    /// Encrypting or pairing the session failed.
    Encryption,
    /// The connect request failed or timed out.
    ConnectError,
    /// Service or characteristic discovery failed.
    DiscoveryError,
    /// Writing the notification-enable descriptor failed.
    WriteError,
    /// Reading a characteristic failed.
    ReadError,
}

/// The bonding policy: bonding requests from the peer are always
/// accepted.
pub struct Bonder {}

impl Bonder {
    /// Whether to accept a bonding request: always.
    pub fn can_bond(&self) -> (r: bool)
        ensures
            r,
    {
        true
    }
}

impl Default for Bonder {
    /// The one (stateless) bonding policy.
    fn default() -> (r: Bonder)
        ensures
            r == (Bonder {  }),
    {
        Bonder {  }
    }
}

/// The life-cycle states of the link manager. Initial state `Scanning`;
/// there is no terminal state — every failure leads back to `Scanning`.
#[derive(Clone, Copy, PartialEq, Eq, Structural, Debug)]
pub enum LinkState {
    /// Filtering advertisements for a compatible peer.
    Scanning,
    /// A connect request restricted to the candidate address is pending.
    Connecting,
    /// Encryption (and, if no keys are bonded, pairing) is pending.
    Securing,
    /// HID service and characteristic discovery is pending.
    Discovering,
    /// The notification-enable descriptor write is pending.
    Subscribing,
    /// Notifications flow; each one is decoded and published.
    Streaming,
}

/// The outcome of the radio operation the manager last requested.
#[derive(Clone, Copy, PartialEq, Eq, Debug)]
pub enum LinkEvent {
    /// An advertisement passed the classifier; its sender is a candidate.
    AdvertMatch(PeerAddress),
    /// Scanning reached its bounded timeout without a candidate.
    ScanTimeout,
    /// The connect request produced an open session.
    ConnectOk,
    /// The connect request failed.
    ConnectFailed,
    /// The session is encrypted with existing bonding keys.
    EncryptOk,
    /// No bonding keys exist for the peer; pairing is required.
    PeerKeysMissing,
    /// The pairing/bonding exchange succeeded.
    PairingOk,
    /// The pairing/bonding exchange failed.
    PairingFailed,
    /// Encryption failed outright.
    EncryptFailed,
    /// Discovery found the HID service; its handles are attached.
    DiscoverOk(XboxHidServiceClient),
    /// Discovery failed.
    DiscoverFailed,
    /// The notification-enable descriptor write succeeded.
    SubscribeOk,
    /// The notification-enable descriptor write failed.
    SubscribeFailed,
    /// The session dropped or hit a protocol error while streaming.
    Disconnected,
}

/// What the manager asks its caller to perform next.
#[derive(Clone, Copy, PartialEq, Eq, Debug)]
pub enum LinkAction {
    /// Keep filtering advertisements (bounded by the scan timeout).
    Scan,
    /// Issue a connect request restricted to this address.
    Connect(PeerAddress),
    /// Request encryption on the open session.
    Encrypt,
    /// Initiate the pairing/bonding exchange.
    RequestPairing,
    /// Run HID service discovery.
    Discover,
    /// Write the notification-enable descriptor.
    Subscribe,
    /// Block on inbound notifications.
    Listen,
    /// Tear-down happened; begin the next attempt from scanning.
    Restart,
}

/// The error a failure event stands for, if it is a failure at all.
pub open spec fn spec_error_of(e: LinkEvent) -> Option<BleError> {
    match e {
        LinkEvent::ConnectFailed => Some(BleError::ConnectError),
        LinkEvent::EncryptFailed => Some(BleError::Encryption),
        LinkEvent::PairingFailed => Some(BleError::Encryption),
        LinkEvent::DiscoverFailed => Some(BleError::DiscoveryError),
        LinkEvent::SubscribeFailed => Some(BleError::WriteError),
        _ => None,
    }
}

/// Classify a failure event into the error taxonomy.
pub fn error_of(e: &LinkEvent) -> (r: Option<BleError>)
    ensures
        r == spec_error_of(*e),
{
    match e {
        LinkEvent::ConnectFailed => Some(BleError::ConnectError),
        LinkEvent::EncryptFailed => Some(BleError::Encryption),
        LinkEvent::PairingFailed => Some(BleError::Encryption),
        LinkEvent::DiscoverFailed => Some(BleError::DiscoveryError),
        LinkEvent::SubscribeFailed => Some(BleError::WriteError),
        _ => None,
    }
}

/// The wireless link manager. It owns at most one session at a time
/// (`connected`), the candidate address it is pursuing, and the service
/// handles once discovered; `fixed_peer` is the optional whitelist-of-one
/// that skips scanning entirely.
pub struct LinkManager {
    /// Where the manager stands in the life cycle.
    pub state: LinkState,
    /// A pre-configured peer; when set, scanning is skipped.
    pub fixed_peer: Option<PeerAddress>,
    /// The candidate the current attempt is directed at.
    pub target: Option<PeerAddress>,
    /// The discovered HID service handles of the current session.
    pub client: Option<XboxHidServiceClient>,
    /// Whether an open session exists right now.
    pub connected: bool,
}

impl LinkManager {
    /// The manager's invariant: a session exists exactly in the states
    /// that hold one, the candidate is known whenever a session is being
    /// pursued, the handles are known once discovery is done, and
    /// scanning holds no leftover session state.
    pub open spec fn wf(&self) -> bool {
        &&& self.connected <==> (self.state is Securing || self.state is Discovering
            || self.state is Subscribing || self.state is Streaming)
        &&& (self.state is Connecting || self.connected) ==> self.target is Some
        &&& (self.state is Subscribing || self.state is Streaming) ==> self.client is Some
        &&& self.state is Scanning ==> self.target is None && self.client is None
    }

    /// Which events can answer which states.
    pub open spec fn event_fits(s: LinkState, e: LinkEvent) -> bool {
        match s {
            LinkState::Scanning => e is AdvertMatch || e is ScanTimeout,
            LinkState::Connecting => e is ConnectOk || e is ConnectFailed,
            LinkState::Securing => e is EncryptOk || e is PeerKeysMissing || e is PairingOk
                || e is PairingFailed || e is EncryptFailed,
            LinkState::Discovering => e is DiscoverOk || e is DiscoverFailed,
            LinkState::Subscribing => e is SubscribeOk || e is SubscribeFailed,
            LinkState::Streaming => e is Disconnected,
        }
    }

    /// The manager after a tear-down: back to scanning with no session,
    /// no candidate and no handles, keeping only the configuration.
    pub open spec fn spec_teardown(m: LinkManager) -> LinkManager {
        LinkManager {
            state: LinkState::Scanning,
            fixed_peer: m.fixed_peer,
            target: None,
            client: None,
            connected: false,
        }
    }

    /// The manager after handling an event.
    pub open spec fn spec_next(m: LinkManager, e: LinkEvent) -> LinkManager {
        match e {
            LinkEvent::AdvertMatch(a) => LinkManager {
                state: LinkState::Connecting,
                target: Some(a),
                ..m
            },
            LinkEvent::ScanTimeout => Self::spec_teardown(m),
            LinkEvent::ConnectOk => LinkManager { state: LinkState::Securing, connected: true, ..m },
            LinkEvent::ConnectFailed => Self::spec_teardown(m),
            LinkEvent::EncryptOk => LinkManager { state: LinkState::Discovering, ..m },
            LinkEvent::PeerKeysMissing => m,
            LinkEvent::PairingOk => LinkManager { state: LinkState::Discovering, ..m },
            LinkEvent::PairingFailed => Self::spec_teardown(m),
            LinkEvent::EncryptFailed => Self::spec_teardown(m),
            LinkEvent::DiscoverOk(c) => LinkManager {
                state: LinkState::Subscribing,
                client: Some(c),
                ..m
            },
            LinkEvent::DiscoverFailed => Self::spec_teardown(m),
            LinkEvent::SubscribeOk => LinkManager { state: LinkState::Streaming, ..m },
            LinkEvent::SubscribeFailed => Self::spec_teardown(m),
            LinkEvent::Disconnected => Self::spec_teardown(m),
        }
    }

    /// The action that answers an event.
    pub open spec fn spec_action(m: LinkManager, e: LinkEvent) -> LinkAction {
        match e {
            LinkEvent::AdvertMatch(a) => LinkAction::Connect(a),
            LinkEvent::ScanTimeout => LinkAction::Restart,
            LinkEvent::ConnectOk => LinkAction::Encrypt,
            LinkEvent::ConnectFailed => LinkAction::Restart,
            LinkEvent::EncryptOk => LinkAction::Discover,
            LinkEvent::PeerKeysMissing => LinkAction::RequestPairing,
            LinkEvent::PairingOk => LinkAction::Discover,
            LinkEvent::PairingFailed => LinkAction::Restart,
            LinkEvent::EncryptFailed => LinkAction::Restart,
            LinkEvent::DiscoverOk(_) => LinkAction::Subscribe,
            LinkEvent::DiscoverFailed => LinkAction::Restart,
            LinkEvent::SubscribeOk => LinkAction::Listen,
            LinkEvent::SubscribeFailed => LinkAction::Restart,
            LinkEvent::Disconnected => LinkAction::Restart,
        }
    }

    /// A fresh manager: scanning, with no session and at most a
    /// pre-configured peer.
    pub fn new(fixed_peer: Option<PeerAddress>) -> (m: LinkManager)
        ensures
            m.state is Scanning,
            m.fixed_peer == fixed_peer,
            !m.connected,
            m.wf(),
    {
        LinkManager {
            state: LinkState::Scanning,
            fixed_peer,
            target: None,
            client: None,
            connected: false,
        }
    }

    /// Begin a connection attempt from scanning: go straight for the
    /// pre-configured peer when one is set, otherwise keep scanning.
    pub fn begin_attempt(&mut self) -> (a: LinkAction)
        requires
            old(self).wf(),
            old(self).state is Scanning,
        ensures
            final(self).wf(),
            old(self).fixed_peer matches Some(p) ==> final(self).state is Connecting
                && final(self).target == Some(p) && a == LinkAction::Connect(p),
            old(self).fixed_peer is None ==> *final(self) == *old(self) && a == LinkAction::Scan,
            final(self).fixed_peer == old(self).fixed_peer,
            !final(self).connected,
    {
        match self.fixed_peer {
            Some(p) => {
                self.state = LinkState::Connecting;
                self.target = Some(p);
                LinkAction::Connect(p)
            },
            None => LinkAction::Scan,
        }
    }

    /// Handle the outcome of the last requested operation: advance on
    /// success, tear everything down and return to scanning on failure.
    /// Scanning never holds leftover session state, so no connection
    /// leaks between attempts.
    pub fn step(&mut self, e: LinkEvent) -> (a: LinkAction)
        requires
            old(self).wf(),
            Self::event_fits(old(self).state, e),
        ensures
            *final(self) == Self::spec_next(*old(self), e),
            a == Self::spec_action(*old(self), e),
            final(self).wf(),
            final(self).state is Scanning ==> !final(self).connected && final(self).client is None,
    {
        match e {
            LinkEvent::AdvertMatch(a) => {
                self.state = LinkState::Connecting;
                self.target = Some(a);
                LinkAction::Connect(a)
            },
            LinkEvent::ScanTimeout => self.teardown(),
            LinkEvent::ConnectOk => {
                self.state = LinkState::Securing;
                self.connected = true;
                LinkAction::Encrypt
            },
            LinkEvent::ConnectFailed => self.teardown(),
            LinkEvent::EncryptOk => {
                self.state = LinkState::Discovering;
                LinkAction::Discover
            },
            LinkEvent::PeerKeysMissing => LinkAction::RequestPairing,
            LinkEvent::PairingOk => {
                self.state = LinkState::Discovering;
                LinkAction::Discover
            },
            LinkEvent::PairingFailed => self.teardown(),
            LinkEvent::EncryptFailed => self.teardown(),
            LinkEvent::DiscoverOk(c) => {
                self.state = LinkState::Subscribing;
                self.client = Some(c);
                LinkAction::Subscribe
            },
            LinkEvent::DiscoverFailed => self.teardown(),
            LinkEvent::SubscribeOk => {
                self.state = LinkState::Streaming;
                LinkAction::Listen
            },
            LinkEvent::SubscribeFailed => self.teardown(),
            LinkEvent::Disconnected => self.teardown(),
        }
    }

    /// Destroy the session state and return to scanning.
    fn teardown(&mut self) -> (a: LinkAction)
        ensures
            *final(self) == Self::spec_teardown(*old(self)),
            a == LinkAction::Restart,
    {
        self.state = LinkState::Scanning;
        self.target = None;
        self.client = None;
        self.connected = false;
        LinkAction::Restart
    }
}

/// Stepping a well-formed manager preserves the invariant, and whenever
/// a step lands back in scanning, the session, candidate and handles are
/// gone: no connection state leaks between attempts.
pub proof fn lemma_no_leaked_connection(m: LinkManager, e: LinkEvent)
    requires
        m.wf(),
        LinkManager::event_fits(m.state, e),
    ensures
        LinkManager::spec_next(m, e).wf(),
        LinkManager::spec_next(m, e).state is Scanning ==> !LinkManager::spec_next(m, e).connected
            && LinkManager::spec_next(m, e).client is None && LinkManager::spec_next(
            m,
            e,
        ).target is None,
{
}

/// Dispatch one inbound notification while streaming: decode the report
/// and publish the sample, overwriting any unread one. A short report is
/// dropped — nothing is published and no state changes.
pub fn handle_notification(mb: &mut Mailbox<JoystickData>, report: &[u8])
    ensures
        report@.len() >= HID_REPORT_LEN ==> final(mb).pending() == Some(spec_decode(report@)),
        report@.len() < HID_REPORT_LEN ==> final(mb).pending() == old(mb).pending(),
{
    match decode_hid_report(report) {
        Some(sample) => mb.publish(sample),
        None => {},
    }
}

} // verus!
