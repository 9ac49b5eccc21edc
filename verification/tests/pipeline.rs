//! The whole control pipeline end to end: classify an advertisement,
//! bring the link up, dispatch notifications through the mailbox, and
//! drive the mixer with the watchdog consumer.

use minibox::ble::{
    handle_notification, LinkAction, LinkEvent, LinkManager, LinkState, PeerAddress,
};
use minibox::controls::{handle_controls, Mixer, MAX_DUTY};
use minibox::mailbox::Mailbox;
use minibox::xbox::{is_xbox_controller, XboxHidServiceClient};

#[test]
fn pipeline_from_advertisement_to_actuators() {
    // A compatible controller advertises.
    let adv = [0x03, 0xFF, 0x06, 0x00, 0x03, 0x02, 0x12, 0x18];
    assert!(is_xbox_controller(&adv));
    let peer = PeerAddress { kind: 0, octets: [1, 2, 3, 4, 5, 6] };

    // The link manager walks the whole life cycle.
    let mut mgr = LinkManager::new(None);
    assert_eq!(mgr.begin_attempt(), LinkAction::Scan);
    assert_eq!(mgr.step(LinkEvent::AdvertMatch(peer)), LinkAction::Connect(peer));
    assert_eq!(mgr.step(LinkEvent::ConnectOk), LinkAction::Encrypt);
    assert_eq!(mgr.step(LinkEvent::EncryptOk), LinkAction::Discover);
    let client = XboxHidServiceClient {
        hid_report_map_handle: 0x20,
        hid_report_handle: 0x22,
        hid_report_cccd_handle: 0x23,
    };
    assert_eq!(mgr.step(LinkEvent::DiscoverOk(client)), LinkAction::Subscribe);
    assert_eq!(mgr.step(LinkEvent::SubscribeOk), LinkAction::Listen);
    assert_eq!(mgr.state, LinkState::Streaming);

    // Two notifications arrive before the consumer reads: only the
    // newest sample reaches the mixer.
    let mut mb = Mailbox::new();
    let mut stale = [0u8; 16];
    stale[3] = 0x10; // some throttle
    // j1.y = 0 is full throttle; both j2 axes neutral at 32768.
    let mut fresh = [0u8; 16];
    fresh[5] = 0x80;
    fresh[7] = 0x80;
    handle_notification(&mut mb, &stale);
    handle_notification(&mut mb, &fresh);

    let mut mixer = Mixer::new();
    handle_controls(&mut mixer, mb.take_next());
    // j1.y = 0 scales to full throttle on both rotors.
    assert_eq!(mixer.out.left, MAX_DUTY);
    assert_eq!(mixer.out.right, MAX_DUTY);

    // The stream stops; the watchdog times out and disarms.
    assert_eq!(mgr.step(LinkEvent::Disconnected), LinkAction::Restart);
    assert_eq!(mgr.state, LinkState::Scanning);
    assert!(!mgr.connected);
    handle_controls(&mut mixer, mb.take_next());
    assert_eq!(mixer.out.left, 0);
    assert_eq!(mixer.out.right, 0);
    assert_eq!(mixer.out.tail_duty, MAX_DUTY);
    assert!(!mixer.out.tail_forward);
}
