use minibox::ble::handle_notification;
use minibox::mailbox::Mailbox;

#[test]
fn mailbox_starts_empty() {
    let mut mb: Mailbox<u32> = Mailbox::new();
    assert_eq!(mb.take_next(), None);
}

#[test]
fn mailbox_overwrite_keeps_newest() {
    let mut mb: Mailbox<u32> = Mailbox::new();
    mb.publish(1);
    mb.publish(2);
    assert_eq!(mb.take_next(), Some(2));
    assert_eq!(mb.take_next(), None);
}

#[test]
fn mailbox_many_publishes_single_read() {
    let mut mb: Mailbox<u32> = Mailbox::new();
    for v in 0..100 {
        mb.publish(v);
    }
    assert_eq!(mb.take_next(), Some(99));
    assert_eq!(mb.take_next(), None);
}

#[test]
fn mailbox_take_clears_slot() {
    let mut mb: Mailbox<&str> = Mailbox::new();
    mb.publish("a");
    assert_eq!(mb.take_next(), Some("a"));
    assert_eq!(mb.take_next(), None);
    mb.publish("b");
    assert_eq!(mb.take_next(), Some("b"));
}

#[test]
fn notification_publishes_decoded_sample() {
    let mut mb = Mailbox::new();
    let mut rep = [0u8; 16];
    rep[0] = 0x10;
    rep[1] = 0x27; // j1.x = 0x2710
    handle_notification(&mut mb, &rep);
    let got = mb.take_next().expect("a decoded sample must be pending");
    assert_eq!(got.j1.0, 0x2710);
}

#[test]
fn notification_drops_short_report() {
    let mut mb = Mailbox::new();
    let rep = [0u8; 15];
    handle_notification(&mut mb, &rep);
    assert!(mb.take_next().is_none());
}

#[test]
fn notification_overwrites_unread_sample() {
    let mut mb = Mailbox::new();
    let mut first = [0u8; 16];
    first[0] = 1;
    let mut second = [0u8; 16];
    second[0] = 2;
    handle_notification(&mut mb, &first);
    handle_notification(&mut mb, &second);
    let got = mb.take_next().unwrap();
    assert_eq!(got.j1.0, 2);
    assert!(mb.take_next().is_none());
}
