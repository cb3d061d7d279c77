use crossbeam_channel::{bounded, unbounded};
use prussian_studio::config::DeviceConfig;
use prussian_studio::device::{Device, DeviceMsg};
use prussian_studio::binary32::Binary32;
use prussian_studio::channel::AccessType;
use prussian_studio::device::JsonWriteChannel;
use prussian_studio::mailbox::{
    check_mail, collect, post, post_request, post_update, publish, serve_hmi_write,
    CrossBeamChannel, CrossBeamSocketChannel, DeviceBeam, DeviceMsgBeam,
};

fn snapshots() -> CrossBeamChannel {
    let (send, receive) = unbounded();
    CrossBeamChannel { send, receive }
}

fn messages() -> DeviceMsgBeam {
    let (send, receive) = unbounded();
    DeviceMsgBeam { send, receive }
}

fn snapshot(name: &str) -> Vec<Device> {
    vec![Device::initialize(0, name.to_owned())]
}

#[test]
fn empty_mailboxes_give_nothing() {
    let beam = DeviceBeam { read: Some(snapshots()), update: Some(snapshots()) };
    let mail = check_mail(false, &beam, &messages());
    assert!(!mail.stop);
    assert!(mail.update.is_none());
    assert!(mail.message.is_none());
}

#[test]
fn one_message_is_taken_at_a_time_oldest_first() {
    let beam = DeviceBeam { read: None, update: Some(snapshots()) };
    let control = messages();
    let first = DeviceMsg::Reconnect(DeviceConfig::default());
    assert!(post(&control, first.clone()));
    assert!(post(&control, DeviceMsg::Reconnect(DeviceConfig::default())));
    assert!(post_update(&beam, snapshot("one")));
    assert!(post_update(&beam, snapshot("two")));
    let mail = check_mail(false, &beam, &control);
    assert_eq!(mail.message, Some(first));
    assert_eq!(mail.update, Some(snapshot("one")));
    assert_eq!(control.receive.len(), 1);
    let mail = check_mail(false, &beam, &control);
    assert!(mail.message.is_some());
    assert_eq!(mail.update, Some(snapshot("two")));
    let mail = check_mail(false, &beam, &control);
    assert!(mail.message.is_none());
    assert!(mail.update.is_none());
}

#[test]
fn stop_signal_takes_nothing_out() {
    let beam = DeviceBeam { read: None, update: Some(snapshots()) };
    let control = messages();
    assert!(post(&control, DeviceMsg::Reconnect(DeviceConfig::default())));
    assert!(post_update(&beam, snapshot("one")));
    let mail = check_mail(true, &beam, &control);
    assert!(mail.stop);
    assert!(mail.update.is_none());
    assert!(mail.message.is_none());
    assert_eq!(control.receive.len(), 1);
}

#[test]
fn worker_without_update_queue_gets_messages_only() {
    let beam = DeviceBeam { read: None, update: None };
    let control = messages();
    assert!(post(&control, DeviceMsg::Reconnect(DeviceConfig::default())));
    assert!(!post_update(&beam, snapshot("one")));
    let mail = check_mail(false, &beam, &control);
    assert!(mail.update.is_none());
    assert!(mail.message.is_some());
}

#[test]
fn published_snapshot_reaches_the_controller() {
    let beam = DeviceBeam { read: Some(snapshots()), update: None };
    assert!(collect(&beam).is_none());
    assert!(publish(&beam, snapshot("one")));
    assert_eq!(collect(&beam), Some(snapshot("one")));
    assert!(collect(&beam).is_none());
    assert!(!publish(&DeviceBeam { read: None, update: None }, snapshot("one")));
    assert!(collect(&DeviceBeam { read: None, update: None }).is_none());
}

#[test]
fn full_mailbox_drops_the_snapshot() {
    let (send, receive) = bounded(1);
    let beam = DeviceBeam { read: Some(CrossBeamChannel { send, receive }), update: None };
    assert!(publish(&beam, snapshot("one")));
    assert!(!publish(&beam, snapshot("two")));
    let queue = match &beam.read {
        Some(queue) => queue,
        None => panic!("the read queue was made above"),
    };
    assert_eq!(queue.receive.try_recv().ok(), Some(snapshot("one")));
    assert!(queue.receive.try_recv().is_err());
}

fn requests() -> CrossBeamSocketChannel {
    let (send, receive) = unbounded();
    CrossBeamSocketChannel { send, receive }
}

#[test]
fn accepted_write_request_goes_to_the_worker_as_an_update() {
    let mut devices = snapshot("unit");
    devices[0].channels[1].access_type = AccessType::Write;
    let queue = requests();
    let beams = vec![DeviceBeam { read: None, update: Some(snapshots()) }];
    assert!(serve_hmi_write(&mut devices, &queue, &beams).is_none());
    let value = Binary32::from_bits(2.5f32.to_bits());
    let request = JsonWriteChannel { device_id: 0, channel: 1, value };
    assert!(post_request(&queue, request));
    assert_eq!(serve_hmi_write(&mut devices, &queue, &beams), Some(request));
    assert_eq!(devices[0].channels[1].value, value);
    let mail = check_mail(false, &beams[0], &messages());
    assert_eq!(mail.update, Some(devices));
}

#[test]
fn refused_write_request_changes_and_sends_nothing() {
    let mut devices = snapshot("unit");
    let before = snapshot("unit");
    let queue = requests();
    let beams = vec![DeviceBeam { read: None, update: Some(snapshots()) }];
    let value = Binary32::from_bits(2.5f32.to_bits());
    let read_only = JsonWriteChannel { device_id: 0, channel: 1, value };
    let no_device = JsonWriteChannel { device_id: 4, channel: 1, value };
    assert!(post_request(&queue, read_only));
    assert!(post_request(&queue, no_device));
    assert_eq!(serve_hmi_write(&mut devices, &queue, &beams), Some(read_only));
    assert_eq!(devices, before);
    assert_eq!(serve_hmi_write(&mut devices, &queue, &beams), Some(no_device));
    assert_eq!(devices, before);
    assert!(serve_hmi_write(&mut devices, &queue, &beams).is_none());
    assert!(check_mail(false, &beams[0], &messages()).update.is_none());
}

#[test]
fn controller_sees_the_latest_snapshot_only() {
    let beam = DeviceBeam { read: Some(snapshots()), update: None };
    assert!(publish(&beam, snapshot("one")));
    assert!(publish(&beam, snapshot("two")));
    assert!(publish(&beam, snapshot("three")));
    assert_eq!(collect(&beam), Some(snapshot("three")));
    assert!(collect(&beam).is_none());
    assert!(publish(&beam, snapshot("four")));
    assert_eq!(collect(&beam), Some(snapshot("four")));
}
