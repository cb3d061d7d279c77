use prussian_studio::binary32::Binary32;
use prussian_studio::device::Device;
use prussian_studio::relay::{
    data_rows, relay_frame, ClientRegistry, DataRow, Frame, Msg, RateLimiter, Relayed,
};

fn number(x: f32) -> Binary32 {
    Binary32::from_bits(x.to_bits())
}

#[test]
fn a_connection_is_new_exactly_once() {
    let mut registry = ClientRegistry::new();
    let first = "0b0e".to_owned();
    let second = "77aa".to_owned();
    assert_eq!(registry.len(), 0);
    assert!(!registry.contains(&first));
    assert!(!registry.is_registered(&first));
    assert!(registry.is_registered(&first));
    assert!(registry.contains(&first));
    assert_eq!(registry.len(), 1);
    assert!(!registry.is_registered(&second));
    assert_eq!(registry.len(), 2);
    assert!(registry.remove(&first));
    assert!(!registry.contains(&first));
    assert!(registry.contains(&second));
    assert_eq!(registry.len(), 1);
    assert!(!registry.remove(&first));
    assert!(!registry.is_registered(&first));
    assert_eq!(registry.len(), 2);
    assert!(registry.remove(&second));
    assert!(registry.remove(&first));
    assert_eq!(registry.len(), 0);
}

#[test]
fn nothing_echoes_to_its_sender() {
    let msg = Msg { client_id: "a".to_owned(), payload: "{}".to_owned() };
    assert!(!msg.forwards_to(&"a".to_owned()));
    assert!(msg.forwards_to(&"b".to_owned()));
    assert!(msg.forwards_to(&String::new()));
    assert_eq!(msg.clone(), msg);
}

#[test]
fn rate_limiter_waits_for_the_interval() {
    let mut limiter = RateLimiter::new(1000, 5000);
    assert_eq!(limiter, RateLimiter { interval_ms: 1000, last_ms: 5000 });
    assert!(!limiter.offer(5000));
    assert!(!limiter.offer(5999));
    assert_eq!(limiter.last_ms, 5000);
    assert!(limiter.offer(6000));
    assert_eq!(limiter.last_ms, 6000);
    assert!(!limiter.offer(6500));
    assert!(limiter.offer(9000));
    assert_eq!(limiter.last_ms, 9000);
    assert!(!limiter.offer(100));
    assert_eq!(limiter.last_ms, 9000);
    let mut open = RateLimiter::new(0, 0);
    assert!(open.offer(0));
    assert!(open.offer(0));
}

#[test]
fn ten_times_the_rate_one_write_in_ten() {
    let mut limiter = RateLimiter::new(1000, 0);
    let client = "plc-side".to_owned();
    let mut broadcasts = 0;
    let mut writes = 0;
    let mut written_at = Vec::new();
    for arrival in 1..=100u64 {
        let now = arrival * 100;
        let out = relay_frame(&mut limiter, &client, Frame::Text("{}".to_owned()), true, now);
        if out.broadcast.is_some() {
            broadcasts += 1;
        }
        if out.persist {
            writes += 1;
            written_at.push(now);
        }
    }
    assert_eq!(broadcasts, 100);
    assert_eq!(writes, 10);
    assert_eq!(written_at, vec![1000, 2000, 3000, 4000, 5000, 6000, 7000, 8000, 9000, 10000]);
}

#[test]
fn writes_follow_time_not_count() {
    let mut limiter = RateLimiter::new(1000, 0);
    let client = "plc-side".to_owned();
    let mut writes = 0;
    for arrival in [10u64, 20, 30, 999, 1000, 1001, 1999, 2500, 2501, 9000, 9001] {
        let out = relay_frame(&mut limiter, &client, Frame::Text("{}".to_owned()), true, arrival);
        assert!(out.broadcast.is_some());
        if out.persist {
            writes += 1;
        }
    }
    assert_eq!(writes, 3);
    assert!(writes * 1000 <= 9001);
}

#[test]
fn frames_are_broadcast_under_the_senders_tag() {
    let mut limiter = RateLimiter::new(1000, 0);
    let client = "c1".to_owned();
    let out = relay_frame(&mut limiter, &client, Frame::Text("hello".to_owned()), false, 5000);
    assert_eq!(
        out,
        Relayed {
            broadcast: Some(Msg { client_id: "c1".to_owned(), payload: "hello".to_owned() }),
            persist: false,
        }
    );
    assert_eq!(limiter.last_ms, 0);
    let out = relay_frame(&mut limiter, &client, Frame::Binary("bytes".to_owned()), true, 5000);
    assert_eq!(
        out,
        Relayed {
            broadcast: Some(Msg { client_id: "c1".to_owned(), payload: "bytes".to_owned() }),
            persist: false,
        }
    );
    assert_eq!(limiter.last_ms, 0);
    let out = relay_frame(&mut limiter, &client, Frame::Other, true, 5000);
    assert_eq!(out, Relayed { broadcast: None, persist: false });
    assert_eq!(limiter.last_ms, 0);
    let out = relay_frame(&mut limiter, &client, Frame::Text("{}".to_owned()), true, 5000);
    assert!(out.persist);
    assert_eq!(limiter.last_ms, 5000);
}

#[test]
fn a_batch_has_one_row_for_each_device_and_channel() {
    let mut first = Device::initialize(0, "a".to_owned());
    first.channels.truncate(2);
    first.channels[1].value = number(4.5);
    let mut second = Device::initialize(1, "b".to_owned());
    second.channels.truncate(3);
    second.channels[2].value = number(-1.0);
    let mut third = Device::initialize(2, "c".to_owned());
    third.channels.clear();
    let rows = data_rows(&vec![first, third, second], 41);
    assert_eq!(
        rows,
        vec![
            DataRow { channel_id: 0, device_id: 0, value: number(0.0), record_id: 41 },
            DataRow { channel_id: 1, device_id: 0, value: number(4.5), record_id: 41 },
            DataRow { channel_id: 0, device_id: 1, value: number(0.0), record_id: 41 },
            DataRow { channel_id: 1, device_id: 1, value: number(0.0), record_id: 41 },
            DataRow { channel_id: 2, device_id: 1, value: number(-1.0), record_id: 41 },
        ]
    );
    assert!(data_rows(&Vec::new(), 1).is_empty());
}

#[test]
fn row_keys_are_cut_to_the_column_width() {
    let mut device = Device::initialize(0, "a".to_owned());
    device.channels.truncate(1);
    device.channels[0].id = 4_294_967_299;
    device.channels[0].device_id = 2_147_483_648;
    let rows = data_rows(&vec![device], -7);
    assert_eq!(rows[0].channel_id, 4_294_967_299usize as i32);
    assert_eq!(rows[0].channel_id, 3);
    assert_eq!(rows[0].device_id, i32::MIN);
    assert_eq!(rows[0].record_id, -7);
}
