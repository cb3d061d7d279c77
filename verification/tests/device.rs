use prussian_studio::binary32::Binary32;
use prussian_studio::channel::{AccessType, ValueType};
use prussian_studio::config::{DeviceConfig, Parity, SerialConfig, TcpConfig};
use prussian_studio::controller::{newest, route_write, take_report, write_channel_from_hmi};
use prussian_studio::device::{
    clone_channels, clone_devices, DataBlock, Device, DeviceMsg, DeviceType, JsonWriteChannel,
    DEVICE_NUM_CHANNELS,
};

fn number(x: f32) -> Binary32 {
    Binary32::from_bits(x.to_bits())
}

#[test]
fn fresh_device_has_twenty_blank_channels() {
    let device = Device::initialize(3, "PLC".to_owned());
    assert_eq!(device.id, 3);
    assert_eq!(device.name, "PLC");
    assert_eq!(device.device_type, DeviceType::Modbus);
    assert_eq!(
        device.config,
        DeviceConfig::Tcp(TcpConfig { address: "127.0.0.1".to_owned(), port: 502 })
    );
    assert_eq!(device.channels.len(), DEVICE_NUM_CHANNELS);
    assert_eq!(device.channels.len(), 20);
    for (position, channel) in device.channels.iter().enumerate() {
        assert_eq!(channel.id, position);
        assert_eq!(channel.device_id, 3);
        assert_eq!(channel.value_type, ValueType::Int16);
        assert_eq!(channel.access_type, AccessType::Read);
        assert!(!channel.enabled);
        assert_eq!(channel.status, "Initialized");
    }
    assert!(device.data_block.holding_regs.is_empty());
    assert_eq!(device.status, "Initialized");
    assert_eq!(device.scan_rate, 1);
}

#[test]
fn default_device() {
    let device = Device::default();
    assert_eq!(device.id, 0);
    assert_eq!(device.name, "");
    assert_eq!(device.channels.len(), 20);
    assert_eq!(device.channels[19].id, 19);
    assert_eq!(device.channels[19].device_id, 0);
    assert_eq!(device, Device::initialize(0, String::new()));
}

#[test]
fn new_device_keeps_what_it_is_given() {
    let config = DeviceConfig::Serial(SerialConfig {
        com_port: "/dev/ttyUSB0".to_owned(),
        baudrate: 9600,
        slave: 4,
        parity: Parity::Even,
    });
    let device = Device::new(
        5,
        "meter".to_owned(),
        DeviceType::OpcServer,
        config.clone(),
        Vec::new(),
        DataBlock { holding_regs: vec![1, -2] },
        30,
        "idle".to_owned(),
    );
    assert_eq!(device.id, 5);
    assert_eq!(device.name, "meter");
    assert_eq!(device.device_type, DeviceType::OpcServer);
    assert_eq!(device.config, config);
    assert!(device.channels.is_empty());
    assert_eq!(device.data_block.holding_regs, vec![1, -2]);
    assert_eq!(device.scan_rate, 30);
    assert_eq!(device.status, "idle");
}

#[test]
fn config_defaults() {
    assert_eq!(
        DeviceConfig::default(),
        DeviceConfig::Tcp(TcpConfig { address: "127.0.0.1".to_owned(), port: 502 })
    );
    assert_eq!(TcpConfig::default(), TcpConfig { address: String::new(), port: 0 });
}

#[test]
fn copies_are_equal() {
    let mut device = Device::initialize(1, "unit".to_owned());
    device.channels[4].tag = "pressure".to_owned();
    device.channels[4].value = number(3.5);
    device.data_block.holding_regs = vec![7, 8, 9];
    assert_eq!(device.clone(), device);
    assert_eq!(clone_channels(&device.channels), device.channels);
    let snapshot = vec![device, Device::default()];
    assert_eq!(clone_devices(&snapshot), snapshot);
    let message = DeviceMsg::Reconnect(DeviceConfig::default());
    assert_eq!(message.clone(), message);
}

#[test]
fn write_to_a_writable_channel_replaces_its_value() {
    let mut device = Device::initialize(0, "unit".to_owned());
    device.channels[2].access_type = AccessType::Write;
    let request = JsonWriteChannel { device_id: 0, channel: 2, value: number(12.5) };
    let before = device.clone();
    assert!(device.apply_write(&request));
    assert_eq!(device.channels[2].value, number(12.5));
    let mut expected = before;
    expected.channels[2].value = number(12.5);
    assert_eq!(device, expected);
}

#[test]
fn write_to_a_read_only_channel_changes_nothing() {
    let mut device = Device::initialize(0, "unit".to_owned());
    device.channels[2].value = number(4.0);
    let before = device.clone();
    let request = JsonWriteChannel { device_id: 0, channel: 2, value: number(12.5) };
    assert!(!device.apply_write(&request));
    assert_eq!(device, before);
    assert_eq!(device.channels[2].value, number(4.0));
}

#[test]
fn write_to_a_missing_channel_changes_nothing() {
    let mut device = Device::initialize(0, "unit".to_owned());
    let before = device.clone();
    let request = JsonWriteChannel { device_id: 0, channel: 20, value: number(12.5) };
    assert!(!device.apply_write(&request));
    assert_eq!(device, before);
}

#[test]
fn snapshot_takes_a_write_for_the_addressed_device() {
    let mut devices =
        vec![Device::initialize(0, "a".to_owned()), Device::initialize(1, "b".to_owned())];
    devices[1].channels[0].access_type = AccessType::Write;
    let before = clone_devices(&devices);
    let request = JsonWriteChannel { device_id: 1, channel: 0, value: number(2.0) };
    assert!(write_channel_from_hmi(&mut devices, &request));
    assert_eq!(devices[0], before[0]);
    assert_eq!(devices[1].channels[0].value, number(2.0));
    let request = JsonWriteChannel { device_id: 0, channel: 0, value: number(2.0) };
    assert!(!write_channel_from_hmi(&mut devices, &request));
    assert_eq!(devices[0], before[0]);
    let request = JsonWriteChannel { device_id: 2, channel: 0, value: number(2.0) };
    assert!(!write_channel_from_hmi(&mut devices, &request));
    assert_eq!(devices.len(), 2);
}

#[test]
fn write_requests_go_to_the_worker_of_their_device() {
    let request = JsonWriteChannel { device_id: 1, channel: 0, value: number(2.0) };
    assert_eq!(route_write(&request, 2), Some(1));
    assert_eq!(route_write(&request, 1), None);
    assert_eq!(route_write(&request, 0), None);
}

#[test]
fn alarms_of_every_channel_are_evaluated() {
    let mut device = Device::initialize(0, "unit".to_owned());
    device.channels[0].alarm.low.enabled = true;
    device.channels[0].alarm.low.setpoint = number(50.0);
    device.channels[0].value = number(49.9);
    device.channels[1].alarm.high.enabled = true;
    device.channels[1].alarm.high.setpoint = number(50.0);
    device.channels[1].value = number(50.1);
    device.channels[2].alarm.high.setpoint = number(50.0);
    device.channels[2].value = number(50.1);
    device.evaluate_alarms();
    assert!(device.channels[0].alarm.low.active);
    assert!(!device.channels[0].alarm.high.active);
    assert!(device.channels[1].alarm.high.active);
    assert!(!device.channels[2].alarm.high.active);
    assert_eq!(device.channels[0].value, number(49.9));
}

#[test]
fn controller_takes_the_workers_own_device_only() {
    let mut devices =
        vec![Device::initialize(0, "a".to_owned()), Device::initialize(1, "b".to_owned())];
    let mut report = clone_devices(&devices);
    report[0].status = "stale".to_owned();
    report[1].status = "Connected.".to_owned();
    report[1].channels[0].value = number(8.0);
    assert!(take_report(&mut devices, 1, &report));
    assert_eq!(devices[0].status, "Initialized");
    assert_eq!(devices[1], report[1]);
    assert!(!take_report(&mut devices, 2, &report));
    report.truncate(1);
    report[0].status = "short".to_owned();
    assert!(!take_report(&mut devices, 1, &report));
    assert_eq!(devices[1].status, "Connected.");
    assert!(take_report(&mut devices, 0, &report));
    assert_eq!(devices[0].status, "short");
    assert_eq!(devices.len(), 2);
}

#[test]
fn the_newest_snapshot_counts() {
    let one = vec![Device::initialize(0, "one".to_owned())];
    let two = vec![Device::initialize(0, "two".to_owned())];
    let three = vec![Device::initialize(0, "three".to_owned()), Device::default()];
    assert_eq!(newest(Vec::new()), None);
    assert_eq!(newest(vec![clone_devices(&one)]), Some(clone_devices(&one)));
    assert_eq!(
        newest(vec![clone_devices(&one), clone_devices(&two), clone_devices(&three)]),
        Some(three)
    );
    assert_eq!(newest(vec![clone_devices(&two), clone_devices(&one)]), Some(one));
    assert_eq!(newest(vec![Vec::new()]), Some(Vec::new()));
}
