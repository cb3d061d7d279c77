use prussian_studio::alarm::ChannelAlarm;
use prussian_studio::binary32::Binary32;
use prussian_studio::channel::{
    decode_coil, decode_words, AccessType, Channel, ReadReply, ReadRequest, ValueType,
    WriteCommand, WriteOutcome,
};

fn number(x: f32) -> Binary32 {
    Binary32::from_bits(x.to_bits())
}

fn channel(value_type: ValueType, index: u16) -> Channel {
    let mut channel = Channel::new(
        3,
        value_type,
        AccessType::Write,
        index,
        "tag".to_owned(),
        "Initialized".to_owned(),
    );
    channel.enabled = true;
    channel
}

#[test]
fn new_channel_starts_at_zero() {
    let channel = Channel::new(
        7,
        ValueType::Real32,
        AccessType::Write,
        40,
        "flow".to_owned(),
        "fresh".to_owned(),
    );
    assert_eq!(channel.id, 7);
    assert_eq!(channel.device_id, 0);
    assert_eq!(channel.tag, "flow");
    assert_eq!(channel.value_type, ValueType::Real32);
    assert_eq!(channel.access_type, AccessType::Write);
    assert!(!channel.enabled);
    assert_eq!(channel.value, number(0.0));
    assert_eq!(channel.index, 40);
    assert_eq!(channel.status, "fresh");
    assert_eq!(channel.alarm, ChannelAlarm::default());
}

#[test]
fn default_channel_is_blank() {
    let channel = Channel::default();
    assert_eq!(channel.id, 0);
    assert_eq!(channel.tag, "");
    assert_eq!(channel.value_type, ValueType::Int16);
    assert_eq!(channel.access_type, AccessType::Read);
    assert_eq!(channel.value, number(0.0));
    assert_eq!(channel.index, 0);
    assert_eq!(channel.status, "Initialized");
    assert!(!channel.enabled);
    assert_eq!(Channel::blank(4, 2).id, 4);
    assert_eq!(Channel::blank(4, 2).device_id, 2);
    assert_eq!(channel.clone(), channel);
}

#[test]
fn kind_and_mode_names() {
    assert_eq!(ValueType::Int16.name(), "Int");
    assert_eq!(ValueType::Real32.name(), "Real");
    assert_eq!(ValueType::BoolType.name(), "Bool");
    assert_eq!(AccessType::Read.name(), "Read");
    assert_eq!(AccessType::Write.name(), "Write");
    assert_eq!(ValueType::default(), ValueType::Int16);
    assert_eq!(AccessType::default(), AccessType::Read);
    assert_eq!(ValueType::Int16.width(), 1);
    assert_eq!(ValueType::Real32.width(), 2);
    assert_eq!(ValueType::BoolType.width(), 1);
}

#[test]
fn read_requests_follow_the_kind() {
    assert_eq!(
        channel(ValueType::Int16, 9).read_request(),
        ReadRequest::HoldingRegisters { address: 9, count: 1 }
    );
    assert_eq!(
        channel(ValueType::Real32, 9).read_request(),
        ReadRequest::HoldingRegisters { address: 9, count: 2 }
    );
    assert_eq!(
        channel(ValueType::BoolType, 9).read_request(),
        ReadRequest::Coils { address: 9, count: 1 }
    );
}

#[test]
fn asserted_coil_reads_zero_and_clear_coil_reads_one() {
    assert_eq!(decode_coil(true), number(0.0));
    assert_eq!(decode_coil(false), number(1.0));
    let mut coil = channel(ValueType::BoolType, 5);
    coil.read_value(&ReadReply::Coils(vec![false]));
    assert_eq!(coil.value, number(1.0));
    coil.read_value(&ReadReply::Coils(vec![true]));
    assert_eq!(coil.value, number(0.0));
}

#[test]
fn registers_decode_by_kind() {
    let mut int = channel(ValueType::Int16, 5);
    int.read_value(&ReadReply::Registers(vec![40000]));
    assert_eq!(int.value, number(40000.0));
    let mut real = channel(ValueType::Real32, 5);
    real.read_value(&ReadReply::Registers(vec![0x4049, 0x0FDB]));
    assert!((f32::from_bits(real.value.to_bits()) - 3.14159).abs() < 1e-5);
}

#[test]
fn unusable_reply_leaves_the_value() {
    let mut int = channel(ValueType::Int16, 5);
    int.value = number(12.0);
    int.read_value(&ReadReply::Failed);
    assert_eq!(int.value, number(12.0));
    int.read_value(&ReadReply::Registers(vec![]));
    assert_eq!(int.value, number(12.0));
    int.read_value(&ReadReply::Coils(vec![true]));
    assert_eq!(int.value, number(12.0));
    let mut real = channel(ValueType::Real32, 5);
    real.value = number(2.5);
    real.read_value(&ReadReply::Registers(vec![0x4049]));
    assert_eq!(real.value, number(2.5));
    let mut coil = channel(ValueType::BoolType, 5);
    coil.value = number(1.0);
    coil.read_value(&ReadReply::Coils(vec![]));
    assert_eq!(coil.value, number(1.0));
    coil.read_value(&ReadReply::Registers(vec![0]));
    assert_eq!(coil.value, number(1.0));
    assert_eq!(coil.status, "Initialized");
}

#[test]
fn words_decode_at_an_offset() {
    let words = vec![7, 0x4049, 0x0FDB, 1, 2];
    assert_eq!(decode_words(ValueType::Int16, &words, 0), Some(number(7.0)));
    assert_eq!(decode_words(ValueType::Real32, &words, 1), Some(Binary32::from_bits(0x4049_0FDB)));
    assert_eq!(decode_words(ValueType::BoolType, &words, 3), Some(number(0.0)));
    assert_eq!(decode_words(ValueType::BoolType, &words, 4), Some(number(1.0)));
    assert_eq!(decode_words(ValueType::Int16, &words, 5), None);
    assert_eq!(decode_words(ValueType::Real32, &words, 4), None);
    assert_eq!(decode_words(ValueType::Real32, &words, usize::MAX), None);
    assert_eq!(decode_words(ValueType::Int16, &Vec::new(), 0), None);
}

#[test]
fn write_commands_follow_the_kind() {
    assert_eq!(
        channel(ValueType::Int16, 8).write_command(number(123.9)),
        WriteCommand::Register { address: 8, value: 123 }
    );
    assert_eq!(
        channel(ValueType::Real32, 8).write_command(number(70000.0)),
        WriteCommand::Register { address: 8, value: 65535 }
    );
    assert_eq!(
        channel(ValueType::Int16, 8).write_command(number(-5.0)),
        WriteCommand::Register { address: 8, value: 0 }
    );
    assert_eq!(
        channel(ValueType::BoolType, 8).write_command(number(1.0)),
        WriteCommand::Coil { address: 8, state: true }
    );
    assert_eq!(
        channel(ValueType::BoolType, 8).write_command(number(0.4)),
        WriteCommand::Coil { address: 8, state: false }
    );
    assert_eq!(channel(ValueType::BoolType, 8).write_command(number(2.0)), WriteCommand::Refused);
}

#[test]
fn write_outcomes_are_noted_in_the_status() {
    let mut int = channel(ValueType::Int16, 8);
    int.value = number(5.0);
    int.write_value(&WriteOutcome::Written);
    assert_eq!(int.status, "Value written successfully!");
    int.write_value(&WriteOutcome::Failed("timed out".to_owned()));
    assert_eq!(int.status, "ERROR!: timed out");
    assert_eq!(int.value, number(5.0));
    let mut coil = channel(ValueType::BoolType, 8);
    coil.write_value(&WriteOutcome::Failed("timed out".to_owned()));
    assert_eq!(coil.status, "Couldn't write value");
    coil.write_value(&WriteOutcome::Refused);
    assert_eq!(coil.status, "Only bit values are allowed!.");
    coil.write_value(&WriteOutcome::Written);
    assert_eq!(coil.status, "Value written successfully!");
}

#[test]
fn channel_alarms_follow_the_value() {
    let mut int = channel(ValueType::Int16, 8);
    int.alarm.low.enabled = true;
    int.alarm.low.setpoint = number(50.0);
    int.alarm.high.setpoint = number(50.0);
    int.value = number(49.9);
    int.evaluate_alarms();
    assert!(int.alarm.low.active);
    assert!(!int.alarm.high.active);
    int.value = number(50.1);
    int.evaluate_alarms();
    assert!(!int.alarm.low.active);
    assert!(!int.alarm.high.active);
    int.alarm.high.enabled = true;
    int.evaluate_alarms();
    assert!(int.alarm.high.active);
}

#[test]
fn channels_are_labelled_by_position() {
    assert_eq!(Channel::blank(0, 0).label(), "CH0");
    assert_eq!(Channel::blank(12, 3).label(), "CH12");
    assert_eq!(channel(ValueType::Int16, 500).label(), "CH3");
}
