use prussian_studio::alarm::{Alarm, AlarmType, ChannelAlarm};
use prussian_studio::binary32::Binary32;

fn number(x: f32) -> Binary32 {
    Binary32::from_bits(x.to_bits())
}

fn alarm(alarm_type: AlarmType, enabled: bool, setpoint: f32) -> Alarm {
    Alarm { alarm_type, active: false, enabled, setpoint: number(setpoint) }
}

#[test]
fn value_below_setpoint_sets_off_the_low_alarm_only() {
    let mut alarms = ChannelAlarm {
        low: alarm(AlarmType::Low, true, 50.0),
        high: alarm(AlarmType::High, true, 50.0),
    };
    alarms.evaluate(number(49.9));
    assert!(alarms.low.active);
    assert!(!alarms.high.active);
}

#[test]
fn value_above_setpoint_sets_off_the_high_alarm_only() {
    let mut alarms = ChannelAlarm {
        low: alarm(AlarmType::Low, true, 50.0),
        high: alarm(AlarmType::High, true, 50.0),
    };
    alarms.evaluate(number(50.1));
    assert!(alarms.high.active);
    assert!(!alarms.low.active);
}

#[test]
fn value_on_the_setpoint_is_quiet() {
    let mut alarms = ChannelAlarm {
        low: alarm(AlarmType::Low, true, 50.0),
        high: alarm(AlarmType::High, true, 50.0),
    };
    alarms.evaluate(number(49.0));
    alarms.evaluate(number(50.0));
    assert!(!alarms.low.active);
    assert!(!alarms.high.active);
}

#[test]
fn disabled_alarm_keeps_its_flag() {
    let mut low = alarm(AlarmType::Low, true, 50.0);
    low.process_alarm(number(49.9));
    assert!(low.active);
    low.enabled = false;
    low.process_alarm(number(80.0));
    assert!(low.active);
    low.enabled = true;
    low.process_alarm(number(80.0));
    assert!(!low.active);

    let mut high = alarm(AlarmType::High, false, 50.0);
    high.process_alarm(number(99.0));
    assert!(!high.active);
}

#[test]
fn process_alarm_follows_the_value_while_enabled() {
    let mut high = alarm(AlarmType::High, true, 50.0);
    high.process_alarm(number(50.1));
    assert!(high.active);
    high.process_alarm(number(50.0));
    assert!(!high.active);
    let mut low = alarm(AlarmType::Low, true, 50.0);
    low.process_alarm(number(-3.0));
    assert!(low.active);
    assert!(low.enabled);
    assert_eq!(low.setpoint, number(50.0));
    assert_eq!(low.alarm_type, AlarmType::Low);
    low.process_alarm(number(50.1));
    assert!(!low.active);
}

#[test]
fn process_alarm_skips_a_disabled_alarm() {
    let mut low = Alarm {
        alarm_type: AlarmType::Low,
        active: true,
        enabled: false,
        setpoint: number(50.0),
    };
    let before = low;
    low.process_alarm(number(50.1));
    assert_eq!(low, before);
    assert!(low.active);
    low.process_alarm(number(f32::NAN));
    assert_eq!(low, before);
    let mut high = alarm(AlarmType::High, false, 50.0);
    high.process_alarm(number(99.0));
    assert!(!high.active);
    assert_eq!(high, alarm(AlarmType::High, false, 50.0));
    high.enabled = true;
    high.process_alarm(number(99.0));
    assert!(high.active);
    high.enabled = false;
    high.process_alarm(number(1.0));
    assert!(high.active);
}

#[test]
fn nan_sets_off_nothing() {
    let mut alarms = ChannelAlarm {
        low: alarm(AlarmType::Low, true, 50.0),
        high: alarm(AlarmType::High, true, 50.0),
    };
    alarms.evaluate(number(f32::NAN));
    assert!(!alarms.low.active);
    assert!(!alarms.high.active);
}

#[test]
fn alarm_defaults() {
    let alarm = Alarm::default();
    assert_eq!(alarm.alarm_type, AlarmType::High);
    assert!(!alarm.active);
    assert!(!alarm.enabled);
    assert_eq!(alarm.setpoint, number(0.0));
    let pair = ChannelAlarm::default();
    assert_eq!(pair.low.alarm_type, AlarmType::Low);
    assert_eq!(pair.high.alarm_type, AlarmType::High);
    assert_eq!(Alarm::new(AlarmType::Low), pair.low);
}

#[test]
fn alarm_type_names() {
    assert_eq!(AlarmType::Low.name(), "Low");
    assert_eq!(AlarmType::High.name(), "High");
}
