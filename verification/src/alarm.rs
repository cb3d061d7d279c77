//! Threshold alarms: a low alarm is active while the value is below its
//! setpoint, a high alarm while the value is above it.

use crate::binary32::Binary32;
use vstd::prelude::*;
use vstd::string::StringExecFns;

verus! {

/// Direction of a threshold alarm.
#[derive(Clone, Copy, Debug, PartialEq, Eq, Structural)]
pub enum AlarmType {
    High,
    Low,
}

impl AlarmType {
    /// The text shown for this direction.
    pub open spec fn spec_name(&self) -> Seq<char> {
        match self {
            AlarmType::Low => "Low"@,
            AlarmType::High => "High"@,
        }
    }

    pub fn name(&self) -> (out: String)
        ensures
            out@ == self.spec_name(),
    {
        match self {
            AlarmType::Low => String::from_str("Low"),
            AlarmType::High => String::from_str("High"),
        }
    }
}

/// One threshold with its state. `active` is derived from the latest value
/// each time the alarm is processed while enabled; while disabled it keeps
/// the flag it had.
#[derive(Clone, Copy, Debug, PartialEq, Eq, Structural)]
pub struct Alarm {
    pub alarm_type: AlarmType,
    pub active: bool,
    pub enabled: bool,
    pub setpoint: Binary32,
}

impl Alarm {
    /// Whether `value` lies beyond the setpoint in the alarm's direction.
    /// There is no dead band: a value equal to the setpoint is on the quiet
    /// side, and so is a NaN.
    pub open spec fn crossed_by(&self, value: Binary32) -> bool {
        match self.alarm_type {
            AlarmType::Low => value.less_than(self.setpoint),
            AlarmType::High => value.greater_than(self.setpoint),
        }
    }

    /// An enabled alarm after it took `value`: its flag is recomputed.
    pub open spec fn processed(&self, value: Binary32) -> Alarm {
        Alarm { active: self.crossed_by(value), ..*self }
    }

    /// The alarm after it took `value`: recomputed when enabled, untouched
    /// when disabled.
    pub open spec fn evaluated(&self, value: Binary32) -> Alarm {
        if self.enabled {
            self.processed(value)
        } else {
            *self
        }
    }

    /// A disabled, inactive alarm of the given direction with setpoint zero.
    pub fn new(alarm_type: AlarmType) -> (out: Alarm)
        ensures
            out == (Alarm { alarm_type, active: false, enabled: false, setpoint: Binary32 { bits: 0 } }),
    {
        Alarm { alarm_type, active: false, enabled: false, setpoint: Binary32::zero() }
    }

    /// Takes the latest value of the channel. An enabled alarm recomputes
    /// its flag from the value; a disabled alarm is skipped: its flag stays
    /// as it last was, neither cleared nor recomputed, until the alarm is
    /// enabled and processed again.
    pub fn process_alarm(&mut self, value: Binary32)
        ensures
            *final(self) == old(self).evaluated(value),
    {
        if self.enabled {
            match self.alarm_type {
                AlarmType::Low => {
                    self.active = value.lt(self.setpoint);
                },
                AlarmType::High => {
                    self.active = value.gt(self.setpoint);
                },
            }
        }
    }
}

impl Default for Alarm {
    fn default() -> (out: Alarm)
        ensures
            out == (Alarm {
                alarm_type: AlarmType::High,
                active: false,
                enabled: false,
                setpoint: Binary32 { bits: 0 },
            }),
    {
        Alarm::new(AlarmType::High)
    }
}

/// The two independent alarms of a channel.
#[derive(Clone, Copy, Debug, PartialEq, Eq, Structural)]
pub struct ChannelAlarm {
    pub low: Alarm,
    pub high: Alarm,
}

impl ChannelAlarm {
    /// A disabled, inactive pair with both setpoints zero.
    pub open spec fn default_spec() -> ChannelAlarm {
        ChannelAlarm {
            low: Alarm {
                alarm_type: AlarmType::Low,
                active: false,
                enabled: false,
                setpoint: Binary32 { bits: 0 },
            },
            high: Alarm {
                alarm_type: AlarmType::High,
                active: false,
                enabled: false,
                setpoint: Binary32 { bits: 0 },
            },
        }
    }

    /// Both alarms after one evaluation against `value`.
    pub open spec fn evaluated(&self, value: Binary32) -> ChannelAlarm {
        ChannelAlarm { low: self.low.evaluated(value), high: self.high.evaluated(value) }
    }

    /// Evaluates each alarm on its own.
    pub fn evaluate(&mut self, value: Binary32)
        ensures
            *final(self) == old(self).evaluated(value),
    {
        self.low.process_alarm(value);
        self.high.process_alarm(value);
    }
}

impl Default for ChannelAlarm {
    fn default() -> (out: ChannelAlarm)
        ensures
            out == ChannelAlarm::default_spec(),
    {
        ChannelAlarm { low: Alarm::new(AlarmType::Low), high: Alarm::new(AlarmType::High) }
    }
}

/// An enabled low alarm is active after an evaluation exactly when the value
/// is below the setpoint, an enabled high alarm exactly when it is above; a
/// disabled alarm comes out of an evaluation as it went in.
pub proof fn lemma_evaluation(alarm: Alarm, value: Binary32)
    ensures
        alarm.enabled && alarm.alarm_type == AlarmType::Low ==> alarm.evaluated(value).active
            == value.less_than(alarm.setpoint),
        alarm.enabled && alarm.alarm_type == AlarmType::High ==> alarm.evaluated(value).active
            == value.greater_than(alarm.setpoint),
        !alarm.enabled ==> alarm.evaluated(value) == alarm,
        alarm.evaluated(value).enabled == alarm.enabled,
        alarm.evaluated(value).setpoint == alarm.setpoint,
        alarm.evaluated(value).alarm_type == alarm.alarm_type,
{
}

/// No value sets off both alarms of a pair that share one setpoint.
pub proof fn lemma_one_side_at_most(low: Alarm, high: Alarm, value: Binary32)
    requires
        low.alarm_type == AlarmType::Low,
        high.alarm_type == AlarmType::High,
        low.setpoint == high.setpoint,
    ensures
        !(low.crossed_by(value) && high.crossed_by(value)),
{
}

} // verus!
