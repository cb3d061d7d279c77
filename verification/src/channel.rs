//! A channel is one named, typed, addressable value of a device.

use crate::alarm::ChannelAlarm;
use crate::binary32::Binary32;
use crate::text::{index_text, write_index};
use vstd::prelude::*;
use vstd::string::StringExecFns;

verus! {

/// How the registers behind a channel are read.
#[derive(Clone, Copy, Debug, PartialEq, Eq, Structural)]
pub enum ValueType {
    /// One 16-bit register.
    Int16,
    /// Two consecutive registers that hold a binary32 number, high word
    /// first.
    Real32,
    /// One coil.
    BoolType,
}

impl ValueType {
    pub open spec fn spec_name(&self) -> Seq<char> {
        match self {
            ValueType::Int16 => "Int"@,
            ValueType::Real32 => "Real"@,
            ValueType::BoolType => "Bool"@,
        }
    }

    /// The text shown for this kind.
    pub fn name(&self) -> (out: String)
        ensures
            out@ == self.spec_name(),
    {
        match self {
            ValueType::Int16 => String::from_str("Int"),
            ValueType::Real32 => String::from_str("Real"),
            ValueType::BoolType => String::from_str("Bool"),
        }
    }

    /// How many consecutive addresses a channel of this kind covers.
    pub open spec fn spec_width(&self) -> u32 {
        match self {
            ValueType::Real32 => 2,
            _ => 1,
        }
    }

    #[verifier::when_used_as_spec(spec_width)]
    pub fn width(&self) -> (out: u32)
        ensures
            out == self.spec_width(),
    {
        match self {
            ValueType::Real32 => 2,
            _ => 1,
        }
    }
}

impl Default for ValueType {
    fn default() -> (out: ValueType)
        ensures
            out == ValueType::Int16,
    {
        ValueType::Int16
    }
}

/// Whether operators may write to a channel.
#[derive(Clone, Copy, Debug, PartialEq, Eq, Structural)]
pub enum AccessType {
    Read,
    Write,
}

impl AccessType {
    pub open spec fn spec_name(&self) -> Seq<char> {
        match self {
            AccessType::Read => "Read"@,
            AccessType::Write => "Write"@,
        }
    }

    /// The text shown for this mode.
    pub fn name(&self) -> (out: String)
        ensures
            out@ == self.spec_name(),
    {
        match self {
            AccessType::Read => String::from_str("Read"),
            AccessType::Write => String::from_str("Write"),
        }
    }
}

impl Default for AccessType {
    fn default() -> (out: AccessType)
        ensures
            out == AccessType::Read,
    {
        AccessType::Read
    }
}

/// One value of a device. `id` is the channel's position in its device;
/// `value` is the last decoded reading.
#[derive(Debug, PartialEq)]
pub struct Channel {
    pub id: usize,
    pub device_id: usize,
    pub tag: String,
    pub value_type: ValueType,
    pub access_type: AccessType,
    pub enabled: bool,
    pub value: Binary32,
    pub index: u16,
    pub status: String,
    pub alarm: ChannelAlarm,
}

/// A channel as the contracts see it: its texts are sequences of characters.
#[verifier::ext_equal]
pub struct ChannelView {
    pub id: usize,
    pub device_id: usize,
    pub tag: Seq<char>,
    pub value_type: ValueType,
    pub access_type: AccessType,
    pub enabled: bool,
    pub value: Binary32,
    pub index: u16,
    pub status: Seq<char>,
    pub alarm: ChannelAlarm,
}

impl View for Channel {
    type V = ChannelView;

    open spec fn view(&self) -> ChannelView {
        ChannelView {
            id: self.id,
            device_id: self.device_id,
            tag: self.tag@,
            value_type: self.value_type,
            access_type: self.access_type,
            enabled: self.enabled,
            value: self.value,
            index: self.index,
            status: self.status@,
            alarm: self.alarm,
        }
    }
}

impl Clone for Channel {
    fn clone(&self) -> (out: Channel)
        ensures
            out == *self,
            out@ == self@,
    {
        Channel {
            id: self.id,
            device_id: self.device_id,
            tag: self.tag.clone(),
            value_type: self.value_type,
            access_type: self.access_type,
            enabled: self.enabled,
            value: self.value,
            index: self.index,
            status: self.status.clone(),
            alarm: self.alarm,
        }
    }
}

impl Channel {
    /// A channel as it is before anything was configured: a disabled,
    /// read-only 16-bit channel at address 0 with value zero.
    pub open spec fn is_blank(&self) -> bool {
        &&& self.tag@ == Seq::<char>::empty()
        &&& self.value_type == ValueType::Int16
        &&& self.access_type == AccessType::Read
        &&& !self.enabled
        &&& self.value.bits == 0
        &&& self.index == 0
        &&& self.status@ == "Initialized"@
        &&& self.alarm == ChannelAlarm::default_spec()
    }

    /// A blank channel at position `id` of device `device_id`.
    pub fn blank(id: usize, device_id: usize) -> (out: Channel)
        ensures
            out.id == id,
            out.device_id == device_id,
            out.is_blank(),
    {
        Channel {
            id,
            device_id,
            tag: String::new(),
            value_type: ValueType::Int16,
            access_type: AccessType::Read,
            enabled: false,
            value: Binary32::zero(),
            index: 0,
            status: String::from_str("Initialized"),
            alarm: ChannelAlarm::default(),
        }
    }

    /// A disabled channel with value zero and untouched alarms.
    pub fn new(
        id: usize,
        value_type: ValueType,
        access_type: AccessType,
        index: u16,
        tag: String,
        status: String,
    ) -> (out: Channel)
        ensures
            out == (Channel {
                id,
                device_id: 0,
                tag,
                value_type,
                access_type,
                enabled: false,
                value: Binary32 { bits: 0 },
                index,
                status,
                alarm: ChannelAlarm::default_spec(),
            }),
    {
        Channel {
            id,
            device_id: 0,
            tag,
            value_type,
            access_type,
            enabled: false,
            value: Binary32::zero(),
            index,
            status,
            alarm: ChannelAlarm::default(),
        }
    }
}

/// What to ask of a device to refresh one channel on its own.
#[derive(Clone, Copy, Debug, PartialEq, Eq, Structural)]
pub enum ReadRequest {
    HoldingRegisters { address: u16, count: u16 },
    Coils { address: u16, count: u16 },
}

/// What a device answered to a read.
#[derive(Debug, PartialEq)]
pub enum ReadReply {
    Registers(Vec<u16>),
    Coils(Vec<bool>),
    /// The read failed; nothing came back.
    Failed,
}

/// What to send to a device to write one channel.
#[derive(Clone, Copy, Debug, PartialEq, Eq, Structural)]
pub enum WriteCommand {
    Register { address: u16, value: u16 },
    Coil { address: u16, state: bool },
    /// Nothing is sent: a coil takes the values 0 and 1 only.
    Refused,
}

/// How a write ended.
#[derive(Debug, PartialEq)]
pub enum WriteOutcome {
    Written,
    /// The device or the transport refused; the text says why.
    Failed(String),
    /// Nothing was sent, see [`WriteCommand::Refused`].
    Refused,
}

/// The value that stands for a coil: by convention an asserted coil reads
/// as zero and a clear coil as one.
pub open spec fn coil_reading(asserted: bool) -> Binary32 {
    if asserted {
        Binary32 { bits: 0 }
    } else {
        Binary32 { bits: 0x3f80_0000 }
    }
}

/// `value` is what a channel of kind `value_type` reads from `words`, the
/// registers from its own address on. A 16-bit channel reads the first word
/// as a plain magnitude, a 32-bit channel reads two words with the high
/// half first, and a coil is the lowest bit of the first word.
pub open spec fn is_reading(value_type: ValueType, words: Seq<u16>, value: Binary32) -> bool {
    match value_type {
        ValueType::Int16 => words.len() >= 1 && value.holds_integer(words[0] as int),
        ValueType::Real32 => words.len() >= 2 && value.bits == words[0] * 0x1_0000 + words[1],
        ValueType::BoolType => words.len() >= 1 && value == coil_reading(words[0] % 2 == 1),
    }
}

/// The number that a coil state stands for.
pub fn decode_coil(asserted: bool) -> (out: Binary32)
    ensures
        out == coil_reading(asserted),
{
    if asserted {
        Binary32::zero()
    } else {
        Binary32::one()
    }
}

/// Decodes the registers at `offset` of `words` for a channel of kind
/// `value_type`; `None` when the words do not reach that far.
pub fn decode_words(value_type: ValueType, words: &Vec<u16>, offset: usize) -> (out: Option<
    Binary32,
>)
    ensures
        out is Some <==> offset + value_type.spec_width() <= words.len(),
        out matches Some(value) ==> is_reading(value_type, words@.skip(offset as int), value),
{
    let width: usize = match value_type {
        ValueType::Real32 => 2,
        _ => 1,
    };
    if offset >= words.len() || words.len() - offset < width {
        return None;
    }
    let first = words[offset];
    match value_type {
        ValueType::Int16 => Some(Binary32::from_u16(first)),
        ValueType::Real32 => {
            Some(Binary32::from_words(first, words[offset + 1]))
        },
        ValueType::BoolType => Some(decode_coil(first % 2 == 1)),
    }
}

impl ChannelView {
    /// What writing `value` to a channel of this kind and address sends.
    pub open spec fn command_for(&self, value: Binary32) -> WriteCommand {
        match self.value_type {
            ValueType::BoolType => if value.truncated() == 1 {
                WriteCommand::Coil { address: self.index, state: true }
            } else if value.truncated() == 0 {
                WriteCommand::Coil { address: self.index, state: false }
            } else {
                WriteCommand::Refused
            },
            _ => WriteCommand::Register { address: self.index, value: value.truncated() as u16 },
        }
    }

    /// The status text that a write leaves on a channel of this kind.
    pub open spec fn write_status(&self, outcome: WriteOutcome) -> Seq<char> {
        match outcome {
            WriteOutcome::Written => "Value written successfully!"@,
            WriteOutcome::Refused => "Only bit values are allowed!."@,
            WriteOutcome::Failed(cause) => match self.value_type {
                ValueType::BoolType => "Couldn't write value"@,
                _ => "ERROR!: "@ + cause@,
            },
        }
    }
}

impl Channel {
    /// The read that refreshes this channel alone.
    pub fn read_request(&self) -> (out: ReadRequest)
        ensures
            out == match self.value_type {
                ValueType::Int16 => ReadRequest::HoldingRegisters { address: self.index, count: 1 },
                ValueType::Real32 => ReadRequest::HoldingRegisters { address: self.index, count: 2 },
                ValueType::BoolType => ReadRequest::Coils { address: self.index, count: 1 },
            },
    {
        match self.value_type {
            ValueType::Int16 => ReadRequest::HoldingRegisters { address: self.index, count: 1 },
            ValueType::Real32 => ReadRequest::HoldingRegisters { address: self.index, count: 2 },
            ValueType::BoolType => ReadRequest::Coils { address: self.index, count: 1 },
        }
    }

    /// Whether `reply` holds what a channel of this kind decodes.
    pub open spec fn accepts(&self, reply: ReadReply) -> bool {
        match (self.value_type, reply) {
            (ValueType::Int16, ReadReply::Registers(words)) => words@.len() >= 1,
            (ValueType::Real32, ReadReply::Registers(words)) => words@.len() >= 2,
            (ValueType::BoolType, ReadReply::Coils(states)) => states@.len() >= 1,
            _ => false,
        }
    }

    /// Takes the answer to [`Channel::read_request`]. A reply that decodes
    /// replaces the value; a failed, short or foreign reply leaves the
    /// channel as it was.
    pub fn read_value(&mut self, reply: &ReadReply)
        ensures
            final(self)@ == (ChannelView { value: final(self).value, ..old(self)@ }),
            !old(self).accepts(*reply) ==> final(self).value == old(self).value,
            old(self).accepts(*reply) ==> match *reply {
                ReadReply::Registers(words) => is_reading(
                    old(self).value_type,
                    words@,
                    final(self).value,
                ),
                ReadReply::Coils(states) => final(self).value == coil_reading(states@[0]),
                ReadReply::Failed => false,
            },
    {
        match reply {
            ReadReply::Registers(words) => {
                match self.value_type {
                    ValueType::BoolType => {},
                    _ => {
                        match decode_words(self.value_type, words, 0) {
                            Some(value) => {
                                self.value = value;
                            },
                            None => {},
                        }
                    },
                }
            },
            ReadReply::Coils(states) => {
                match self.value_type {
                    ValueType::BoolType => {
                        if states.len() >= 1 {
                            self.value = decode_coil(states[0]);
                        }
                    },
                    _ => {},
                }
            },
            ReadReply::Failed => {},
        }
    }

    /// The command that writes `value` to this channel. A register takes the
    /// value cut to an unsigned word, also for a 32-bit channel; a coil
    /// takes 0 or 1.
    pub fn write_command(&self, value: Binary32) -> (out: WriteCommand)
        ensures
            out == self@.command_for(value),
    {
        let word = value.to_u16();
        match self.value_type {
            ValueType::BoolType => {
                if word == 1 {
                    WriteCommand::Coil { address: self.index, state: true }
                } else if word == 0 {
                    WriteCommand::Coil { address: self.index, state: false }
                } else {
                    WriteCommand::Refused
                }
            },
            _ => WriteCommand::Register { address: self.index, value: word },
        }
    }

    /// Records how a write ended in the channel's status. Nothing else
    /// changes: the value is refreshed by the next read.
    pub fn write_value(&mut self, outcome: &WriteOutcome)
        ensures
            final(self)@ == (ChannelView {
                status: old(self)@.write_status(*outcome),
                ..old(self)@
            }),
    {
        match outcome {
            WriteOutcome::Written => {
                self.status = String::from_str("Value written successfully!");
            },
            WriteOutcome::Refused => {
                self.status = String::from_str("Only bit values are allowed!.");
            },
            WriteOutcome::Failed(cause) => {
                match self.value_type {
                    ValueType::BoolType => {
                        self.status = String::from_str("Couldn't write value");
                    },
                    _ => {
                        self.status = String::from_str("ERROR!: ").concat(cause.as_str());
                    },
                }
            },
        }
    }

    /// The name under which the channel is shown: `CH` and its position.
    pub fn label(&self) -> (out: String)
        ensures
            out@ == "CH"@ + index_text(self.id as nat),
    {
        write_index(String::from_str("CH"), self.id)
    }

    /// Evaluates both alarms against the current value.
    pub fn evaluate_alarms(&mut self)
        ensures
            final(self)@ == (ChannelView {
                alarm: old(self).alarm.evaluated(old(self).value),
                ..old(self)@
            }),
    {
        let value = self.value;
        self.alarm.evaluate(value);
    }
}

impl Default for Channel {
    fn default() -> (out: Channel)
        ensures
            out.id == 0,
            out.device_id == 0,
            out.is_blank(),
    {
        Channel::blank(0, 0)
    }
}

} // verus!
