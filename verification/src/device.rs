//! A device is a field unit with an endpoint and an ordered list of
//! channels. This module also holds the register window, the one bulk read
//! that covers every enabled channel of a device, and the decoding of its
//! reply.

use crate::binary32::Binary32;
use crate::channel::{AccessType, Channel, ChannelView};
use crate::config::{DeviceConfig, TcpConfig};
use vstd::prelude::*;
use vstd::string::StringExecFns;

verus! {

/// How many channels a fresh device has.
pub const DEVICE_NUM_CHANNELS: usize = 20;

/// Raw holding registers kept with a device.
#[derive(Debug, PartialEq)]
pub struct DataBlock {
    pub holding_regs: Vec<i16>,
}

impl Clone for DataBlock {
    fn clone(&self) -> (out: DataBlock)
        ensures
            out.holding_regs@ == self.holding_regs@,
    {
        let mut holding_regs: Vec<i16> = Vec::new();
        let mut i: usize = 0;
        while i < self.holding_regs.len()
            invariant
                i <= self.holding_regs.len(),
                holding_regs@ == self.holding_regs@.take(i as int),
            decreases self.holding_regs.len() - i,
        {
            holding_regs.push(self.holding_regs[i]);
            i += 1;
        }
        DataBlock { holding_regs }
    }
}

/// An operator's request to write one channel of one device.
#[derive(Clone, Copy, Debug, PartialEq, Eq, Structural)]
pub struct JsonWriteChannel {
    pub device_id: usize,
    pub channel: usize,
    pub value: Binary32,
}

/// A control message from the controller to a worker.
#[derive(Debug, PartialEq)]
pub enum DeviceMsg {
    /// Take this endpoint and open the connection anew.
    Reconnect(DeviceConfig),
    /// Write one channel.
    WriteChannel(JsonWriteChannel),
}

impl Clone for DeviceMsg {
    fn clone(&self) -> (out: DeviceMsg)
        ensures
            out == *self,
    {
        match self {
            DeviceMsg::Reconnect(config) => DeviceMsg::Reconnect(config.clone()),
            DeviceMsg::WriteChannel(request) => DeviceMsg::WriteChannel(*request),
        }
    }
}

/// The protocol family of a device.
#[derive(Clone, Copy, Debug, PartialEq, Eq, Structural)]
pub enum DeviceType {
    Modbus,
    OpcServer,
    WebSocketServer,
}

/// A field device. A channel's position in `channels` is its id; channels
/// are never reordered.
#[derive(Debug, PartialEq)]
pub struct Device {
    pub id: usize,
    pub name: String,
    pub device_type: DeviceType,
    pub config: DeviceConfig,
    pub channels: Vec<Channel>,
    pub data_block: DataBlock,
    pub scan_rate: u64,
    pub status: String,
}

/// A device as the contracts see it.
#[verifier::ext_equal]
pub struct DeviceView {
    pub id: usize,
    pub name: Seq<char>,
    pub device_type: DeviceType,
    pub config: DeviceConfig,
    pub channels: Seq<ChannelView>,
    pub holding_regs: Seq<i16>,
    pub scan_rate: u64,
    pub status: Seq<char>,
}

/// The channels of a vector as the contracts see them.
pub open spec fn channel_views(channels: Seq<Channel>) -> Seq<ChannelView> {
    channels.map_values(|channel: Channel| channel@)
}

/// The devices of a snapshot as the contracts see them.
pub open spec fn device_views(devices: Seq<Device>) -> Seq<DeviceView> {
    devices.map_values(|device: Device| device@)
}

impl View for Device {
    type V = DeviceView;

    open spec fn view(&self) -> DeviceView {
        DeviceView {
            id: self.id,
            name: self.name@,
            device_type: self.device_type,
            config: self.config,
            channels: channel_views(self.channels@),
            holding_regs: self.data_block.holding_regs@,
            scan_rate: self.scan_rate,
            status: self.status@,
        }
    }
}

/// A copy of a list of channels.
pub fn clone_channels(channels: &Vec<Channel>) -> (out: Vec<Channel>)
    ensures
        channel_views(out@) == channel_views(channels@),
{
    let mut out: Vec<Channel> = Vec::new();
    let mut i: usize = 0;
    while i < channels.len()
        invariant
            i <= channels.len(),
            out@.len() == i,
            forall|k: int| 0 <= k < i ==> (#[trigger] out@[k])@ == channels@[k]@,
        decreases channels.len() - i,
    {
        out.push(channels[i].clone());
        i += 1;
    }
    out
}

/// A copy of a snapshot.
pub fn clone_devices(devices: &Vec<Device>) -> (out: Vec<Device>)
    ensures
        device_views(out@) == device_views(devices@),
{
    let mut out: Vec<Device> = Vec::new();
    let mut i: usize = 0;
    while i < devices.len()
        invariant
            i <= devices.len(),
            out@.len() == i,
            forall|k: int| 0 <= k < i ==> (#[trigger] out@[k])@ == devices@[k]@,
        decreases devices.len() - i,
    {
        out.push(devices[i].clone());
        i += 1;
    }
    out
}

impl Clone for Device {
    fn clone(&self) -> (out: Device)
        ensures
            out@ == self@,
    {
        Device {
            id: self.id,
            name: self.name.clone(),
            device_type: self.device_type,
            config: self.config.clone(),
            channels: clone_channels(&self.channels),
            data_block: self.data_block.clone(),
            scan_rate: self.scan_rate,
            status: self.status.clone(),
        }
    }
}

impl Device {
    pub fn new(
        id: usize,
        name: String,
        device_type: DeviceType,
        config: DeviceConfig,
        channels: Vec<Channel>,
        data_block: DataBlock,
        scan_rate: u64,
        status: String,
    ) -> (out: Device)
        ensures
            out == (Device {
                id,
                name,
                device_type,
                config,
                channels,
                data_block,
                scan_rate,
                status,
            }),
    {
        Device { id, name, device_type, config, channels, data_block, scan_rate, status }
    }

    /// A device as [`Device::initialize`] makes it: twenty blank channels
    /// numbered by position, the local endpoint, one second between scans.
    pub open spec fn is_fresh(&self) -> bool {
        &&& self.device_type == DeviceType::Modbus
        &&& self.config.is_local_default()
        &&& self.channels@.len() == DEVICE_NUM_CHANNELS
        &&& forall|i: int|
            0 <= i < self.channels@.len() ==> {
                &&& (#[trigger] self.channels@[i]).id == i
                &&& self.channels@[i].is_blank()
            }
        &&& self.data_block.holding_regs@.len() == 0
        &&& self.status@ == "Initialized"@
        &&& self.scan_rate == 1
    }

    /// A fresh device with the given id and name; its channels carry the
    /// device's id.
    pub fn initialize(id: usize, name: String) -> (out: Device)
        ensures
            out.id == id,
            out.name == name,
            out.is_fresh(),
            forall|i: int| 0 <= i < out.channels@.len() ==> (#[trigger] out.channels@[i]).device_id == id,
    {
        let mut channels: Vec<Channel> = Vec::new();
        let mut i: usize = 0;
        while i < DEVICE_NUM_CHANNELS
            invariant
                i <= DEVICE_NUM_CHANNELS,
                channels@.len() == i,
                forall|j: int|
                    0 <= j < i ==> {
                        &&& (#[trigger] channels@[j]).id == j
                        &&& channels@[j].device_id == id
                        &&& channels@[j].is_blank()
                    },
            decreases DEVICE_NUM_CHANNELS - i,
        {
            channels.push(Channel::blank(i, id));
            i += 1;
        }
        Device {
            id,
            name,
            device_type: DeviceType::Modbus,
            config: DeviceConfig::Tcp(
                TcpConfig { address: String::from_str("127.0.0.1"), port: 502 },
            ),
            channels,
            data_block: DataBlock { holding_regs: Vec::new() },
            scan_rate: 1,
            status: String::from_str("Initialized"),
        }
    }
}

impl DeviceView {
    /// The request names a channel of this device that operators may
    /// write.
    pub open spec fn accepts_write(&self, request: JsonWriteChannel) -> bool {
        request.channel < self.channels.len() && self.channels[request.channel as int].access_type
            == AccessType::Write
    }

    /// The device with the value of one channel replaced.
    pub open spec fn with_value(&self, channel: int, value: Binary32) -> DeviceView {
        DeviceView {
            channels: self.channels.update(
                channel,
                ChannelView { value, ..self.channels[channel] },
            ),
            ..*self
        }
    }

    /// The device with another status text.
    pub open spec fn with_status(&self, status: Seq<char>) -> DeviceView {
        DeviceView { status, ..*self }
    }

    /// The device after a write request of an operator: the value of a
    /// writable channel is replaced, any other request changes nothing.
    pub open spec fn written(&self, request: JsonWriteChannel) -> DeviceView {
        if self.accepts_write(request) {
            self.with_value(request.channel as int, request.value)
        } else {
            *self
        }
    }

    /// The device with every channel's alarms evaluated against the
    /// channel's value.
    pub open spec fn alarms_evaluated(&self) -> DeviceView {
        DeviceView {
            channels: Seq::new(
                self.channels.len(),
                |j: int|
                    ChannelView {
                        alarm: self.channels[j].alarm.evaluated(self.channels[j].value),
                        ..self.channels[j]
                    },
            ),
            ..*self
        }
    }
}

impl Device {
    /// Takes an operator's write request: the value of a channel with write
    /// access is replaced. A request for a channel that is read-only, or
    /// that the device does not have, is ignored.
    pub fn apply_write(&mut self, request: &JsonWriteChannel) -> (applied: bool)
        ensures
            applied == old(self)@.accepts_write(*request),
            final(self)@ == old(self)@.written(*request),
    {
        if request.channel < self.channels.len() {
            match self.channels[request.channel].access_type {
                AccessType::Write => {
                    self.channels[request.channel].value = request.value;
                    true
                },
                AccessType::Read => false,
            }
        } else {
            false
        }
    }

    /// Evaluates the alarms of every channel against the channel's value.
    pub fn evaluate_alarms(&mut self)
        ensures
            final(self)@ == old(self)@.alarms_evaluated(),
    {
        let mut j: usize = 0;
        while j < self.channels.len()
            invariant
                j <= self.channels.len(),
                self@ == (DeviceView { channels: self@.channels, ..old(self)@ }),
                self.channels@.len() == old(self).channels@.len(),
                forall|k: int|
                    0 <= k < j ==> (#[trigger] self.channels@[k])@ == old(
                        self,
                    )@.alarms_evaluated().channels[k],
                forall|k: int|
                    j <= k < self.channels@.len() ==> self.channels@[k] == old(self).channels@[k],
            decreases self.channels.len() - j,
        {
            self.channels[j].evaluate_alarms();
            j += 1;
        }
    }
}

impl Default for Device {
    fn default() -> (out: Device)
        ensures
            out.id == 0,
            out.name@ == Seq::<char>::empty(),
            out.is_fresh(),
            forall|i: int| 0 <= i < out.channels@.len() ==> (#[trigger] out.channels@[i]).device_id == 0,
    {
        Device::initialize(0, String::new())
    }
}

} // verus!
