//! The register window of a device is the one contiguous span of addresses
//! that covers every enabled channel. It is computed anew before every read,
//! read in one request, and the reply is decoded channel by channel.

use crate::binary32::Binary32;
use crate::channel::{decode_words, is_reading, Channel, ChannelView, ValueType};
use crate::device::{channel_views, Device, DeviceView};
use vstd::prelude::*;
use vstd::string::StringExecFns;

verus! {

/// The highest address of the address space.
pub const LAST_ADDRESS: u16 = 0xffff;

/// The last address that a channel covers: a 32-bit channel covers its own
/// address and the next, as far as the address space reaches.
pub open spec fn last_address(channel: ChannelView) -> int {
    if channel.value_type == ValueType::Real32 && channel.index < 0xffff {
        channel.index + 1
    } else {
        channel.index as int
    }
}

/// `address` is one that an enabled channel covers.
pub open spec fn touches(channel: ChannelView, address: int) -> bool {
    channel.enabled && channel.index <= address <= last_address(channel)
}

/// No channel is enabled.
pub open spec fn none_enabled(channels: Seq<ChannelView>) -> bool {
    forall|i: int| 0 <= i < channels.len() ==> !(#[trigger] channels[i]).enabled
}

/// A span of register addresses: `length` addresses from `start` on.
#[derive(Clone, Copy, Debug, PartialEq, Eq, Structural)]
pub struct RegisterWindow {
    pub start: u16,
    pub length: u32,
}

impl RegisterWindow {
    /// The last address of the span.
    pub open spec fn end(&self) -> int {
        self.start + self.length - 1
    }

    /// The span is not empty and stays inside the address space.
    pub open spec fn wf(&self) -> bool {
        1 <= self.length && self.start + self.length <= 0x1_0000
    }

    pub open spec fn covers(&self, address: int) -> bool {
        self.start <= address <= self.end()
    }

    /// The addresses of the span, ascending.
    pub open spec fn addresses(&self) -> Seq<u16> {
        Seq::new(self.length as nat, |k: int| (self.start + k) as u16)
    }
}

/// `window` runs from the lowest to the highest address that the enabled
/// channels touch: both ends are touched, and nothing touched lies outside.
pub open spec fn is_window_of(window: RegisterWindow, channels: Seq<ChannelView>) -> bool {
    &&& window.wf()
    &&& exists|i: int|
        0 <= i < channels.len() && (#[trigger] channels[i]).enabled && channels[i].index
            == window.start
    &&& exists|i: int|
        0 <= i < channels.len() && (#[trigger] channels[i]).enabled && last_address(channels[i])
            == window.end()
    &&& forall|i: int, address: int|
        0 <= i < channels.len() && #[trigger] touches(channels[i], address) ==> window.covers(
            address,
        )
}

/// A set of channels has one window at most.
pub proof fn lemma_window_is_unique(a: RegisterWindow, b: RegisterWindow, channels: Seq<ChannelView>)
    requires
        is_window_of(a, channels),
        is_window_of(b, channels),
    ensures
        a == b,
{
    let i = choose|i: int|
        0 <= i < channels.len() && (#[trigger] channels[i]).enabled && channels[i].index == a.start;
    assert(touches(channels[i], a.start as int));
    let j = choose|j: int|
        0 <= j < channels.len() && (#[trigger] channels[j]).enabled && channels[j].index == b.start;
    assert(touches(channels[j], b.start as int));
    let k = choose|k: int|
        0 <= k < channels.len() && (#[trigger] channels[k]).enabled && last_address(channels[k])
            == a.end();
    assert(touches(channels[k], a.end()));
    let l = choose|l: int|
        0 <= l < channels.len() && (#[trigger] channels[l]).enabled && last_address(channels[l])
            == b.end();
    assert(touches(channels[l], b.end()));
}

/// Where the second register of every enabled 32-bit channel is the own
/// address of an enabled channel, or lies below one, the window starts at
/// the lowest address of an enabled channel and ends at the highest: its
/// length is the distance between the two, plus one. This holds in
/// particular where every enabled channel is one register wide.
pub proof fn lemma_window_of_addresses(window: RegisterWindow, channels: Seq<ChannelView>)
    requires
        is_window_of(window, channels),
        forall|i: int|
            0 <= i < channels.len() && (#[trigger] channels[i]).enabled ==> exists|j: int|
                0 <= j < channels.len() && (#[trigger] channels[j]).enabled && last_address(
                    channels[i],
                ) <= channels[j].index,
    ensures
        exists|i: int|
            0 <= i < channels.len() && (#[trigger] channels[i]).enabled && channels[i].index
                == window.start,
        exists|i: int|
            0 <= i < channels.len() && (#[trigger] channels[i]).enabled && channels[i].index
                == window.start + window.length - 1,
        forall|i: int|
            0 <= i < channels.len() && (#[trigger] channels[i]).enabled ==> window.start
                <= channels[i].index <= window.start + window.length - 1,
{
    let high = choose|i: int|
        0 <= i < channels.len() && (#[trigger] channels[i]).enabled && last_address(channels[i])
            == window.end();
    let top = choose|j: int|
        0 <= j < channels.len() && (#[trigger] channels[j]).enabled && last_address(channels[high])
            <= channels[j].index;
    assert(touches(channels[top], channels[top].index as int));
    assert forall|i: int| 0 <= i < channels.len() && (#[trigger] channels[i]).enabled implies window.start
        <= channels[i].index <= window.start + window.length - 1 by {
        assert(touches(channels[i], channels[i].index as int));
    }
}

/// The window of the enabled channels, or `None` when no channel is enabled
/// and there is nothing to read.
pub fn compute_window(channels: &Vec<Channel>) -> (out: Option<RegisterWindow>)
    ensures
        match out {
            None => none_enabled(channel_views(channels@)),
            Some(window) => is_window_of(window, channel_views(channels@)),
        },
{
    let ghost views = channel_views(channels@);
    let mut found = false;
    let mut low: u16 = 0;
    let mut high: u16 = 0;
    let ghost mut low_at: int = 0;
    let ghost mut high_at: int = 0;
    let mut j: usize = 0;
    while j < channels.len()
        invariant
            j <= channels.len(),
            views == channel_views(channels@),
            !found ==> forall|k: int| 0 <= k < j ==> !(#[trigger] views[k]).enabled,
            found ==> {
                &&& low <= high
                &&& 0 <= low_at < j && views[low_at].enabled && views[low_at].index == low
                &&& 0 <= high_at < j && views[high_at].enabled && last_address(views[high_at])
                    == high
                &&& forall|k: int, address: int|
                    0 <= k < j && #[trigger] touches(views[k], address) ==> low <= address <= high
            },
        decreases channels.len() - j,
    {
        let channel = &channels[j];
        if channel.enabled {
            let first: u16 = channel.index;
            let last: u16 = match channel.value_type {
                ValueType::Real32 => if first < LAST_ADDRESS {
                    first + 1
                } else {
                    first
                },
                _ => first,
            };
            if !found {
                found = true;
                low = first;
                high = last;
                proof {
                    low_at = j as int;
                    high_at = j as int;
                }
            } else {
                if first < low {
                    low = first;
                    proof {
                        low_at = j as int;
                    }
                }
                if last > high {
                    high = last;
                    proof {
                        high_at = j as int;
                    }
                }
            }
        }
        j += 1;
    }
    if found {
        let length: u32 = (high - low) as u32 + 1;
        Some(RegisterWindow { start: low, length })
    } else {
        None
    }
}

/// The addresses of the device's window in ascending order; empty when no
/// channel is enabled.
pub fn get_register_list(device: &Device) -> (out: Vec<u16>)
    ensures
        none_enabled(device@.channels) ==> out@.len() == 0,
        !none_enabled(device@.channels) ==> exists|window: RegisterWindow|
            is_window_of(window, device@.channels) && out@ == #[trigger] window.addresses(),
{
    match compute_window(&device.channels) {
        None => Vec::new(),
        Some(window) => {
            let mut out: Vec<u16> = Vec::new();
            let mut k: u32 = 0;
            while k < window.length
                invariant
                    window.wf(),
                    k <= window.length,
                    out@ == window.addresses().take(k as int),
                decreases window.length - k,
            {
                out.push((window.start as u32 + k) as u16);
                k += 1;
            }
            out
        },
    }
}

/// How far the registers of a channel lie from the start of the window.
pub open spec fn offset_in(window: RegisterWindow, channel: ChannelView) -> int {
    channel.index - window.start
}

/// The reply to a read of `window` holds a value for `channel`: the channel
/// is enabled, its address lies in the window, and all its registers came.
pub open spec fn is_served(window: RegisterWindow, words: Seq<u16>, channel: ChannelView) -> bool {
    &&& channel.enabled
    &&& window.covers(channel.index as int)
    &&& offset_in(window, channel) + channel.value_type.spec_width() <= words.len()
    &&& offset_in(window, channel) + channel.value_type.spec_width() <= window.length
}

/// The channel is one that a read of `window` asks for: it is enabled and
/// its address lies in the window.
pub open spec fn is_asked(window: RegisterWindow, channel: ChannelView) -> bool {
    channel.enabled && window.covers(channel.index as int)
}

/// The status of a channel whose registers did not all arrive.
pub open spec fn short_reply() -> Seq<char> {
    "ERROR!: reply too short"@
}

/// `after` is `before` with the reply to a read of `window` taken in: a
/// served channel has the value found at its offset; a channel that was
/// asked for and not served keeps its value and says so in its status; any
/// other channel is untouched.
pub open spec fn is_decoded(
    before: ChannelView,
    window: RegisterWindow,
    words: Seq<u16>,
    after: ChannelView,
) -> bool {
    if is_served(window, words, before) {
        &&& after == (ChannelView { value: after.value, ..before })
        &&& is_reading(before.value_type, words.skip(offset_in(window, before)), after.value)
    } else if is_asked(window, before) {
        after == (ChannelView { status: short_reply(), ..before })
    } else {
        after == before
    }
}

/// After decoding, the value of a served 16-bit channel is the word that the
/// reply holds for the channel's address.
pub proof fn lemma_value_is_the_word(
    before: ChannelView,
    window: RegisterWindow,
    words: Seq<u16>,
    after: ChannelView,
)
    requires
        is_decoded(before, window, words, after),
        is_served(window, words, before),
        before.value_type == ValueType::Int16,
    ensures
        after.value.holds_integer(words[before.index - window.start] as int),
{
}

/// Decoding never touches a channel that is disabled or lies outside the
/// window, changes a value only where the reply holds one, and leaves the
/// configuration and the alarms of every channel alone.
pub proof fn lemma_decoding_keeps_the_rest(
    before: ChannelView,
    window: RegisterWindow,
    words: Seq<u16>,
    after: ChannelView,
)
    requires
        is_decoded(before, window, words, after),
    ensures
        !is_asked(window, before) ==> after == before,
        !is_served(window, words, before) ==> after.value == before.value,
        is_served(window, words, before) ==> after.status == before.status,
        after.alarm == before.alarm,
        after.enabled == before.enabled,
        after.index == before.index,
        after.value_type == before.value_type,
        after.access_type == before.access_type,
        after.id == before.id,
        after.tag == before.tag,
{
}

/// Takes the reply to a bulk read of `window` into the channels. A channel
/// whose registers did not all arrive keeps its previous value and notes the
/// short reply in its status; the channels after it are decoded all the
/// same.
pub fn decode(window: &RegisterWindow, raw_words: &Vec<u16>, channels: &mut Vec<Channel>)
    ensures
        final(channels)@.len() == old(channels)@.len(),
        forall|j: int|
            0 <= j < old(channels)@.len() ==> is_decoded(
                (#[trigger] old(channels)@[j])@,
                *window,
                raw_words@,
                final(channels)@[j]@,
            ),
{
    let mut j: usize = 0;
    while j < channels.len()
        invariant
            j <= channels.len(),
            channels@.len() == old(channels)@.len(),
            forall|k: int|
                0 <= k < j ==> is_decoded(
                    (#[trigger] old(channels)@[k])@,
                    *window,
                    raw_words@,
                    channels@[k]@,
                ),
            forall|k: int| j <= k < channels@.len() ==> channels@[k] == old(channels)@[k],
        decreases channels.len() - j,
    {
        let enabled = channels[j].enabled;
        let index = channels[j].index;
        let value_type = channels[j].value_type;
        if enabled && index >= window.start && ((index - window.start) as u32) < window.length {
            let offset: usize = (index - window.start) as usize;
            let served = if (index - window.start) as u32 + value_type.width() <= window.length {
                decode_words(value_type, raw_words, offset)
            } else {
                None
            };
            match served {
                Some(value) => {
                    channels[j].value = value;
                },
                None => {
                    channels[j].status = String::from_str("ERROR!: reply too short");
                },
            }
        }
        j += 1;
    }
}

/// Position `i` of the register list stands for the channel's address and
/// the buffer holds all the channel's registers from that position on.
pub open spec fn usable_at(
    channel: ChannelView,
    registers: Seq<u16>,
    data: Seq<u16>,
    i: int,
) -> bool {
    &&& channel.enabled
    &&& 0 <= i < registers.len()
    &&& registers[i] == channel.index
    &&& i + channel.value_type.spec_width() <= data.len()
}

/// `after` is `before` with a buffer taken in whose words stand for the
/// addresses of `registers`, position by position: the value comes from the
/// last usable position, and without one the channel is untouched.
pub open spec fn is_taken_from_buffer(
    before: ChannelView,
    registers: Seq<u16>,
    data: Seq<u16>,
    after: ChannelView,
) -> bool {
    &&& after == (ChannelView { value: after.value, ..before })
    &&& (forall|i: int| !usable_at(before, registers, data, i)) ==> after.value == before.value
    &&& forall|i: int|
        usable_at(before, registers, data, i) && (forall|k: int|
            i < k ==> !usable_at(before, registers, data, k)) ==> is_reading(
            before.value_type,
            data.skip(i),
            after.value,
        )
}

/// The value that the last usable position gives to an enabled channel.
fn find_reading(channel: &Channel, register_list: &Vec<u16>, data_buffer: &Vec<u16>) -> (out:
    Option<Binary32>)
    requires
        channel.enabled,
    ensures
        out is None <==> forall|i: int| !usable_at(channel@, register_list@, data_buffer@, i),
        out matches Some(value) ==> forall|i: int|
            usable_at(channel@, register_list@, data_buffer@, i) && (forall|k: int|
                i < k ==> !usable_at(channel@, register_list@, data_buffer@, k)) ==> is_reading(
                channel.value_type,
                data_buffer@.skip(i),
                value,
            ),
{
    let mut i: usize = register_list.len();
    while i > 0
        invariant
            i <= register_list.len(),
            channel.enabled,
            forall|k: int| i <= k ==> !usable_at(channel@, register_list@, data_buffer@, k),
        decreases i,
    {
        i -= 1;
        if register_list[i] == channel.index {
            match decode_words(channel.value_type, data_buffer, i) {
                Some(value) => {
                    assert(usable_at(channel@, register_list@, data_buffer@, i as int));
                    return Some(value);
                },
                None => {},
            }
        }
    }
    None
}

/// Assigns each word of `data_buffer` to the enabled channel whose address
/// stands at the same position of `register_list`. Only channel values
/// change.
pub fn channel_values_from_buffer(
    device: Device,
    register_list: Vec<u16>,
    data_buffer: Vec<u16>,
) -> (out: Device)
    ensures
        out@ == (DeviceView { channels: out@.channels, ..device@ }),
        out@.channels.len() == device@.channels.len(),
        forall|j: int|
            0 <= j < device@.channels.len() ==> is_taken_from_buffer(
                #[trigger] device@.channels[j],
                register_list@,
                data_buffer@,
                out@.channels[j],
            ),
{
    let mut device = device;
    let ghost before = device;
    let mut j: usize = 0;
    while j < device.channels.len()
        invariant
            j <= device.channels.len(),
            device@ == (DeviceView { channels: device@.channels, ..before@ }),
            device.channels@.len() == before.channels@.len(),
            forall|k: int|
                0 <= k < j ==> is_taken_from_buffer(
                    (#[trigger] before.channels@[k])@,
                    register_list@,
                    data_buffer@,
                    device.channels@[k]@,
                ),
            forall|k: int|
                j <= k < device.channels@.len() ==> device.channels@[k] == before.channels@[k],
        decreases device.channels.len() - j,
    {
        if device.channels[j].enabled {
            match find_reading(&device.channels[j], &register_list, &data_buffer) {
                Some(value) => {
                    device.channels[j].value = value;
                },
                None => {},
            }
        }
        j += 1;
    }
    device
}

/// Where the register list is the list of a window's addresses, the only
/// position that stands for a channel inside the window is the channel's
/// offset in it: taking a buffer in by the list is decoding by the window.
pub proof fn lemma_buffer_positions(
    channel: ChannelView,
    window: RegisterWindow,
    data: Seq<u16>,
    i: int,
)
    requires
        window.wf(),
        data.len() <= window.length,
    ensures
        usable_at(channel, window.addresses(), data, i) <==> (is_served(window, data, channel) && i
            == offset_in(window, channel)),
{
}

} // verus!
