//! What a recording job can record: a channel of a device, or a value
//! computed from channels.

use crate::binary32::Binary32;
use crate::channel::Channel;
use vstd::prelude::*;

verus! {

/// A computed value, known by its index.
#[derive(Debug, PartialEq)]
pub struct Calculation {
    pub id: usize,
    pub value: Binary32,
    pub tag: String,
}

impl Calculation {
    /// A calculation before anything was configured: value zero, no tag.
    pub open spec fn is_blank(&self) -> bool {
        self.value.bits == 0 && self.tag@ == Seq::<char>::empty()
    }

    /// A blank calculation with index `id`.
    pub fn blank(id: usize) -> (out: Calculation)
        ensures
            out.id == id,
            out.is_blank(),
    {
        Calculation { id, value: Binary32::zero(), tag: String::new() }
    }
}

impl Clone for Calculation {
    fn clone(&self) -> (out: Calculation)
        ensures
            out == *self,
    {
        Calculation { id: self.id, value: self.value, tag: self.tag.clone() }
    }
}

impl Default for Calculation {
    fn default() -> (out: Calculation)
        ensures
            out.id == 0,
            out.is_blank(),
    {
        Calculation::blank(0)
    }
}

/// One entry of a recording job's channel list.
#[derive(Debug, PartialEq)]
pub enum LoggerChannel {
    Channel(Channel),
    Calculation(Calculation),
}

impl LoggerChannel {
    /// The index of the channel or calculation.
    pub open spec fn spec_id(&self) -> usize {
        match self {
            LoggerChannel::Channel(channel) => channel.id,
            LoggerChannel::Calculation(calculation) => calculation.id,
        }
    }

    #[verifier::when_used_as_spec(spec_id)]
    pub fn id(&self) -> (out: usize)
        ensures
            out == self.spec_id(),
    {
        match self {
            LoggerChannel::Channel(channel) => channel.id,
            LoggerChannel::Calculation(calculation) => calculation.id,
        }
    }
}

impl Clone for LoggerChannel {
    fn clone(&self) -> (out: LoggerChannel)
        ensures
            out == *self,
    {
        match self {
            LoggerChannel::Channel(channel) => LoggerChannel::Channel(channel.clone()),
            LoggerChannel::Calculation(calculation) => LoggerChannel::Calculation(
                calculation.clone(),
            ),
        }
    }
}

} // verus!
