//! The decisions of the telemetry relay: who is connected, which message
//! goes to which client, and which snapshot batch is written to the
//! historian. Sockets, the fan-out channel and the datastore stay with the
//! caller.

use crate::binary32::Binary32;
use crate::device::{device_views, Device, DeviceView};
use vstd::prelude::*;

verus! {

/// A payload on the fan-out channel, tagged with the connection it came
/// from.
#[derive(Debug, PartialEq)]
pub struct Msg {
    pub client_id: String,
    pub payload: String,
}

impl Clone for Msg {
    fn clone(&self) -> (out: Msg)
        ensures
            out == *self,
    {
        Msg { client_id: self.client_id.clone(), payload: self.payload.clone() }
    }
}

impl Msg {
    /// A message goes to every connection but the one it came from.
    pub open spec fn is_for(&self, own_id: Seq<char>) -> bool {
        self.client_id@ != own_id
    }

    /// Whether the outbound side of connection `own_id` forwards this
    /// message to its client.
    pub fn forwards_to(&self, own_id: &String) -> (out: bool)
        ensures
            out == self.is_for(own_id@),
    {
        !(self.client_id == *own_id)
    }
}

/// The identifiers of the connections that are open. No identifier is held
/// twice.
pub struct ClientRegistry {
    ids: Vec<String>,
}

impl View for ClientRegistry {
    type V = Set<Seq<char>>;

    closed spec fn view(&self) -> Set<Seq<char>> {
        Set::new(|id: Seq<char>| exists|i: int| 0 <= i < self.ids@.len() && self.ids@[i]@ == id)
    }
}

impl ClientRegistry {
    /// No identifier is held twice.
    pub closed spec fn wf(&self) -> bool {
        forall|i: int, j: int|
            0 <= i < self.ids@.len() && 0 <= j < self.ids@.len() && i != j ==> self.ids@[i]@
                != self.ids@[j]@
    }

    /// How many connections are open.
    pub closed spec fn count(&self) -> nat {
        self.ids@.len()
    }

    /// An empty registry.
    pub fn new() -> (out: ClientRegistry)
        ensures
            out.wf(),
            out@ == Set::<Seq<char>>::empty(),
            out.count() == 0,
    {
        let out = ClientRegistry { ids: Vec::new() };
        out
    }

    fn position(&self, id: &String) -> (out: Option<usize>)
        ensures
            match out {
                Some(i) => i < self.ids@.len() && self.ids@[i as int]@ == id@,
                None => !self@.contains(id@),
            },
    {
        let mut i: usize = 0;
        while i < self.ids.len()
            invariant
                i <= self.ids.len(),
                forall|k: int| 0 <= k < i ==> self.ids@[k]@ != id@,
            decreases self.ids.len() - i,
        {
            if self.ids[i] == *id {
                return Some(i);
            }
            i += 1;
        }
        None
    }

    /// Whether `id` is registered.
    pub fn contains(&self, id: &String) -> (out: bool)
        ensures
            out == self@.contains(id@),
    {
        self.position(id).is_some()
    }

    pub fn len(&self) -> (out: usize)
        ensures
            out == self.count(),
    {
        self.ids.len()
    }

    /// Says whether `id` was registered already, and registers it if it was
    /// not: a connection is new exactly once.
    pub fn is_registered(&mut self, id: &String) -> (known: bool)
        requires
            old(self).wf(),
        ensures
            final(self).wf(),
            known == old(self)@.contains(id@),
            final(self)@ == old(self)@.insert(id@),
            final(self).count() == old(self).count() + if known {
                0nat
            } else {
                1nat
            },
    {
        match self.position(id) {
            Some(_) => {
                true
            },
            None => {
                self.ids.push(id.clone());
                assert forall|s: Seq<char>| self@.contains(s) <==> old(self)@.insert(id@).contains(
                    s,
                ) by {
                    if old(self)@.contains(s) {
                        let i = choose|i: int| 0 <= i < old(self).ids@.len() && old(self).ids@[i]@ == s;
                        assert(self.ids@[i]@ == s);
                    }
                    if s == id@ {
                        assert(self.ids@[self.ids@.len() - 1]@ == s);
                    }
                }
                false
            },
        }
    }

    /// Takes `id` out of the registry when its connection ends; says
    /// whether it was there.
    pub fn remove(&mut self, id: &String) -> (known: bool)
        requires
            old(self).wf(),
        ensures
            final(self).wf(),
            known == old(self)@.contains(id@),
            final(self)@ == old(self)@.remove(id@),
            final(self).count() == old(self).count() - if known {
                1nat
            } else {
                0nat
            },
    {
        match self.position(id) {
            Some(at) => {
                self.ids.remove(at);
                assert forall|s: Seq<char>| self@.contains(s) <==> old(self)@.remove(id@).contains(
                    s,
                ) by {
                    if old(self)@.contains(s) && s != id@ {
                        let i = choose|i: int| 0 <= i < old(self).ids@.len() && old(self).ids@[i]@ == s;
                        if i < at {
                            assert(self.ids@[i]@ == s);
                        } else {
                            assert(self.ids@[i - 1]@ == s);
                        }
                    }
                }
                true
            },
            None => {
                false
            },
        }
    }
}

/// The rate limit of the historian: a batch is written only when the
/// minimum interval has passed since the last one was, or since the
/// connection opened. Times are readings of a clock that never runs
/// backwards, in milliseconds.
#[derive(Clone, Copy, Debug, PartialEq, Eq, Structural)]
pub struct RateLimiter {
    /// The minimum time between two writes.
    pub interval_ms: u64,
    /// When the last batch was written, or when the limiter was made.
    pub last_ms: u64,
}

impl RateLimiter {
    /// Whether a batch that arrives at `now_ms` is written.
    pub open spec fn is_due(&self, now_ms: u64) -> bool {
        now_ms >= self.last_ms && now_ms - self.last_ms >= self.interval_ms
    }

    /// The limiter after a batch arrived at `now_ms`.
    pub open spec fn offered(&self, now_ms: u64) -> RateLimiter {
        if self.is_due(now_ms) {
            RateLimiter { last_ms: now_ms, ..*self }
        } else {
            *self
        }
    }

    /// A limiter made at `now_ms`.
    pub fn new(interval_ms: u64, now_ms: u64) -> (out: RateLimiter)
        ensures
            out == (RateLimiter { interval_ms, last_ms: now_ms }),
    {
        RateLimiter { interval_ms, last_ms: now_ms }
    }

    /// Decides whether the batch that arrives at `now_ms` is written, and
    /// restarts the interval if it is.
    pub fn offer(&mut self, now_ms: u64) -> (persist: bool)
        ensures
            persist == old(self).is_due(now_ms),
            *final(self) == old(self).offered(now_ms),
    {
        if now_ms >= self.last_ms && now_ms - self.last_ms >= self.interval_ms {
            self.last_ms = now_ms;
            true
        } else {
            false
        }
    }
}

/// The limiter after batches arrived at `times`, one after the other.
pub open spec fn limiter_after(limiter: RateLimiter, times: Seq<u64>) -> RateLimiter
    decreases times.len(),
{
    if times.len() == 0 {
        limiter
    } else {
        limiter_after(limiter, times.drop_last()).offered(times.last())
    }
}

/// How many of the batches that arrived at `times` were written.
pub open spec fn written_count(limiter: RateLimiter, times: Seq<u64>) -> nat
    decreases times.len(),
{
    if times.len() == 0 {
        0
    } else {
        written_count(limiter, times.drop_last()) + if limiter_after(limiter, times.drop_last()).is_due(
            times.last(),
        ) {
            1nat
        } else {
            0nat
        }
    }
}

/// Writes are bounded by elapsed time, not by how many batches arrive: over
/// any run of arrivals, the number written times the interval is at most
/// the time between the making of the limiter and the last write.
pub proof fn lemma_written_is_bounded_by_time(limiter: RateLimiter, times: Seq<u64>)
    ensures
        limiter_after(limiter, times).interval_ms == limiter.interval_ms,
        limiter_after(limiter, times).last_ms >= limiter.last_ms,
        written_count(limiter, times) * limiter.interval_ms <= limiter_after(limiter, times).last_ms
            - limiter.last_ms,
        written_count(limiter, times) <= times.len(),
        times.len() > 0 ==> limiter_after(limiter, times).last_ms == limiter.last_ms || exists|i: int|
            0 <= i < times.len() && limiter_after(limiter, times).last_ms == times[i],
    decreases times.len(),
{
    if times.len() > 0 {
        let before = times.drop_last();
        lemma_written_is_bounded_by_time(limiter, before);
        let mid = limiter_after(limiter, before);
        let n = written_count(limiter, before);
        if mid.is_due(times.last()) {
            assert((n + 1) * limiter.interval_ms == n * limiter.interval_ms + limiter.interval_ms)
                by (nonlinear_arith);
        } else {
            if before.len() > 0 && mid.last_ms != limiter.last_ms {
                let i = choose|i: int| 0 <= i < before.len() && mid.last_ms == before[i];
            }
        }
    } else {
        assert(0 * limiter.interval_ms == 0);
    }
}

/// A frame that came in from a client.
#[derive(Debug, PartialEq)]
pub enum Frame {
    /// A text payload.
    Text(String),
    /// A binary payload, read as text.
    Binary(String),
    /// Anything else: a ping, a pong or a close.
    Other,
}

/// What the relay does with a frame.
#[derive(Debug, PartialEq)]
pub struct Relayed {
    /// What goes onto the fan-out channel.
    pub broadcast: Option<Msg>,
    /// Whether the payload, a snapshot batch, is written to the historian.
    pub persist: bool,
}

/// What [`relay_frame`] hands back.
pub open spec fn relays(
    limiter: RateLimiter,
    client_id: Seq<char>,
    frame: Frame,
    is_batch: bool,
    now_ms: u64,
    out: Relayed,
) -> bool {
    match frame {
        Frame::Text(payload) => {
            &&& out.broadcast matches Some(msg) && msg.client_id@ == client_id && msg.payload
                == payload
            &&& out.persist == (is_batch && limiter.is_due(now_ms))
        },
        Frame::Binary(payload) => {
            &&& out.broadcast matches Some(msg) && msg.client_id@ == client_id && msg.payload
                == payload
            &&& !out.persist
        },
        Frame::Other => out.broadcast is None && !out.persist,
    }
}

/// The limiter after [`relay_frame`]: only a text frame that holds a batch is
/// offered to it.
pub open spec fn limiter_after_frame(
    limiter: RateLimiter,
    frame: Frame,
    is_batch: bool,
    now_ms: u64,
) -> RateLimiter {
    match frame {
        Frame::Text(_) if is_batch => limiter.offered(now_ms),
        _ => limiter,
    }
}

/// Decides what becomes of a frame from connection `client_id` that arrived
/// at `now_ms`; `is_batch` says whether its payload reads as a snapshot
/// batch. Every payload is broadcast under the connection's tag. A batch in
/// a text frame is also written to the historian if the rate limiter lets it
/// through; a batch that comes too early is broadcast all the same.
pub fn relay_frame(
    limiter: &mut RateLimiter,
    client_id: &String,
    frame: Frame,
    is_batch: bool,
    now_ms: u64,
) -> (out: Relayed)
    ensures
        relays(*old(limiter), client_id@, frame, is_batch, now_ms, out),
        *final(limiter) == limiter_after_frame(*old(limiter), frame, is_batch, now_ms),
{
    match frame {
        Frame::Text(payload) => {
            let persist = if is_batch {
                limiter.offer(now_ms)
            } else {
                false
            };
            Relayed { broadcast: Some(Msg { client_id: client_id.clone(), payload }), persist }
        },
        Frame::Binary(payload) => Relayed {
            broadcast: Some(Msg { client_id: client_id.clone(), payload }),
            persist: false,
        },
        Frame::Other => Relayed { broadcast: None, persist: false },
    }
}

/// One value of a batch as the historian stores it. `record_id` is the key
/// of the batch's timestamped record.
#[derive(Clone, Copy, Debug, PartialEq, Eq, Structural)]
pub struct DataRow {
    pub channel_id: i32,
    pub device_id: i32,
    pub value: Binary32,
    pub record_id: i64,
}

/// The rows of one device: one for each channel, in the channels' order.
pub open spec fn device_rows(device: DeviceView, record_id: i64) -> Seq<DataRow> {
    Seq::new(
        device.channels.len(),
        |j: int|
            DataRow {
                channel_id: device.channels[j].id as i32,
                device_id: device.channels[j].device_id as i32,
                value: device.channels[j].value,
                record_id,
            },
    )
}

/// The rows of a batch: the rows of its devices, one device after the
/// other.
pub open spec fn batch_rows(devices: Seq<DeviceView>, record_id: i64) -> Seq<DataRow>
    decreases devices.len(),
{
    if devices.len() == 0 {
        Seq::empty()
    } else {
        batch_rows(devices.drop_last(), record_id) + device_rows(devices.last(), record_id)
    }
}

/// How many channels the devices have together.
pub open spec fn channel_count(devices: Seq<DeviceView>) -> nat
    decreases devices.len(),
{
    if devices.len() == 0 {
        0
    } else {
        channel_count(devices.drop_last()) + devices.last().channels.len()
    }
}

/// A batch has one row for each pair of device and channel, and every row
/// refers to the batch's one record.
pub proof fn lemma_rows_refer_to_record(devices: Seq<DeviceView>, record_id: i64)
    ensures
        batch_rows(devices, record_id).len() == channel_count(devices),
        forall|k: int|
            0 <= k < batch_rows(devices, record_id).len() ==> (#[trigger] batch_rows(
                devices,
                record_id,
            )[k]).record_id == record_id,
    decreases devices.len(),
{
    if devices.len() > 0 {
        lemma_rows_refer_to_record(devices.drop_last(), record_id);
    }
}

/// The rows that a batch adds to the historian under the record
/// `record_id`.
pub fn data_rows(devices: &Vec<Device>, record_id: i64) -> (out: Vec<DataRow>)
    ensures
        out@ == batch_rows(device_views(devices@), record_id),
{
    let mut out: Vec<DataRow> = Vec::new();
    let ghost views = device_views(devices@);
    let mut i: usize = 0;
    while i < devices.len()
        invariant
            i <= devices.len(),
            views == device_views(devices@),
            out@ == batch_rows(views.take(i as int), record_id),
        decreases devices.len() - i,
    {
        let device = &devices[i];
        let ghost rows = device_rows(device@, record_id);
        let ghost done = out@;
        let mut j: usize = 0;
        while j < device.channels.len()
            invariant
                j <= device.channels.len(),
                rows == device_rows(device@, record_id),
                out@ == done + rows.take(j as int),
            decreases device.channels.len() - j,
        {
            let channel = &device.channels[j];
            out.push(
                DataRow {
                    channel_id: #[verifier::truncate]
                    (channel.id as i32),
                    device_id: #[verifier::truncate]
                    (channel.device_id as i32),
                    value: channel.value,
                    record_id,
                },
            );
            j += 1;
        }
        proof {
            assert(views.take(i + 1).drop_last() =~= views.take(i as int));
        }
        i += 1;
    }
    assert(views.take(devices.len() as int) =~= views);
    out
}

} // verus!
