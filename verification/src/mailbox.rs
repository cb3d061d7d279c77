//! The mailboxes between a worker and the controller. Each is a queue of the
//! `crossbeam_channel` crate with many producers and one consumer, and none
//! of them ever makes the worker wait.
//!
//! What a queue holds at a given moment depends on the other threads, so
//! the contracts here promise nothing about what is found in one. What the
//! functions fix is how much is taken out at a time.

use crate::controller::{newest, write_channel_from_hmi};
use crate::device::{clone_devices, Device, DeviceMsg, JsonWriteChannel};
use crate::worker::Mail;
use crossbeam_channel::{Receiver, Sender};
use vstd::prelude::*;

verus! {

/// The sending half of a `crossbeam_channel` queue.
#[verifier::external_type_specification]
#[verifier::external_body]
#[verifier::reject_recursive_types(T)]
pub struct ExSender<T>(crossbeam_channel::Sender<T>);

/// The receiving half of a `crossbeam_channel` queue.
#[verifier::external_type_specification]
#[verifier::external_body]
#[verifier::reject_recursive_types(T)]
pub struct ExReceiver<T>(crossbeam_channel::Receiver<T>);

/// `Receiver::try_recv`: the oldest message of the queue if one is there,
/// without blocking. `None` says that the queue is empty, whether or not a
/// sender is left.
#[verifier::external_body]
fn try_take<T>(queue: &Receiver<T>) -> Option<T> {
    queue.try_recv().ok()
}

/// `Receiver::len`: how many messages wait in the queue at the moment of
/// the call.
#[verifier::external_body]
fn waiting<T>(queue: &Receiver<T>) -> usize {
    queue.len()
}

/// `Sender::try_send`: puts a message into the queue without blocking and
/// says whether the queue took it. A full queue and a queue whose receiver
/// is gone both drop the message.
#[verifier::external_body]
fn try_put<T>(queue: &Sender<T>, message: T) -> bool {
    queue.try_send(message).is_ok()
}

/// Both ends of a queue of snapshots.
pub struct CrossBeamChannel {
    pub send: Sender<Vec<Device>>,
    pub receive: Receiver<Vec<Device>>,
}

/// The snapshot queues of one worker: `read` carries snapshots from the
/// worker to the controller, `update` carries replacement snapshots the
/// other way.
pub struct DeviceBeam {
    pub read: Option<CrossBeamChannel>,
    pub update: Option<CrossBeamChannel>,
}

/// The queue of control messages of one worker, first in, first out.
pub struct DeviceMsgBeam {
    pub send: Sender<DeviceMsg>,
    pub receive: Receiver<DeviceMsg>,
}

/// The queue of write requests from the socket listener to the controller.
pub struct CrossBeamSocketChannel {
    pub send: Sender<JsonWriteChannel>,
    pub receive: Receiver<JsonWriteChannel>,
}

/// Looks into the worker's mailboxes at the top of a cycle: the update
/// queue is asked once and the control queue is asked once, so that a burst
/// of messages drains at one message per cycle. With the stop signal raised
/// nothing is taken out of either queue.
pub fn check_mail(stop: bool, device_beam: &DeviceBeam, device_msg_beam: &DeviceMsgBeam) -> (out:
    Mail)
    ensures
        out.stop == stop,
        stop ==> out.update is None && out.message is None,
        device_beam.update is None ==> out.update is None,
{
    if stop {
        return Mail { stop, update: None, message: None };
    }
    let update = match &device_beam.update {
        Some(queue) => try_take(&queue.receive),
        None => None,
    };
    let message = try_take(&device_msg_beam.receive);
    Mail { stop, update, message }
}

/// Offers a snapshot to the controller. A worker without a read queue
/// offers nothing; a snapshot that the queue does not take is dropped.
/// Says whether the snapshot went out.
pub fn publish(device_beam: &DeviceBeam, snapshot: Vec<Device>) -> (sent: bool)
    ensures
        device_beam.read is None ==> !sent,
{
    match &device_beam.read {
        Some(queue) => try_put(&queue.send, snapshot),
        None => false,
    }
}

/// Takes the newest of the snapshots that the worker has published and
/// the controller has not seen; the older ones are dropped unseen. Only
/// what was waiting when the call began is looked at, so the call ends
/// however fast the worker publishes, and it never blocks.
pub fn collect(device_beam: &DeviceBeam) -> (out: Option<Vec<Device>>)
    ensures
        device_beam.read is None ==> out is None,
{
    match &device_beam.read {
        Some(queue) => {
            let mut taken: Vec<Vec<Device>> = Vec::new();
            let mut left: usize = waiting(&queue.receive);
            while left > 0
                decreases left,
            {
                match try_take(&queue.receive) {
                    Some(snapshot) => {
                        taken.push(snapshot);
                        left -= 1;
                    },
                    None => {
                        left = 0;
                    },
                }
            }
            newest(taken)
        },
        None => None,
    }
}

/// Hands a control message to a worker; says whether the queue took it.
pub fn post(device_msg_beam: &DeviceMsgBeam, message: DeviceMsg) -> (sent: bool) {
    try_put(&device_msg_beam.send, message)
}

/// Hands a replacement snapshot to a worker; says whether it went out.
pub fn post_update(device_beam: &DeviceBeam, snapshot: Vec<Device>) -> (sent: bool)
    ensures
        device_beam.update is None ==> !sent,
{
    match &device_beam.update {
        Some(queue) => try_put(&queue.send, snapshot),
        None => false,
    }
}

/// Hands a client's write request to the controller; says whether the
/// queue took it.
pub fn post_request(socket_channel: &CrossBeamSocketChannel, request: JsonWriteChannel) -> (sent:
    bool) {
    try_put(&socket_channel.send, request)
}

/// Serves at most one waiting write request of a client. A request for a
/// writable channel replaces the channel's value in the controller's
/// snapshot, and the snapshot is handed to the worker of the device as an
/// update; any other request is dropped. Hands back the request that was
/// taken out of the queue, if one was.
pub fn serve_hmi_write(
    devices: &mut Vec<Device>,
    socket_channel: &CrossBeamSocketChannel,
    device_beam: &Vec<DeviceBeam>,
) -> (served: Option<JsonWriteChannel>)
    ensures
        final(devices)@.len() == old(devices)@.len(),
        forall|i: int|
            0 <= i < old(devices)@.len() ==> (#[trigger] final(devices)@[i])@ == match served {
                Some(request) if i == request.device_id => old(devices)@[i]@.written(request),
                _ => old(devices)@[i]@,
            },
{
    let served = try_take(&socket_channel.receive);
    match served {
        Some(request) => {
            if write_channel_from_hmi(devices, &request) {
                if request.device_id < device_beam.len() {
                    post_update(&device_beam[request.device_id], clone_devices(devices));
                }
            }
        },
        None => {},
    }
    served
}

} // verus!
