//! The controller's side of the fabric: it takes the reports of the workers
//! into its own snapshot, takes the write requests of operators, and routes
//! them to the workers.

use crate::device::{Device, JsonWriteChannel};
use vstd::prelude::*;

verus! {

/// Takes the report of the worker at `position` into the controller's
/// snapshot: of everything the worker reports, only its own device is
/// taken. A report that does not hold that device, or that comes from a
/// worker without a device in the snapshot, is dropped. Says whether the
/// report was taken.
pub fn take_report(devices: &mut Vec<Device>, position: usize, report: &Vec<Device>) -> (taken:
    bool)
    ensures
        taken == (position < old(devices)@.len() && position < report@.len()),
        final(devices)@.len() == old(devices)@.len(),
        forall|i: int|
            0 <= i < old(devices)@.len() ==> (#[trigger] final(devices)@[i])@ == if taken && i
                == position {
                report@[i]@
            } else {
                old(devices)@[i]@
            },
{
    if position < devices.len() && position < report.len() {
        devices[position] = report[position].clone();
        true
    } else {
        false
    }
}

/// Takes an operator's write request into a snapshot: the addressed device
/// takes it as [`Device::apply_write`] says, and a request for a device that
/// the snapshot does not have is ignored.
pub fn write_channel_from_hmi(devices: &mut Vec<Device>, request: &JsonWriteChannel) -> (applied:
    bool)
    ensures
        applied == (request.device_id < old(devices)@.len() && old(
            devices,
        )@[request.device_id as int]@.accepts_write(*request)),
        final(devices)@.len() == old(devices)@.len(),
        forall|i: int|
            0 <= i < old(devices)@.len() ==> (#[trigger] final(devices)@[i])@ == if i
                == request.device_id {
                old(devices)@[i]@.written(*request)
            } else {
                old(devices)@[i]@
            },
{
    if request.device_id < devices.len() {
        devices[request.device_id].apply_write(request)
    } else {
        false
    }
}

/// Which worker takes a write request: the one of the addressed device, if
/// there is one.
pub fn route_write(request: &JsonWriteChannel, workers: usize) -> (out: Option<usize>)
    ensures
        out == if request.device_id < workers {
            Some(request.device_id)
        } else {
            None
        },
{
    if request.device_id < workers {
        Some(request.device_id)
    } else {
        None
    }
}

/// Of the snapshots that were taken out of a worker's queue, oldest first,
/// the one that the controller goes by: the newest. The older ones are
/// dropped unseen; with nothing taken there is nothing to go by.
pub fn newest(taken: Vec<Vec<Device>>) -> (out: Option<Vec<Device>>)
    ensures
        out == if taken@.len() == 0 {
            None
        } else {
            Some(taken@.last())
        },
{
    let mut taken = taken;
    taken.pop()
}

} // verus!
