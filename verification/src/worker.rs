//! The polling worker of one device, as a state machine. The worker never
//! touches the wire or a mailbox itself: it names the next action, the
//! caller performs it and hands back what happened.
//!
//! One cycle of a connected worker runs in this order: look into the
//! mailboxes (at most one update and one control message), reconnect or
//! write if a message asked for it, read the register window in one request,
//! decode and evaluate alarms, publish the snapshot, sleep.

use crate::channel::{ChannelView, WriteCommand, WriteOutcome};
use crate::config::DeviceConfig;
use crate::device::{clone_devices, device_views, Device, DeviceMsg, DeviceView};
use crate::register_window::{
    compute_window, decode, is_decoded, is_window_of, none_enabled, RegisterWindow,
};
use vstd::prelude::*;
use vstd::string::StringExecFns;

verus! {

/// What a worker is waiting for.
#[derive(Clone, Copy, Debug, PartialEq, Eq, Structural)]
pub enum WorkerPhase {
    /// Nothing was tried yet.
    Disconnected,
    /// The endpoint is being opened.
    Connecting,
    /// Connected, at the top of a cycle: the mailboxes are being looked
    /// into.
    Idle,
    /// The endpoint is being opened anew after a reconnect message.
    Reconnecting,
    /// A write to the channel at this position is under way.
    Writing { channel: usize },
    /// The bulk read of this window is under way.
    Reading { window: RegisterWindow },
    /// The snapshot is being published and the scan interval slept.
    Publishing,
    /// The stop signal was seen; the worker does nothing more.
    Stopped,
}

/// How an attempt to open the endpoint ended.
#[derive(Debug, PartialEq)]
pub enum ConnectOutcome {
    Connected,
    Failed(String),
}

/// How the bulk read ended.
#[derive(Debug, PartialEq)]
pub enum ReadOutcome {
    Words(Vec<u16>),
    Failed(String),
}

/// What the mailboxes held at the top of a cycle.
#[derive(Debug, PartialEq)]
pub struct Mail {
    /// The stop signal was raised.
    pub stop: bool,
    /// A replacement snapshot from the controller, if one was waiting.
    pub update: Option<Vec<Device>>,
    /// The oldest control message, if one was waiting.
    pub message: Option<DeviceMsg>,
}

/// What happened since the worker's last action.
#[derive(Debug, PartialEq)]
pub enum WorkerEvent {
    Started,
    ConnectDone(ConnectOutcome),
    Mail(Mail),
    WriteDone(WriteOutcome),
    ReadDone(ReadOutcome),
    CycleDone,
}

/// What the caller is to do next.
#[derive(Debug, PartialEq)]
pub enum WorkerAction {
    /// Open this endpoint, dropping any connection held, and answer with
    /// [`WorkerEvent::ConnectDone`].
    Connect(DeviceConfig),
    /// Check the stop signal, take at most one update and at most one
    /// control message without blocking, and answer with
    /// [`WorkerEvent::Mail`].
    CheckMail,
    /// Send this write and answer with [`WorkerEvent::WriteDone`].
    Write(WriteCommand),
    /// Read this window in one request and answer with
    /// [`WorkerEvent::ReadDone`].
    Read(RegisterWindow),
    /// Offer the snapshot to the controller without blocking, sleep, and
    /// answer with [`WorkerEvent::CycleDone`].
    PublishAndSleep { snapshot: Vec<Device>, seconds: u64 },
    /// End the loop.
    Stop,
    /// The event was not the awaited one and was dropped.
    Wait,
}

/// A worker: the snapshot it reports, the position of its own device in it,
/// and what it waits for.
pub struct Worker {
    devices: Vec<Device>,
    index: usize,
    phase: WorkerPhase,
}

/// A worker as the contracts see it.
#[verifier::ext_equal]
pub struct WorkerView {
    pub devices: Seq<DeviceView>,
    pub index: usize,
    pub phase: WorkerPhase,
}

impl WorkerView {
    /// The worker's own device.
    pub open spec fn own(&self) -> DeviceView {
        self.devices[self.index as int]
    }

    /// The worker with its own device replaced.
    pub open spec fn with_own(&self, device: DeviceView) -> WorkerView {
        WorkerView { devices: self.devices.update(self.index as int, device), ..*self }
    }

    /// The worker with another status on its own device.
    pub open spec fn with_status(&self, status: Seq<char>) -> WorkerView {
        self.with_own(self.own().with_status(status))
    }

    pub open spec fn with_phase(&self, phase: WorkerPhase) -> WorkerView {
        WorkerView { phase, ..*self }
    }

    /// The snapshot after an update from the controller: the whole snapshot
    /// is replaced, the last update winning, and the worker's device says
    /// so. An update without the worker's device is dropped.
    pub open spec fn updated(&self, update: Option<Vec<Device>>) -> WorkerView {
        match update {
            Some(devices) if self.index < devices@.len() => WorkerView {
                devices: device_views(devices@),
                ..*self
            }.with_status("Updated."@),
            _ => *self,
        }
    }

    /// The channel that a write request addresses exists and may be
    /// written.
    pub open spec fn writable(&self, channel: usize) -> bool {
        channel < self.own().channels.len() && self.own().channels[channel as int].access_type
            == crate::channel::AccessType::Write
    }
}

/// The status of a device whose endpoint could not be opened.
pub open spec fn connect_error(cause: Seq<char>) -> Seq<char> {
    "Error: "@ + cause
}

/// `end` and `action` are what a connected worker in state `begin` does
/// when it turns to the read of its cycle: it asks for the window of its
/// enabled channels, or, without an enabled channel, skips the read and
/// publishes at once. The snapshot is not touched.
pub open spec fn turns_to_read(begin: WorkerView, end: WorkerView, action: WorkerAction) -> bool {
    if none_enabled(begin.own().channels) {
        publishes(begin, end, action)
    } else {
        &&& action matches WorkerAction::Read(window)
        &&& is_window_of(window, begin.own().channels)
        &&& end == begin.with_phase(WorkerPhase::Reading { window })
    }
}

/// `end` and `action` are what a worker in state `begin` does when it
/// publishes: it hands out a copy of its snapshot and the scan interval of
/// its device.
pub open spec fn publishes(begin: WorkerView, end: WorkerView, action: WorkerAction) -> bool {
    &&& action matches WorkerAction::PublishAndSleep { snapshot, seconds }
    &&& device_views(snapshot@) == begin.devices
    &&& seconds == begin.own().scan_rate
    &&& end == begin.with_phase(WorkerPhase::Publishing)
}

/// The event is dropped: nothing changes and the caller keeps waiting.
pub open spec fn drops(begin: WorkerView, end: WorkerView, action: WorkerAction) -> bool {
    end == begin && action == WorkerAction::Wait
}

/// What [`Worker::start`] does.
pub open spec fn starts(begin: WorkerView, end: WorkerView, action: WorkerAction) -> bool {
    if begin.phase == WorkerPhase::Disconnected {
        end == begin.with_phase(WorkerPhase::Connecting) && action == WorkerAction::Connect(
            begin.own().config,
        )
    } else {
        drops(begin, end, action)
    }
}

/// What [`Worker::connect_done`] does.
pub open spec fn connects(
    begin: WorkerView,
    outcome: ConnectOutcome,
    end: WorkerView,
    action: WorkerAction,
) -> bool {
    if begin.phase == WorkerPhase::Connecting || begin.phase == WorkerPhase::Reconnecting {
        match outcome {
            ConnectOutcome::Connected => if begin.phase == WorkerPhase::Connecting {
                end == begin.with_status("Connected."@).with_phase(WorkerPhase::Idle) && action
                    == WorkerAction::CheckMail
            } else {
                turns_to_read(begin.with_status("Connected."@), end, action)
            },
            ConnectOutcome::Failed(cause) => {
                &&& end == begin.with_status(connect_error(cause@)).with_phase(
                    WorkerPhase::Connecting,
                )
                &&& action == WorkerAction::Connect(begin.own().config)
            },
        }
    } else {
        drops(begin, end, action)
    }
}

/// What [`Worker::mail`] does.
pub open spec fn takes_mail(begin: WorkerView, mail: Mail, end: WorkerView, action: WorkerAction) -> bool {
    if begin.phase != WorkerPhase::Idle {
        drops(begin, end, action)
    } else if mail.stop {
        end == begin.with_phase(WorkerPhase::Stopped) && action == WorkerAction::Stop
    } else {
        let updated = begin.updated(mail.update);
        match mail.message {
            Some(DeviceMsg::Reconnect(config)) => {
                &&& end == updated.with_own(DeviceView { config, ..updated.own() }).with_phase(
                    WorkerPhase::Reconnecting,
                )
                &&& action == WorkerAction::Connect(config)
            },
            Some(DeviceMsg::WriteChannel(request)) => if updated.writable(request.channel) {
                let channel = updated.own().channels[request.channel as int];
                let command = channel.command_for(request.value);
                if command == WriteCommand::Refused {
                    turns_to_read(
                        updated.with_own(
                            DeviceView {
                                channels: updated.own().channels.update(
                                    request.channel as int,
                                    ChannelView {
                                        status: channel.write_status(WriteOutcome::Refused),
                                        ..channel
                                    },
                                ),
                                ..updated.own()
                            },
                        ),
                        end,
                        action,
                    )
                } else {
                    &&& end == updated.with_phase(WorkerPhase::Writing { channel: request.channel })
                    &&& action == WorkerAction::Write(command)
                }
            } else {
                turns_to_read(updated, end, action)
            },
            None => turns_to_read(updated, end, action),
        }
    }
}

/// What [`Worker::write_done`] does.
pub open spec fn finishes_write(
    begin: WorkerView,
    outcome: WriteOutcome,
    end: WorkerView,
    action: WorkerAction,
) -> bool {
    match begin.phase {
        WorkerPhase::Writing { channel } if channel < begin.own().channels.len() => {
            let before = begin.own().channels[channel as int];
            turns_to_read(
                begin.with_own(
                    DeviceView {
                        channels: begin.own().channels.update(
                            channel as int,
                            ChannelView { status: before.write_status(outcome), ..before },
                        ),
                        ..begin.own()
                    },
                ),
                end,
                action,
            )
        },
        WorkerPhase::Writing { channel } => turns_to_read(begin, end, action),
        _ => drops(begin, end, action),
    }
}

/// `after` is the device `before` with the reply to a read of `window`
/// decoded into its channels and every alarm evaluated.
pub open spec fn is_refreshed(
    before: DeviceView,
    window: RegisterWindow,
    words: Seq<u16>,
    after: DeviceView,
) -> bool {
    exists|decoded: DeviceView|
        {
            &&& decoded == (DeviceView { channels: decoded.channels, ..before })
            &&& decoded.channels.len() == before.channels.len()
            &&& forall|j: int|
                0 <= j < before.channels.len() ==> is_decoded(
                    #[trigger] before.channels[j],
                    window,
                    words,
                    decoded.channels[j],
                )
            &&& after == #[trigger] decoded.alarms_evaluated()
        }
}

/// What [`Worker::read_done`] does.
pub open spec fn finishes_read(
    begin: WorkerView,
    outcome: ReadOutcome,
    end: WorkerView,
    action: WorkerAction,
) -> bool {
    match begin.phase {
        WorkerPhase::Reading { window } => match outcome {
            ReadOutcome::Words(words) => exists|refreshed: DeviceView|
                {
                    &&& is_refreshed(begin.own(), window, words@, refreshed)
                    &&& publishes(#[trigger] begin.with_own(refreshed), end, action)
                },
            ReadOutcome::Failed(cause) => publishes(begin.with_status(cause@), end, action),
        },
        _ => drops(begin, end, action),
    }
}

/// What [`Worker::cycle_done`] does.
pub open spec fn finishes_cycle(begin: WorkerView, end: WorkerView, action: WorkerAction) -> bool {
    if begin.phase == WorkerPhase::Publishing {
        end == begin.with_phase(WorkerPhase::Idle) && action == WorkerAction::CheckMail
    } else {
        drops(begin, end, action)
    }
}

/// A write request for a channel that is read-only, or that the device does
/// not have, sends nothing to the device and leaves the snapshot as it was.
pub proof fn lemma_unwritable_channel_is_left_alone(
    begin: WorkerView,
    mail: Mail,
    end: WorkerView,
    action: WorkerAction,
)
    requires
        begin.index < begin.devices.len(),
        takes_mail(begin, mail, end, action),
        mail.update is None,
        mail.message matches Some(DeviceMsg::WriteChannel(request)) && !begin.writable(
            request.channel,
        ),
    ensures
        !(action is Write),
        end.devices == begin.devices,
{
}

/// Whatever the mailboxes held, a worker at the top of its cycle asks for
/// one thing: to stop, to connect, to write, to read or to publish. It never
/// asks for the mailboxes again before the cycle is over.
pub proof fn lemma_mail_moves_the_cycle_on(
    begin: WorkerView,
    mail: Mail,
    end: WorkerView,
    action: WorkerAction,
)
    requires
        begin.phase == WorkerPhase::Idle,
        takes_mail(begin, mail, end, action),
    ensures
        action != WorkerAction::CheckMail,
        action != WorkerAction::Wait,
        end.phase != WorkerPhase::Idle,
        end.index == begin.index,
{
}

/// A read is only ever asked for a window of the worker's enabled channels,
/// and a successful read is always followed by a snapshot that holds what
/// was decoded.
pub proof fn lemma_read_is_published(
    begin: WorkerView,
    words: Vec<u16>,
    end: WorkerView,
    action: WorkerAction,
)
    requires
        begin.index < begin.devices.len(),
        begin.phase is Reading,
        finishes_read(begin, ReadOutcome::Words(words), end, action),
    ensures
        action matches WorkerAction::PublishAndSleep { snapshot, seconds } && device_views(
            snapshot@,
        ) == end.devices && seconds == end.own().scan_rate,
        end.phase == WorkerPhase::Publishing,
        is_refreshed(begin.own(), begin.phase->window, words@, end.own()),
        forall|i: int|
            0 <= i < begin.devices.len() && i != begin.index ==> end.devices[i] == begin.devices[i],
{
}

/// A cycle in which the mailboxes are empty and a channel is enabled asks
/// for exactly one read, of the window of the enabled channels, then
/// publishes once, and then is back at the top.
pub proof fn lemma_quiet_cycle(
    top: WorkerView,
    mail: Mail,
    reading: WorkerView,
    first: WorkerAction,
    words: Vec<u16>,
    publishing: WorkerView,
    second: WorkerAction,
    end: WorkerView,
    third: WorkerAction,
)
    requires
        top.index < top.devices.len(),
        top.phase == WorkerPhase::Idle,
        !mail.stop && mail.update is None && mail.message is None,
        !none_enabled(top.own().channels),
        takes_mail(top, mail, reading, first),
        finishes_read(reading, ReadOutcome::Words(words), publishing, second),
        finishes_cycle(publishing, end, third),
    ensures
        first matches WorkerAction::Read(window) && is_window_of(window, top.own().channels),
        second matches WorkerAction::PublishAndSleep { snapshot, seconds } && seconds
            == top.own().scan_rate && device_views(snapshot@) == end.devices,
        third == WorkerAction::CheckMail,
        end.phase == WorkerPhase::Idle,
        is_refreshed(top.own(), first->Read_0, words@, end.own()),
{
    let window = first->Read_0;
    let refreshed = choose|refreshed: DeviceView|
        {
            &&& is_refreshed(reading.own(), window, words@, refreshed)
            &&& publishes(#[trigger] reading.with_own(refreshed), publishing, second)
        };
    let decoded = choose|decoded: DeviceView|
        {
            &&& decoded == (DeviceView { channels: decoded.channels, ..reading.own() })
            &&& decoded.channels.len() == reading.own().channels.len()
            &&& forall|j: int|
                0 <= j < reading.own().channels.len() ==> is_decoded(
                    #[trigger] reading.own().channels[j],
                    window,
                    words@,
                    decoded.channels[j],
                )
            &&& refreshed == #[trigger] decoded.alarms_evaluated()
        };
    assert(refreshed.scan_rate == top.own().scan_rate);
}

impl View for Worker {
    type V = WorkerView;

    closed spec fn view(&self) -> WorkerView {
        WorkerView { devices: device_views(self.devices@), index: self.index, phase: self.phase }
    }
}

impl Worker {
    /// The worker's own device is in its snapshot.
    pub open spec fn wf(&self) -> bool {
        self@.index < self@.devices.len()
    }

    /// A worker for the device at position `index` of `devices`, not yet
    /// connected; `None` when there is no such device.
    pub fn new(devices: Vec<Device>, index: usize) -> (out: Option<Worker>)
        ensures
            out is Some <==> index < devices@.len(),
            out matches Some(worker) ==> {
                &&& worker.wf()
                &&& worker@ == (WorkerView {
                    devices: device_views(devices@),
                    index,
                    phase: WorkerPhase::Disconnected,
                }).with_status("Initialized."@)
            },
    {
        if index < devices.len() {
            let mut worker = Worker { devices, index, phase: WorkerPhase::Disconnected };
            worker.set_status(String::from_str("Initialized."));
            Some(worker)
        } else {
            None
        }
    }

    /// The snapshot as it stands.
    pub fn devices(&self) -> (out: &Vec<Device>)
        ensures
            device_views(out@) == self@.devices,
    {
        &self.devices
    }

    /// The position of the worker's device in the snapshot.
    pub fn index(&self) -> (out: usize)
        ensures
            out == self@.index,
    {
        self.index
    }

    pub fn phase(&self) -> (out: WorkerPhase)
        ensures
            out == self@.phase,
    {
        self.phase
    }

    fn set_status(&mut self, status: String)
        requires
            old(self).index < old(self).devices@.len(),
        ensures
            final(self)@ == old(self)@.with_status(status@),
            final(self).wf(),
    {
        self.devices[self.index].status = status;
        assert(self@.devices =~= old(self)@.with_status(status@).devices);
    }

    fn publish(&mut self) -> (action: WorkerAction)
        requires
            old(self).wf(),
        ensures
            final(self).wf(),
            publishes(old(self)@, final(self)@, action),
    {
        self.phase = WorkerPhase::Publishing;
        WorkerAction::PublishAndSleep {
            snapshot: clone_devices(&self.devices),
            seconds: self.devices[self.index].scan_rate,
        }
    }

    fn turn_to_read(&mut self) -> (action: WorkerAction)
        requires
            old(self).wf(),
        ensures
            final(self).wf(),
            turns_to_read(old(self)@, final(self)@, action),
    {
        match compute_window(&self.devices[self.index].channels) {
            Some(window) => {
                self.phase = WorkerPhase::Reading { window };
                proof {
                    let channels = old(self)@.own().channels;
                    let i = choose|i: int|
                        0 <= i < channels.len() && (#[trigger] channels[i]).enabled
                            && channels[i].index == window.start;
                    assert(channels[i].enabled);
                }
                WorkerAction::Read(window)
            },
            None => self.publish(),
        }
    }

    /// Sets the worker going: a worker that was never connected asks for its
    /// endpoint to be opened.
    pub fn start(&mut self) -> (action: WorkerAction)
        requires
            old(self).wf(),
        ensures
            final(self).wf(),
            starts(old(self)@, final(self)@, action),
    {
        match self.phase {
            WorkerPhase::Disconnected => {
                self.phase = WorkerPhase::Connecting;
                WorkerAction::Connect(self.devices[self.index].config.clone())
            },
            _ => WorkerAction::Wait,
        }
    }

    /// Takes the outcome of opening the endpoint. Success is noted in the
    /// device's status and the worker goes on: to the top of its first
    /// cycle, or after a reconnect to the read of the running cycle. A
    /// failure is noted with its cause and the endpoint is tried again at
    /// once.
    pub fn connect_done(&mut self, outcome: ConnectOutcome) -> (action: WorkerAction)
        requires
            old(self).wf(),
        ensures
            final(self).wf(),
            connects(old(self)@, outcome, final(self)@, action),
    {
        match self.phase {
            WorkerPhase::Connecting | WorkerPhase::Reconnecting => {
                match outcome {
                    ConnectOutcome::Connected => {
                        self.set_status(String::from_str("Connected."));
                        match self.phase {
                            WorkerPhase::Connecting => {
                                self.phase = WorkerPhase::Idle;
                                WorkerAction::CheckMail
                            },
                            _ => self.turn_to_read(),
                        }
                    },
                    ConnectOutcome::Failed(cause) => {
                        self.set_status(String::from_str("Error: ").concat(cause.as_str()));
                        self.phase = WorkerPhase::Connecting;
                        let config = self.devices[self.index].config.clone();
                        assert(self@.own() == self.devices@[self.index as int]@);
                        WorkerAction::Connect(config)
                    },
                }
            },
            _ => WorkerAction::Wait,
        }
    }

    fn take_update(&mut self, update: Option<Vec<Device>>)
        requires
            old(self).wf(),
        ensures
            final(self).wf(),
            final(self)@ == old(self)@.updated(update),
    {
        match update {
            Some(devices) => {
                if self.index < devices.len() {
                    self.devices = devices;
                    self.set_status(String::from_str("Updated."));
                }
            },
            None => {},
        }
    }

    /// Takes what the mailboxes held at the top of a cycle. A stop signal
    /// ends the worker. Otherwise an update replaces the snapshot, and then
    /// the control message decides: a reconnect replaces the endpoint and
    /// has it opened; a write to a writable channel is sent, unless the
    /// value does not fit the channel, which is noted in the channel's
    /// status; a write to any other channel is ignored. Without a message,
    /// or with one that sends nothing, the worker turns to its read.
    pub fn mail(&mut self, mail: Mail) -> (action: WorkerAction)
        requires
            old(self).wf(),
        ensures
            final(self).wf(),
            takes_mail(old(self)@, mail, final(self)@, action),
    {
        match self.phase {
            WorkerPhase::Idle => {},
            _ => {
                return WorkerAction::Wait;
            },
        }
        if mail.stop {
            self.phase = WorkerPhase::Stopped;
            return WorkerAction::Stop;
        }
        self.take_update(mail.update);
        let ghost updated = self@;
        match mail.message {
            Some(DeviceMsg::Reconnect(config)) => {
                let action = WorkerAction::Connect(config.clone());
                self.devices[self.index].config = config;
                self.phase = WorkerPhase::Reconnecting;
                assert(self@.devices =~= updated.with_own(
                    DeviceView { config, ..updated.own() },
                ).devices);
                action
            },
            Some(DeviceMsg::WriteChannel(request)) => {
                if request.channel < self.devices[self.index].channels.len() {
                    match self.devices[self.index].channels[request.channel].access_type {
                        crate::channel::AccessType::Write => {
                            let command = self.devices[self.index].channels[request.channel].write_command(
                            request.value);
                            match command {
                                WriteCommand::Refused => {
                                    self.devices[self.index].channels[request.channel].write_value(
                                        &WriteOutcome::Refused,
                                    );
                                    proof {
                                        let channel = updated.own().channels[request.channel as int];
                                        let noted = DeviceView {
                                            channels: updated.own().channels.update(
                                                request.channel as int,
                                                ChannelView {
                                                    status: channel.write_status(
                                                        WriteOutcome::Refused,
                                                    ),
                                                    ..channel
                                                },
                                            ),
                                            ..updated.own()
                                        };
                                        assert(self@.own().channels =~= noted.channels);
                                        assert(self@.devices =~= updated.with_own(noted).devices);
                                    }
                                    self.turn_to_read()
                                },
                                _ => {
                                    self.phase = WorkerPhase::Writing { channel: request.channel };
                                    WorkerAction::Write(command)
                                },
                            }
                        },
                        crate::channel::AccessType::Read => self.turn_to_read(),
                    }
                } else {
                    self.turn_to_read()
                }
            },
            None => self.turn_to_read(),
        }
    }

    /// Takes the outcome of a write: it is noted in the status of the
    /// channel written, and the worker turns to its read. The cycle goes on
    /// whatever the outcome.
    pub fn write_done(&mut self, outcome: WriteOutcome) -> (action: WorkerAction)
        requires
            old(self).wf(),
        ensures
            final(self).wf(),
            finishes_write(old(self)@, outcome, final(self)@, action),
    {
        match self.phase {
            WorkerPhase::Writing { channel } => {
                if channel < self.devices[self.index].channels.len() {
                    self.devices[self.index].channels[channel].write_value(&outcome);
                    proof {
                        let begin = old(self)@;
                        let before = begin.own().channels[channel as int];
                        let noted = DeviceView {
                            channels: begin.own().channels.update(
                                channel as int,
                                ChannelView { status: before.write_status(outcome), ..before },
                            ),
                            ..begin.own()
                        };
                        assert(self@.own().channels =~= noted.channels);
                        assert(self@.devices =~= begin.with_own(noted).devices);
                    }
                }
                self.turn_to_read()
            },
            _ => WorkerAction::Wait,
        }
    }

    /// Takes the outcome of the bulk read. Words are decoded into the
    /// channels and every alarm is evaluated; a failure leaves every value
    /// and alarm as it was and puts its cause into the device's status.
    /// Either way the snapshot is published.
    pub fn read_done(&mut self, outcome: ReadOutcome) -> (action: WorkerAction)
        requires
            old(self).wf(),
        ensures
            final(self).wf(),
            finishes_read(old(self)@, outcome, final(self)@, action),
    {
        match self.phase {
            WorkerPhase::Reading { window } => {
                match outcome {
                    ReadOutcome::Words(words) => {
                        let ghost before = self.devices@[self.index as int];
                        decode(&window, &words, &mut self.devices[self.index].channels);
                        let ghost decoded = self.devices@[self.index as int];
                        self.devices[self.index].evaluate_alarms();
                        let ghost refreshed = self.devices@[self.index as int]@;
                        proof {
                            assert(decoded@ == (DeviceView {
                                channels: decoded@.channels,
                                ..before@
                            }));
                            assert forall|j: int| 0 <= j < before@.channels.len() implies is_decoded(
                                #[trigger] before@.channels[j],
                                window,
                                words@,
                                decoded@.channels[j],
                            ) by {
                                assert(before@.channels[j] == before.channels@[j]@);
                                assert(decoded@.channels[j] == decoded.channels@[j]@);
                            }
                            assert(is_refreshed(before@, window, words@, refreshed));
                            assert(self@.devices =~= old(self)@.with_own(refreshed).devices);
                        }
                        self.publish()
                    },
                    ReadOutcome::Failed(cause) => {
                        self.set_status(cause);
                        self.publish()
                    },
                }
            },
            _ => WorkerAction::Wait,
        }
    }

    /// Takes the end of a cycle: the worker is back at the top.
    pub fn cycle_done(&mut self) -> (action: WorkerAction)
        requires
            old(self).wf(),
        ensures
            final(self).wf(),
            finishes_cycle(old(self)@, final(self)@, action),
    {
        match self.phase {
            WorkerPhase::Publishing => {
                self.phase = WorkerPhase::Idle;
                WorkerAction::CheckMail
            },
            _ => WorkerAction::Wait,
        }
    }

    /// Takes an event and names the next action. An event other than the
    /// one awaited is dropped.
    pub fn step(&mut self, event: WorkerEvent) -> (action: WorkerAction)
        requires
            old(self).wf(),
        ensures
            final(self).wf(),
            match event {
                WorkerEvent::Started => starts(old(self)@, final(self)@, action),
                WorkerEvent::ConnectDone(outcome) => connects(
                    old(self)@,
                    outcome,
                    final(self)@,
                    action,
                ),
                WorkerEvent::Mail(mail) => takes_mail(old(self)@, mail, final(self)@, action),
                WorkerEvent::WriteDone(outcome) => finishes_write(
                    old(self)@,
                    outcome,
                    final(self)@,
                    action,
                ),
                WorkerEvent::ReadDone(outcome) => finishes_read(
                    old(self)@,
                    outcome,
                    final(self)@,
                    action,
                ),
                WorkerEvent::CycleDone => finishes_cycle(old(self)@, final(self)@, action),
            },
    {
        match event {
            WorkerEvent::Started => self.start(),
            WorkerEvent::ConnectDone(outcome) => self.connect_done(outcome),
            WorkerEvent::Mail(mail) => self.mail(mail),
            WorkerEvent::WriteDone(outcome) => self.write_done(outcome),
            WorkerEvent::ReadDone(outcome) => self.read_done(outcome),
            WorkerEvent::CycleDone => self.cycle_done(),
        }
    }
}

} // verus!
