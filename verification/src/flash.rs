//! The flash protocol as a state machine. The host owns the device: it
//! probes for the volume, writes the image and sleeps. After each probe or
//! write it reports what happened and is told what to do next. Nothing here
//! touches the file system, so every run can be replayed from its events.

use vstd::prelude::*;
use vstd::string::StringExecFns;
use crate::drive::DriveHandle;

verus! {

/// The pause between two probes while waiting for the volume to vanish.
pub const DISCONNECT_PAUSE_MILLIS: u64 = 500;

/// How many probes in a row may still see the volume after the write.
pub const DISCONNECT_POLL_LIMIT: u32 = 20;

/// The pause between two probes while waiting for the volume to come back.
pub const RECONNECT_PAUSE_MILLIS: u64 = 100;

/// How many probes in a row may miss the volume while it should come back.
pub const RECONNECT_POLL_LIMIT: u32 = 100;

/// The pause that lets a remounted volume settle before success is reported.
pub const SETTLE_MILLIS: u64 = 500;

/// The two operations on a bootloader volume.
#[derive(Clone, Copy, PartialEq, Eq, Structural, Debug)]
pub enum FlashMode {
    /// Wipe the flash and come back as bootloader.
    Erase,
    /// Install the firmware that the caller supplies.
    Install,
}

/// The image that is written to the volume.
#[derive(Clone, Copy, PartialEq, Eq, Structural, Debug)]
pub enum Image {
    /// The bundled image that wipes the flash.
    Nuke,
    /// The caller's firmware.
    Firmware,
}

/// Why a flash operation failed.
#[derive(Debug, PartialEq, Eq)]
pub enum FlashError {
    /// No bootloader volume was present when the operation began.
    DeviceNotFound,
    /// Writing the image failed; the text is the system's explanation.
    WriteFailed { image: Image, detail: String },
    /// The volume was still there after the last permitted probe.
    DeviceDidNotDisconnect,
    /// The volume did not come back within the permitted probes.
    DeviceDidNotReconnect,
}

/// Where a flash operation stands. Each state but `Done` waits for one
/// report from the host.
#[derive(Debug, PartialEq, Eq)]
pub enum FlashState {
    /// Waiting for the first probe.
    Locating,
    /// Waiting for the outcome of the write.
    Writing,
    /// Waiting for a probe that no longer sees the volume; `polls` probes
    /// have seen it so far.
    AwaitingDisconnect { polls: u32 },
    /// Erase only: making sure that the volume is gone before waiting for
    /// it to return.
    AwaitingAbsence,
    /// Erase only: waiting for the volume to return; `polls` probes have
    /// missed it so far.
    AwaitingReconnect { polls: u32 },
    /// The operation has ended.
    Done,
}

/// What the host reports.
#[derive(Debug, PartialEq, Eq)]
pub enum FlashEvent {
    /// A probe ended: the volume it found, if any.
    Probed(Option<DriveHandle>),
    /// The write ended: nothing on success, the system's explanation on
    /// failure.
    Written(Result<(), String>),
}

/// What the host does after the pause of a [`Step`].
#[derive(Debug, PartialEq, Eq)]
pub enum Next {
    /// Probe for the volume and report `Probed`.
    Probe,
    /// Write `image` to its file at the root of `volume` and report
    /// `Written`.
    Write { volume: DriveHandle, image: Image },
    /// Return this result to the caller.
    Finish(Result<(), FlashError>),
}

/// One instruction to the host: sleep for `pause_millis`, then do `action`.
#[derive(Debug, PartialEq, Eq)]
pub struct Step {
    pub pause_millis: u64,
    pub action: Next,
}

impl FlashMode {
    /// The operation that a request selects: erase whenever it is asked
    /// for, else install when firmware came with the request. A request for
    /// neither selects nothing.
    pub fn select(erase_requested: bool, has_firmware: bool) -> (mode: Option<FlashMode>)
        ensures
            mode == if erase_requested {
                Some(FlashMode::Erase)
            } else if has_firmware {
                Some(FlashMode::Install)
            } else {
                None::<FlashMode>
            },
    {
        if erase_requested {
            Some(FlashMode::Erase)
        } else if has_firmware {
            Some(FlashMode::Install)
        } else {
            None
        }
    }

    /// The image that this operation writes.
    pub fn image(self) -> (image: Image)
        ensures
            image == self.image_spec(),
    {
        match self {
            FlashMode::Erase => Image::Nuke,
            FlashMode::Install => Image::Firmware,
        }
    }

    /// The image that this operation writes.
    pub open spec fn image_spec(self) -> Image {
        match self {
            FlashMode::Erase => Image::Nuke,
            FlashMode::Install => Image::Firmware,
        }
    }
}

impl Image {
    /// The name of the file at the volume's root that receives the image.
    pub open spec fn file_name_text(self) -> Seq<char> {
        match self {
            Image::Nuke => "flash_nuke.uf2"@,
            Image::Firmware => "firmware.uf2"@,
        }
    }

    /// The name of the file at the volume's root that receives the image.
    pub fn file_name(self) -> (name: &'static str)
        ensures
            name@ == self.file_name_text(),
    {
        match self {
            Image::Nuke => "flash_nuke.uf2",
            Image::Firmware => "firmware.uf2",
        }
    }
}

impl FlashError {
    /// What [`FlashError::message`] yields.
    pub open spec fn message_text(self) -> Seq<char> {
        match self {
            FlashError::DeviceNotFound => "RPI-RP2 drive not found"@,
            FlashError::WriteFailed { image: Image::Nuke, detail } =>
                "Failed to write flash_nuke.uf2: "@ + detail@,
            FlashError::WriteFailed { image: Image::Firmware, detail } =>
                "Failed to write firmware: "@ + detail@,
            FlashError::DeviceDidNotDisconnect => "Device did not disconnect after flashing"@,
            FlashError::DeviceDidNotReconnect => "Timeout waiting for device to reconnect"@,
        }
    }

    /// The text shown to the user for this error.
    pub fn message(&self) -> (text: String)
        ensures
            text@ == self.message_text(),
    {
        match self {
            FlashError::DeviceNotFound => String::from_str("RPI-RP2 drive not found"),
            FlashError::WriteFailed { image, detail } => match image {
                Image::Nuke => String::from_str("Failed to write flash_nuke.uf2: ").concat(
                    detail.as_str(),
                ),
                Image::Firmware => String::from_str("Failed to write firmware: ").concat(
                    detail.as_str(),
                ),
            },
            FlashError::DeviceDidNotDisconnect => String::from_str(
                "Device did not disconnect after flashing",
            ),
            FlashError::DeviceDidNotReconnect => String::from_str(
                "Timeout waiting for device to reconnect",
            ),
        }
    }
}

impl FlashState {
    /// Whether `event` is the report that this state waits for.
    pub open spec fn accepts(self, event: FlashEvent) -> bool {
        match self {
            FlashState::Writing => event is Written,
            FlashState::Done => false,
            _ => event is Probed,
        }
    }
}

/// A step without a pause.
pub open spec fn at_once(action: Next) -> Step {
    Step { pause_millis: 0, action }
}

/// A step that pauses first.
pub open spec fn after(pause_millis: u64, action: Next) -> Step {
    Step { pause_millis, action }
}

/// The protocol: the state that follows `state` on `event`, and the
/// instruction that goes with it.
///
/// The write comes first and only after a volume was found. Then the volume
/// must vanish: each probe that still sees it costs one pause, and the
/// probe that reaches the limit ends the operation. Install ends as soon as
/// the volume is gone. Erase goes on until the volume has come back, again
/// within a limit, and lets it settle. The protocol says nothing of a report
/// that the state does not wait for.
pub open spec fn next(mode: FlashMode, state: FlashState, event: FlashEvent) -> (FlashState, Step)
    recommends
        state.accepts(event),
{
    match (state, event) {
        (FlashState::Locating, FlashEvent::Probed(Some(volume))) => (
            FlashState::Writing,
            at_once(Next::Write { volume, image: mode.image_spec() }),
        ),
        (FlashState::Locating, FlashEvent::Probed(None)) => (
            FlashState::Done,
            at_once(Next::Finish(Err(FlashError::DeviceNotFound))),
        ),
        (FlashState::Writing, FlashEvent::Written(Ok(_))) => (
            FlashState::AwaitingDisconnect { polls: 0 },
            at_once(Next::Probe),
        ),
        (FlashState::Writing, FlashEvent::Written(Err(detail))) => (
            FlashState::Done,
            at_once(
                Next::Finish(Err(FlashError::WriteFailed { image: mode.image_spec(), detail })),
            ),
        ),
        (FlashState::AwaitingDisconnect { polls }, FlashEvent::Probed(Some(_))) => if polls + 1
            < DISCONNECT_POLL_LIMIT {
            (
                FlashState::AwaitingDisconnect { polls: (polls + 1) as u32 },
                after(DISCONNECT_PAUSE_MILLIS, Next::Probe),
            )
        } else {
            (
                FlashState::Done,
                after(
                    DISCONNECT_PAUSE_MILLIS,
                    Next::Finish(Err(FlashError::DeviceDidNotDisconnect)),
                ),
            )
        },
        (FlashState::AwaitingDisconnect { polls }, FlashEvent::Probed(None)) => match mode {
            FlashMode::Install => (FlashState::Done, at_once(Next::Finish(Ok(())))),
            FlashMode::Erase => (FlashState::AwaitingAbsence, at_once(Next::Probe)),
        },
        (FlashState::AwaitingAbsence, FlashEvent::Probed(Some(_))) => (
            FlashState::AwaitingAbsence,
            after(RECONNECT_PAUSE_MILLIS, Next::Probe),
        ),
        (FlashState::AwaitingAbsence, FlashEvent::Probed(None)) => (
            FlashState::AwaitingReconnect { polls: 0 },
            at_once(Next::Probe),
        ),
        (FlashState::AwaitingReconnect { polls }, FlashEvent::Probed(None)) => if polls + 1
            < RECONNECT_POLL_LIMIT {
            (
                FlashState::AwaitingReconnect { polls: (polls + 1) as u32 },
                after(RECONNECT_PAUSE_MILLIS, Next::Probe),
            )
        } else {
            (
                FlashState::Done,
                after(RECONNECT_PAUSE_MILLIS, Next::Finish(Err(FlashError::DeviceDidNotReconnect))),
            )
        },
        (FlashState::AwaitingReconnect { polls }, FlashEvent::Probed(Some(_))) => (
            FlashState::Done,
            after(SETTLE_MILLIS, Next::Finish(Ok(()))),
        ),
        _ => (state, at_once(Next::Probe)),
    }
}

/// One flash operation in progress.
pub struct FlashOrchestrator {
    pub mode: FlashMode,
    pub state: FlashState,
}

impl FlashOrchestrator {
    /// Begins an operation. The host starts by probing for the volume.
    pub fn begin(mode: FlashMode) -> (started: (FlashOrchestrator, Step))
        ensures
            started.0.mode == mode,
            started.0.state == FlashState::Locating,
            started.1 == at_once(Next::Probe),
    {
        (
            FlashOrchestrator { mode, state: FlashState::Locating },
            Step { pause_millis: 0, action: Next::Probe },
        )
    }

    /// Whether the operation has ended.
    pub fn is_done(&self) -> (done: bool)
        ensures
            done == (self.state is Done),
    {
        match self.state {
            FlashState::Done => true,
            _ => false,
        }
    }

    /// Whether `event` is the report that the operation waits for.
    pub fn accepts(&self, event: &FlashEvent) -> (accepted: bool)
        ensures
            accepted == self.state.accepts(*event),
    {
        match self.state {
            FlashState::Writing => match event {
                FlashEvent::Written(_) => true,
                _ => false,
            },
            FlashState::Done => false,
            _ => match event {
                FlashEvent::Probed(_) => true,
                _ => false,
            },
        }
    }

    /// Takes the host's report and says what to do next.
    pub fn advance(&mut self, event: FlashEvent) -> (step: Step)
        requires
            old(self).state.accepts(event),
        ensures
            final(self).mode == old(self).mode,
            (final(self).state, step) == next(old(self).mode, old(self).state, event),
    {
        let mode = self.mode;
        match event {
            FlashEvent::Probed(found) => match self.state {
                FlashState::Locating => match found {
                    Some(volume) => {
                        self.state = FlashState::Writing;
                        Step { pause_millis: 0, action: Next::Write { volume, image: mode.image() } }
                    },
                    None => {
                        self.state = FlashState::Done;
                        Step {
                            pause_millis: 0,
                            action: Next::Finish(Err(FlashError::DeviceNotFound)),
                        }
                    },
                },
                FlashState::AwaitingDisconnect { polls } => match found {
                    Some(_) => {
                        if polls < DISCONNECT_POLL_LIMIT - 1 {
                            self.state = FlashState::AwaitingDisconnect { polls: polls + 1 };
                            Step { pause_millis: DISCONNECT_PAUSE_MILLIS, action: Next::Probe }
                        } else {
                            self.state = FlashState::Done;
                            Step {
                                pause_millis: DISCONNECT_PAUSE_MILLIS,
                                action: Next::Finish(Err(FlashError::DeviceDidNotDisconnect)),
                            }
                        }
                    },
                    None => match mode {
                        FlashMode::Install => {
                            self.state = FlashState::Done;
                            Step { pause_millis: 0, action: Next::Finish(Ok(())) }
                        },
                        FlashMode::Erase => {
                            self.state = FlashState::AwaitingAbsence;
                            Step { pause_millis: 0, action: Next::Probe }
                        },
                    },
                },
                FlashState::AwaitingAbsence => match found {
                    Some(_) => Step { pause_millis: RECONNECT_PAUSE_MILLIS, action: Next::Probe },
                    None => {
                        self.state = FlashState::AwaitingReconnect { polls: 0 };
                        Step { pause_millis: 0, action: Next::Probe }
                    },
                },
                FlashState::AwaitingReconnect { polls } => match found {
                    None => {
                        if polls < RECONNECT_POLL_LIMIT - 1 {
                            self.state = FlashState::AwaitingReconnect { polls: polls + 1 };
                            Step { pause_millis: RECONNECT_PAUSE_MILLIS, action: Next::Probe }
                        } else {
                            self.state = FlashState::Done;
                            Step {
                                pause_millis: RECONNECT_PAUSE_MILLIS,
                                action: Next::Finish(Err(FlashError::DeviceDidNotReconnect)),
                            }
                        }
                    },
                    Some(_) => {
                        self.state = FlashState::Done;
                        Step { pause_millis: SETTLE_MILLIS, action: Next::Finish(Ok(())) }
                    },
                },
                _ => Step { pause_millis: 0, action: Next::Probe },
            },
            FlashEvent::Written(outcome) => match outcome {
                Ok(_) => {
                    self.state = FlashState::AwaitingDisconnect { polls: 0 };
                    Step { pause_millis: 0, action: Next::Probe }
                },
                Err(detail) => {
                    self.state = FlashState::Done;
                    Step {
                        pause_millis: 0,
                        action: Next::Finish(
                            Err(FlashError::WriteFailed { image: mode.image(), detail }),
                        ),
                    }
                },
            },
        }
    }
}

/// The state reached from `state` by the reports `events`, in order, and the
/// instructions given on the way.
pub open spec fn replay(mode: FlashMode, state: FlashState, events: Seq<FlashEvent>) -> (
    FlashState,
    Seq<Step>,
)
    decreases events.len(),
{
    if events.len() == 0 {
        (state, Seq::empty())
    } else {
        let (reached, steps) = replay(mode, state, events.drop_last());
        let (end, step) = next(mode, reached, events.last());
        (end, steps.push(step))
    }
}

/// The sum of the pauses of `steps`.
pub open spec fn total_pause(steps: Seq<Step>) -> int
    decreases steps.len(),
{
    if steps.len() == 0 {
        0
    } else {
        total_pause(steps.drop_last()) + steps.last().pause_millis
    }
}

/// An operation that finds no volume at its first probe ends at once with
/// `DeviceNotFound`; it is never told to write.
pub proof fn lemma_absent_device_fails_unwritten(mode: FlashMode)
    ensures
        next(mode, FlashState::Locating, FlashEvent::Probed(None)) == (
            FlashState::Done,
            at_once(Next::Finish(Err(FlashError::DeviceNotFound))),
        ),
{
}

/// A write is only ever asked for in answer to the first probe, and then
/// to the very volume that this probe found.
pub proof fn lemma_write_follows_discovery(mode: FlashMode, state: FlashState, event: FlashEvent)
    requires
        state.accepts(event),
        next(mode, state, event).1.action is Write,
    ensures
        state is Locating,
        event == FlashEvent::Probed(Some(next(mode, state, event).1.action->volume)),
        next(mode, state, event).1.action->image == mode.image_spec(),
{
}

/// Whether `event` is a probe that saw the volume.
pub open spec fn saw_volume(event: FlashEvent) -> bool {
    event matches FlashEvent::Probed(Some(_))
}

/// Whether every one of `events` is a probe that saw the volume.
pub open spec fn all_present(events: Seq<FlashEvent>) -> bool {
    forall|i: int| 0 <= i < events.len() ==> saw_volume(#[trigger] events[i])
}

/// Whether every one of `events` is a probe that saw no volume.
pub open spec fn all_absent(events: Seq<FlashEvent>) -> bool {
    forall|i: int| 0 <= i < events.len() ==> events[i] == FlashEvent::Probed(None)
}

/// While fewer probes than the limit have seen the volume, the operation
/// keeps waiting, one pause per probe.
pub proof fn lemma_disconnect_wait(mode: FlashMode, events: Seq<FlashEvent>)
    requires
        all_present(events),
        events.len() < DISCONNECT_POLL_LIMIT,
    ensures
        replay(mode, FlashState::AwaitingDisconnect { polls: 0 }, events).0
            == (FlashState::AwaitingDisconnect { polls: events.len() as u32 }),
        replay(mode, FlashState::AwaitingDisconnect { polls: 0 }, events).1.len() == events.len(),
        forall|i: int|
            0 <= i < events.len() ==> replay(
                mode,
                FlashState::AwaitingDisconnect { polls: 0 },
                events,
            ).1[i] == after(DISCONNECT_PAUSE_MILLIS, Next::Probe),
        total_pause(replay(mode, FlashState::AwaitingDisconnect { polls: 0 }, events).1)
            == DISCONNECT_PAUSE_MILLIS * events.len(),
    decreases events.len(),
{
    if events.len() > 0 {
        let earlier = events.drop_last();
        lemma_disconnect_wait(mode, earlier);
        let steps = replay(mode, FlashState::AwaitingDisconnect { polls: 0 }, events).1;
        assert(steps.drop_last() =~= replay(
            mode,
            FlashState::AwaitingDisconnect { polls: 0 },
            earlier,
        ).1);
    }
}

/// A volume that is still seen by twenty probes in a row after the write,
/// each followed by its pause of half a second, ends the operation with
/// `DeviceDidNotDisconnect` once ten seconds have been waited. This holds
/// for both operations, and whatever happened before the wait began.
pub proof fn lemma_disconnect_timeout(mode: FlashMode, events: Seq<FlashEvent>)
    requires
        all_present(events),
        events.len() == DISCONNECT_POLL_LIMIT,
    ensures
        replay(mode, FlashState::AwaitingDisconnect { polls: 0 }, events).0 == FlashState::Done,
        replay(mode, FlashState::AwaitingDisconnect { polls: 0 }, events).1.last() == after(
            DISCONNECT_PAUSE_MILLIS,
            Next::Finish(Err(FlashError::DeviceDidNotDisconnect)),
        ),
        forall|i: int|
            0 <= i < events.len() - 1 ==> replay(
                mode,
                FlashState::AwaitingDisconnect { polls: 0 },
                events,
            ).1[i] == after(DISCONNECT_PAUSE_MILLIS, Next::Probe),
        total_pause(replay(mode, FlashState::AwaitingDisconnect { polls: 0 }, events).1) == 10_000,
{
    let earlier = events.drop_last();
    lemma_disconnect_wait(mode, earlier);
    let steps = replay(mode, FlashState::AwaitingDisconnect { polls: 0 }, events).1;
    assert(steps.drop_last() =~= replay(
        mode,
        FlashState::AwaitingDisconnect { polls: 0 },
        earlier,
    ).1);
}

/// While fewer probes than the limit have missed the volume, an erase keeps
/// waiting for it to return, one pause per probe.
pub proof fn lemma_reconnect_wait(events: Seq<FlashEvent>)
    requires
        all_absent(events),
        events.len() < RECONNECT_POLL_LIMIT,
    ensures
        replay(FlashMode::Erase, FlashState::AwaitingReconnect { polls: 0 }, events).0
            == (FlashState::AwaitingReconnect { polls: events.len() as u32 }),
        total_pause(replay(FlashMode::Erase, FlashState::AwaitingReconnect { polls: 0 }, events).1)
            == RECONNECT_PAUSE_MILLIS * events.len(),
    decreases events.len(),
{
    if events.len() > 0 {
        let earlier = events.drop_last();
        lemma_reconnect_wait(earlier);
        let steps = replay(FlashMode::Erase, FlashState::AwaitingReconnect { polls: 0 }, events).1;
        assert(steps.drop_last() =~= replay(
            FlashMode::Erase,
            FlashState::AwaitingReconnect { polls: 0 },
            earlier,
        ).1);
    }
}

/// A volume that a hundred probes in a row miss, each followed by its pause
/// of a tenth of a second, ends an erase with `DeviceDidNotReconnect` once
/// ten seconds have been waited.
pub proof fn lemma_reconnect_timeout(events: Seq<FlashEvent>)
    requires
        all_absent(events),
        events.len() == RECONNECT_POLL_LIMIT,
    ensures
        replay(FlashMode::Erase, FlashState::AwaitingReconnect { polls: 0 }, events).0
            == FlashState::Done,
        replay(FlashMode::Erase, FlashState::AwaitingReconnect { polls: 0 }, events).1.last()
            == after(RECONNECT_PAUSE_MILLIS, Next::Finish(Err(FlashError::DeviceDidNotReconnect))),
        total_pause(replay(FlashMode::Erase, FlashState::AwaitingReconnect { polls: 0 }, events).1)
            == 10_000,
{
    let earlier = events.drop_last();
    lemma_reconnect_wait(earlier);
    let steps = replay(FlashMode::Erase, FlashState::AwaitingReconnect { polls: 0 }, events).1;
    assert(steps.drop_last() =~= replay(
        FlashMode::Erase,
        FlashState::AwaitingReconnect { polls: 0 },
        earlier,
    ).1);
}

} // verus!
