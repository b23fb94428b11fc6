//! The hotkey listener: from key events to a captured frame that is handed
//! to the preview, one step of outside work at a time.

use crate::error::PipelineError;
use crate::frame::{capture_frame, normalizes, raw_layout_ok, CapturedFrame, FrameModel, RawFrame};
use crate::hotkey::{after_event, HotkeyTracker, KeyChord, KeyEvent};
use crate::monitor::{MonitorGeometry, ScreenPoint};
use crate::trigger::{plan_capture, plans, CaptureTarget};
use vstd::prelude::*;

verus! {

/// Where the listener stands between a fired chord and the hand-off.
#[derive(Clone, Copy, Debug, PartialEq, Eq, Structural)]
pub enum ListenerState {
    /// Waiting for the chord.
    Armed,
    /// The chord fired; the pointer position has been asked for.
    AwaitingPointer,
    /// A display was chosen; its frame has been asked for.
    AwaitingFrame(CaptureTarget),
    /// The frame was handed out for saving; the outcome is awaited.
    AwaitingSave(CaptureTarget),
}

/// What the outside reports to the listener.
#[derive(Debug)]
pub enum ListenerEvent {
    /// A key went down or up.
    Key(KeyEvent),
    /// The pointer position, if it could be read, and the displays in
    /// enumeration order.
    Pointer(Option<ScreenPoint>, Vec<MonitorGeometry>),
    /// What the display backend returned for the chosen display.
    Frame(Option<RawFrame>),
    /// Whether the frame was written to the hand-off file.
    Saved(bool),
}

/// What the caller does for the listener.
#[derive(Debug)]
pub enum ListenerAction {
    /// Nothing.
    Nothing,
    /// Read the pointer position and enumerate the displays.
    QueryPointer,
    /// Grab one frame of the display with this index.
    Capture(usize),
    /// Write the frame to the hand-off file.
    Save(CapturedFrame),
    /// Start the preview for the display at this origin.
    HandOff(ScreenPoint),
    /// The trigger ended with this failure; the listener is armed again.
    Abandon(PipelineError),
}

/// What an action amounts to, the frame by its model.
pub enum ListenerActionModel {
    Nothing,
    QueryPointer,
    Capture(usize),
    Save(FrameModel),
    HandOff(ScreenPoint),
    Abandon(PipelineError),
}

impl View for ListenerAction {
    type V = ListenerActionModel;

    open spec fn view(&self) -> ListenerActionModel {
        match *self {
            ListenerAction::Nothing => ListenerActionModel::Nothing,
            ListenerAction::QueryPointer => ListenerActionModel::QueryPointer,
            ListenerAction::Capture(index) => ListenerActionModel::Capture(index),
            ListenerAction::Save(frame) => ListenerActionModel::Save(frame@),
            ListenerAction::HandOff(origin) => ListenerActionModel::HandOff(origin),
            ListenerAction::Abandon(e) => ListenerActionModel::Abandon(e),
        }
    }
}

/// The step that a pointer reading allows: a display is chosen and its frame
/// asked for, or the trigger is abandoned.
pub open spec fn pointer_step(
    pointer: Option<ScreenPoint>,
    monitors: Seq<MonitorGeometry>,
    next: ListenerState,
    action: ListenerActionModel,
) -> bool {
    match action {
        ListenerActionModel::Capture(index) => {
            &&& next matches ListenerState::AwaitingFrame(target)
            &&& target.index == index
            &&& plans(pointer, monitors, Ok(target))
        },
        ListenerActionModel::Abandon(e) => {
            &&& next == ListenerState::Armed
            &&& plans(pointer, monitors, Err(e))
        },
        _ => false,
    }
}

/// The step that a raw frame allows: the normalised frame goes out for
/// saving, or the trigger is abandoned because there is no frame or it
/// cannot be read.
pub open spec fn frame_step(
    target: CaptureTarget,
    raw: Option<RawFrame>,
    next: ListenerState,
    action: ListenerActionModel,
) -> bool {
    match action {
        ListenerActionModel::Save(frame) => {
            &&& next == ListenerState::AwaitingSave(target)
            &&& raw matches Some(r)
            &&& raw_layout_ok(r.bytes@.len() as int, r.width as int, r.height as int)
            &&& normalizes(r.bytes@, r.width as int, r.height as int, frame)
        },
        ListenerActionModel::Abandon(e) => {
            &&& next == ListenerState::Armed
            &&& match raw {
                None => e == PipelineError::CaptureUnavailable,
                Some(r) => e == PipelineError::FormatError && !raw_layout_ok(
                    r.bytes@.len() as int,
                    r.width as int,
                    r.height as int,
                ),
            }
        },
        _ => false,
    }
}

/// The step that the outcome of saving allows: the preview is started only
/// after the frame was written; otherwise the trigger is abandoned.
pub open spec fn saved_step(
    target: CaptureTarget,
    written: bool,
    next: ListenerState,
    action: ListenerActionModel,
) -> bool {
    &&& next == ListenerState::Armed
    &&& action == if written {
        ListenerActionModel::HandOff(target.origin)
    } else {
        ListenerActionModel::Abandon(PipelineError::IoFailure)
    }
}

/// The long-lived listener of the capture side.
pub struct Listener {
    tracker: HotkeyTracker,
    state: ListenerState,
}

impl Listener {
    /// The chord that is watched.
    pub closed spec fn chord(&self) -> Seq<u32> {
        self.tracker.chord()
    }

    /// The keys that are held, in press order.
    pub closed spec fn held(&self) -> Seq<u32> {
        self.tracker.held()
    }

    /// Where the listener stands.
    pub closed spec fn state(&self) -> ListenerState {
        self.state
    }

    /// The chord rises with an event: it was not held before and is held after.
    pub open spec fn rises(&self, key: KeyEvent) -> bool {
        &&& !self.chord().is_prefix_of(self.held())
        &&& self.chord().is_prefix_of(after_event(self.held(), key.code, key.pressed))
    }

    /// One step of the listener.
    ///
    /// A key event always updates the held keys; it starts a trigger only
    /// when the listener is armed and the chord rises. Each later event is
    /// taken only in the state that waits for it and is ignored in every
    /// other. A trigger ends with the hand-off or is abandoned, and either
    /// way the listener is armed again.
    pub open spec fn steps(
        &self,
        event: ListenerEvent,
        next: Listener,
        action: ListenerActionModel,
    ) -> bool {
        &&& next.chord() == self.chord()
        &&& match event {
            ListenerEvent::Key(key) => {
                &&& next.held() == after_event(self.held(), key.code, key.pressed)
                &&& if self.state() == ListenerState::Armed && self.rises(key) {
                    next.state() == ListenerState::AwaitingPointer && action
                        == ListenerActionModel::QueryPointer
                } else {
                    next.state() == self.state() && action == ListenerActionModel::Nothing
                }
            },
            ListenerEvent::Pointer(pointer, monitors) => {
                &&& next.held() == self.held()
                &&& if self.state() == ListenerState::AwaitingPointer {
                    pointer_step(pointer, monitors@, next.state(), action)
                } else {
                    next.state() == self.state() && action == ListenerActionModel::Nothing
                }
            },
            ListenerEvent::Frame(raw) => {
                &&& next.held() == self.held()
                &&& if let ListenerState::AwaitingFrame(target) = self.state() {
                    frame_step(target, raw, next.state(), action)
                } else {
                    next.state() == self.state() && action == ListenerActionModel::Nothing
                }
            },
            ListenerEvent::Saved(written) => {
                &&& next.held() == self.held()
                &&& if let ListenerState::AwaitingSave(target) = self.state() {
                    saved_step(target, written, next.state(), action)
                } else {
                    next.state() == self.state() && action == ListenerActionModel::Nothing
                }
            },
        }
    }

    /// An armed listener for `chord`, with no key held.
    pub fn new(chord: KeyChord) -> (listener: Listener)
        ensures
            listener.chord() == chord@,
            listener.held() == Seq::<u32>::empty(),
            listener.state() == ListenerState::Armed,
    {
        Listener { tracker: HotkeyTracker::new(chord), state: ListenerState::Armed }
    }

    /// Where the listener stands.
    pub fn current(&self) -> (state: ListenerState)
        ensures
            state == self.state(),
    {
        self.state
    }

    /// Takes one event and says what the caller does next.
    pub fn step(&mut self, event: ListenerEvent) -> (action: ListenerAction)
        ensures
            old(self).steps(event, *final(self), action@),
    {
        match event {
            ListenerEvent::Key(key) => {
                let fired = self.tracker.on_key_event(key.code, key.pressed);
                match self.state {
                    ListenerState::Armed => {
                        if fired {
                            self.state = ListenerState::AwaitingPointer;
                            ListenerAction::QueryPointer
                        } else {
                            ListenerAction::Nothing
                        }
                    },
                    _ => ListenerAction::Nothing,
                }
            },
            ListenerEvent::Pointer(pointer, monitors) => match self.state {
                ListenerState::AwaitingPointer => {
                    match plan_capture(pointer, monitors.as_slice()) {
                        Ok(target) => {
                            self.state = ListenerState::AwaitingFrame(target);
                            ListenerAction::Capture(target.index)
                        },
                        Err(e) => {
                            self.state = ListenerState::Armed;
                            ListenerAction::Abandon(e)
                        },
                    }
                },
                _ => ListenerAction::Nothing,
            },
            ListenerEvent::Frame(raw) => match self.state {
                ListenerState::AwaitingFrame(target) => {
                    match capture_frame(raw) {
                        Ok(frame) => {
                            self.state = ListenerState::AwaitingSave(target);
                            ListenerAction::Save(frame)
                        },
                        Err(e) => {
                            self.state = ListenerState::Armed;
                            ListenerAction::Abandon(e)
                        },
                    }
                },
                _ => ListenerAction::Nothing,
            },
            ListenerEvent::Saved(written) => match self.state {
                ListenerState::AwaitingSave(target) => {
                    self.state = ListenerState::Armed;
                    if written {
                        ListenerAction::HandOff(target.origin)
                    } else {
                        ListenerAction::Abandon(PipelineError::IoFailure)
                    }
                },
                _ => ListenerAction::Nothing,
            },
        }
    }
}

/// The preview is started only after the frame was written: a hand-off
/// comes from no step but the one that takes a successful save in the state
/// that waits for it, and it names the origin of the display that was chosen.
pub proof fn lemma_hand_off_follows_save(
    before: Listener,
    event: ListenerEvent,
    after: Listener,
    action: ListenerActionModel,
)
    requires
        before.steps(event, after, action),
        action is HandOff,
    ensures
        event == ListenerEvent::Saved(true),
        before.state() is AwaitingSave,
        action == ListenerActionModel::HandOff(before.state()->AwaitingSave_0.origin),
        after.state() == ListenerState::Armed,
{
}

/// No failure stops the listener: whenever a trigger is abandoned, the
/// listener is armed again and holds the keys it held.
pub proof fn lemma_abandon_rearms(
    before: Listener,
    event: ListenerEvent,
    after: Listener,
    action: ListenerActionModel,
)
    requires
        before.steps(event, after, action),
        action is Abandon,
    ensures
        after.state() == ListenerState::Armed,
        after.held() == before.held(),
        after.chord() == before.chord(),
{
}

} // verus!
