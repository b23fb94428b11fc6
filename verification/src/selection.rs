//! Drag selection: the state machine that pointer events drive, and the
//! crop rectangle that a finished selection yields.

use crate::coords::PixelPoint;
use vstd::prelude::*;

verus! {

/// The smaller of two pixel coordinates.
pub open spec fn lesser(a: u32, b: u32) -> u32 {
    if a < b {
        a
    } else {
        b
    }
}

/// The distance between two pixel coordinates.
pub open spec fn span(a: u32, b: u32) -> u32 {
    if a < b {
        (b - a) as u32
    } else {
        (a - b) as u32
    }
}

/// A rectangle in image pixels: top-left corner and size.
#[derive(Clone, Copy, Debug, PartialEq, Eq, Structural)]
pub struct CropRect {
    pub x: u32,
    pub y: u32,
    pub width: u32,
    pub height: u32,
}

impl CropRect {
    /// The rectangle lies within an image of the given size.
    pub open spec fn within(&self, image_width: u32, image_height: u32) -> bool {
        self.x + self.width <= image_width && self.y + self.height <= image_height
    }

    /// The whole of an image of the given size.
    pub open spec fn full_spec(image_width: u32, image_height: u32) -> CropRect {
        CropRect { x: 0, y: 0, width: image_width, height: image_height }
    }

    /// The part of the rectangle that an image of the given size holds: the
    /// corner is pulled back to the image's far edges, then the size is cut
    /// to what is left from the corner on.
    pub open spec fn clamped_spec(&self, image_width: u32, image_height: u32) -> CropRect {
        let x = lesser(self.x, image_width);
        let y = lesser(self.y, image_height);
        CropRect {
            x,
            y,
            width: lesser(self.width, (image_width - x) as u32),
            height: lesser(self.height, (image_height - y) as u32),
        }
    }

    /// The whole of an image of the given size.
    pub fn full(image_width: u32, image_height: u32) -> (rect: CropRect)
        ensures
            rect == Self::full_spec(image_width, image_height),
            rect.within(image_width, image_height),
    {
        CropRect { x: 0, y: 0, width: image_width, height: image_height }
    }

    /// Cuts the rectangle to the bounds of an image of the given size.
    pub fn clamped(&self, image_width: u32, image_height: u32) -> (rect: CropRect)
        ensures
            rect == self.clamped_spec(image_width, image_height),
            rect.within(image_width, image_height),
            self.within(image_width, image_height) ==> rect == *self,
    {
        let x: u32 = if self.x < image_width {
            self.x
        } else {
            image_width
        };
        let y: u32 = if self.y < image_height {
            self.y
        } else {
            image_height
        };
        let room_x: u32 = image_width - x;
        let room_y: u32 = image_height - y;
        CropRect {
            x,
            y,
            width: if self.width < room_x {
                self.width
            } else {
                room_x
            },
            height: if self.height < room_y {
                self.height
            } else {
                room_y
            },
        }
    }
}

/// The two corners of a drag: where the button went down, and where the
/// pointer is now or was when the button came up.
#[derive(Clone, Copy, Debug, PartialEq, Eq, Structural)]
pub struct DragRectangle {
    pub anchor: PixelPoint,
    pub end: PixelPoint,
}

impl DragRectangle {
    /// The rectangle between the two corners, whichever way the drag went:
    /// the corner is the smaller coordinate on each axis, the size the
    /// distance between the two.
    pub open spec fn normalized_spec(&self) -> CropRect {
        CropRect {
            x: lesser(self.anchor.x, self.end.x),
            y: lesser(self.anchor.y, self.end.y),
            width: span(self.anchor.x, self.end.x),
            height: span(self.anchor.y, self.end.y),
        }
    }

    /// The rectangle between the two corners, whichever way the drag went.
    pub fn normalized(&self) -> (rect: CropRect)
        ensures
            rect == self.normalized_spec(),
    {
        let (x, width): (u32, u32) = if self.end.x < self.anchor.x {
            (self.end.x, self.anchor.x - self.end.x)
        } else {
            (self.anchor.x, self.end.x - self.anchor.x)
        };
        let (y, height): (u32, u32) = if self.end.y < self.anchor.y {
            (self.end.y, self.anchor.y - self.end.y)
        } else {
            (self.anchor.y, self.end.y - self.anchor.y)
        };
        CropRect { x, y, width, height }
    }
}

/// The rectangle of a drag does not depend on the direction of the drag:
/// swapping the two corners, or their coordinates on one axis only, gives
/// the same rectangle, whose corner and size contain both corners.
pub proof fn lemma_normalized_any_direction(drag: DragRectangle)
    ensures
        (DragRectangle { anchor: drag.end, end: drag.anchor }).normalized_spec()
            == drag.normalized_spec(),
        (DragRectangle {
            anchor: PixelPoint { x: drag.end.x, y: drag.anchor.y },
            end: PixelPoint { x: drag.anchor.x, y: drag.end.y },
        }).normalized_spec() == drag.normalized_spec(),
        (DragRectangle {
            anchor: PixelPoint { x: drag.anchor.x, y: drag.end.y },
            end: PixelPoint { x: drag.end.x, y: drag.anchor.y },
        }).normalized_spec() == drag.normalized_spec(),
        drag.normalized_spec().x <= drag.anchor.x <= drag.normalized_spec().x
            + drag.normalized_spec().width,
        drag.normalized_spec().x <= drag.end.x <= drag.normalized_spec().x
            + drag.normalized_spec().width,
        drag.normalized_spec().y <= drag.anchor.y <= drag.normalized_spec().y
            + drag.normalized_spec().height,
        drag.normalized_spec().y <= drag.end.y <= drag.normalized_spec().y
            + drag.normalized_spec().height,
{
}

/// Where a selection stands.
#[derive(Clone, Copy, Debug, PartialEq, Eq, Structural)]
pub enum SelectionState {
    /// No drag yet.
    Idle,
    /// The button is down; the rectangle's end follows the pointer.
    Dragging(DragRectangle),
    /// The button came up; the rectangle is final.
    Closed(DragRectangle),
    /// The selection ended without a rectangle.
    Consumed,
}

impl SelectionState {
    /// The selection is over: nothing changes it any more.
    pub open spec fn is_terminal(&self) -> bool {
        *self is Closed || *self is Consumed
    }

    /// The rectangle to draw: the one of an open or a closed drag.
    pub open spec fn rectangle(&self) -> Option<DragRectangle> {
        match *self {
            SelectionState::Dragging(drag) => Some(drag),
            SelectionState::Closed(drag) => Some(drag),
            _ => None,
        }
    }
}

/// What the pointer or the keyboard did.
#[derive(Clone, Copy, Debug, PartialEq, Eq, Structural)]
pub enum SelectionEvent {
    /// The pointer moved to a position.
    Move(PixelPoint),
    /// The selecting button went down.
    Press,
    /// The selecting button came up.
    Release,
    /// The cancel key was pressed, or the window was asked to close.
    Cancel,
}

/// What the caller does after an event.
#[derive(Clone, Copy, Debug, PartialEq, Eq, Structural)]
pub enum SelectionOutcome {
    /// Nothing.
    Ignored,
    /// The rectangle changed: draw again.
    Redraw,
    /// The selection is over: crop and end the session.
    Finished,
}

/// A selection in progress: its state and the last known pointer position.
#[derive(Clone, Copy, Debug, PartialEq, Eq, Structural)]
pub struct Selection {
    pub state: SelectionState,
    pub pointer: PixelPoint,
}

impl Selection {
    /// The selection after an event.
    ///
    /// A press anchors a drag at the pointer, a move carries the pointer and
    /// the end of an open drag along, a release closes the drag with its end
    /// at the pointer. Cancelling ends the selection without a rectangle,
    /// also in the middle of a drag, and so does a release that no press
    /// preceded. A selection that is over ignores every event.
    pub open spec fn after(&self, event: SelectionEvent) -> Selection {
        match (self.state, event) {
            (SelectionState::Idle, SelectionEvent::Move(to)) => Selection {
                state: SelectionState::Idle,
                pointer: to,
            },
            (SelectionState::Dragging(drag), SelectionEvent::Move(to)) => Selection {
                state: SelectionState::Dragging(DragRectangle { anchor: drag.anchor, end: to }),
                pointer: to,
            },
            (SelectionState::Idle, SelectionEvent::Press)
            | (SelectionState::Dragging(_), SelectionEvent::Press) => Selection {
                state: SelectionState::Dragging(
                    DragRectangle { anchor: self.pointer, end: self.pointer },
                ),
                pointer: self.pointer,
            },
            (SelectionState::Dragging(drag), SelectionEvent::Release) => Selection {
                state: SelectionState::Closed(
                    DragRectangle { anchor: drag.anchor, end: self.pointer },
                ),
                pointer: self.pointer,
            },
            (SelectionState::Idle, SelectionEvent::Release)
            | (SelectionState::Idle, SelectionEvent::Cancel)
            | (SelectionState::Dragging(_), SelectionEvent::Cancel) => Selection {
                state: SelectionState::Consumed,
                pointer: self.pointer,
            },
            (SelectionState::Closed(_), _) | (SelectionState::Consumed, _) => *self,
        }
    }

    /// What the caller does after an event: finish when the event ended the
    /// selection, draw again when it opened or moved a drag.
    pub open spec fn outcome(&self, event: SelectionEvent) -> SelectionOutcome {
        if self.state.is_terminal() {
            SelectionOutcome::Ignored
        } else if self.after(event).state.is_terminal() {
            SelectionOutcome::Finished
        } else if self.after(event).state is Dragging {
            SelectionOutcome::Redraw
        } else {
            SelectionOutcome::Ignored
        }
    }

    /// The crop of a finished selection in an image of the given size: the
    /// closed rectangle cut to the image, or the whole image where the
    /// selection ended without a rectangle. An unfinished selection has none.
    pub open spec fn result_spec(&self, image_width: u32, image_height: u32) -> Option<CropRect> {
        match self.state {
            SelectionState::Closed(drag) => Some(
                drag.normalized_spec().clamped_spec(image_width, image_height),
            ),
            SelectionState::Consumed => Some(CropRect::full_spec(image_width, image_height)),
            _ => None,
        }
    }

    /// A selection before any drag, the pointer at the origin.
    pub fn new() -> (selection: Selection)
        ensures
            selection.state == SelectionState::Idle,
            selection.pointer == (PixelPoint { x: 0, y: 0 }),
    {
        Selection { state: SelectionState::Idle, pointer: PixelPoint { x: 0, y: 0 } }
    }

    /// Takes one event and says what the caller does next.
    pub fn step(&mut self, event: SelectionEvent) -> (outcome: SelectionOutcome)
        ensures
            *final(self) == old(self).after(event),
            outcome == old(self).outcome(event),
    {
        match self.state {
            SelectionState::Closed(_) | SelectionState::Consumed => SelectionOutcome::Ignored,
            SelectionState::Idle => match event {
                SelectionEvent::Move(to) => {
                    self.pointer = to;
                    SelectionOutcome::Ignored
                },
                SelectionEvent::Press => {
                    self.state = SelectionState::Dragging(
                        DragRectangle { anchor: self.pointer, end: self.pointer },
                    );
                    SelectionOutcome::Redraw
                },
                SelectionEvent::Release | SelectionEvent::Cancel => {
                    self.state = SelectionState::Consumed;
                    SelectionOutcome::Finished
                },
            },
            SelectionState::Dragging(drag) => match event {
                SelectionEvent::Move(to) => {
                    self.pointer = to;
                    self.state = SelectionState::Dragging(
                        DragRectangle { anchor: drag.anchor, end: to },
                    );
                    SelectionOutcome::Redraw
                },
                SelectionEvent::Press => {
                    self.state = SelectionState::Dragging(
                        DragRectangle { anchor: self.pointer, end: self.pointer },
                    );
                    SelectionOutcome::Redraw
                },
                SelectionEvent::Release => {
                    self.state = SelectionState::Closed(
                        DragRectangle { anchor: drag.anchor, end: self.pointer },
                    );
                    SelectionOutcome::Finished
                },
                SelectionEvent::Cancel => {
                    self.state = SelectionState::Consumed;
                    SelectionOutcome::Finished
                },
            },
        }
    }

    /// The crop of a finished selection in an image of the given size.
    pub fn result(&self, image_width: u32, image_height: u32) -> (rect: Option<CropRect>)
        ensures
            rect == self.result_spec(image_width, image_height),
            rect is Some <==> self.state.is_terminal(),
            rect matches Some(r) ==> r.within(image_width, image_height),
    {
        match self.state {
            SelectionState::Closed(drag) => Some(
                drag.normalized().clamped(image_width, image_height),
            ),
            SelectionState::Consumed => Some(CropRect::full(image_width, image_height)),
            _ => None,
        }
    }
}

} // verus!
