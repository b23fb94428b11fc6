//! The preview session: one window over one captured image, driven by the
//! events of the windowing system.

use crate::coords::{PixelPoint, WindowSize};
use crate::error::{Disposition, PipelineError};
use crate::overlay::{overlay_for, overlay_vertices, OverlayState, OverlayVertex};
use crate::selection::{CropRect, Selection, SelectionEvent, SelectionOutcome, SelectionState};
use vstd::prelude::*;

verus! {

/// Why a frame could not be drawn.
#[derive(Clone, Copy, Debug, PartialEq, Eq, Structural)]
pub enum RenderFailure {
    /// The surface was lost.
    SurfaceLost,
    /// The surface no longer matches the window.
    SurfaceOutdated,
    /// The backend ran out of memory.
    OutOfMemory,
    /// Anything else the backend reports.
    Other,
}

impl RenderFailure {
    /// The failure as the pipeline names it; what the backend reports
    /// besides these three has no name there.
    pub open spec fn error_spec(&self) -> Option<PipelineError> {
        match *self {
            RenderFailure::SurfaceLost => Some(PipelineError::SurfaceLost),
            RenderFailure::SurfaceOutdated => Some(PipelineError::SurfaceOutdated),
            RenderFailure::OutOfMemory => Some(PipelineError::OutOfMemory),
            RenderFailure::Other => None,
        }
    }

    /// The failure as the pipeline names it, if it has a name there.
    pub fn error(&self) -> (named: Option<PipelineError>)
        ensures
            named == self.error_spec(),
    {
        match self {
            RenderFailure::SurfaceLost => Some(PipelineError::SurfaceLost),
            RenderFailure::SurfaceOutdated => Some(PipelineError::SurfaceOutdated),
            RenderFailure::OutOfMemory => Some(PipelineError::OutOfMemory),
            RenderFailure::Other => None,
        }
    }
}

/// What the windowing system or the renderer reports to the session.
#[derive(Clone, Copy, Debug, PartialEq, Eq, Structural)]
pub enum PreviewEvent {
    /// The pointer moved, a button changed or the user cancelled.
    Input(SelectionEvent),
    /// The window has a new size.
    Resized(WindowSize),
    /// The window wants to be drawn.
    RedrawRequested,
    /// Drawing failed; the window's size at that moment comes along.
    RenderFailed(RenderFailure, WindowSize),
}

/// What the caller does for the session.
#[derive(Clone, Copy, Debug)]
pub enum PreviewAction {
    /// Nothing; a frame that failed for another reason is skipped this way.
    Nothing,
    /// Ask the window for a redraw.
    RequestRedraw,
    /// Configure the surface for the given size.
    Configure(WindowSize),
    /// Draw the captured image and, over it, the overlay.
    Draw(OverlayState),
    /// Crop the image to the rectangle, hand the crop off and end the session.
    Finish(CropRect),
    /// End the session without a crop.
    Exit,
}

/// What an action amounts to, the overlay by its vertices.
pub enum ActionModel {
    Nothing,
    RequestRedraw,
    Configure(WindowSize),
    Draw(Option<Seq<OverlayVertex>>),
    Finish(CropRect),
    Exit,
}

impl View for PreviewAction {
    type V = ActionModel;

    open spec fn view(&self) -> ActionModel {
        match *self {
            PreviewAction::Nothing => ActionModel::Nothing,
            PreviewAction::RequestRedraw => ActionModel::RequestRedraw,
            PreviewAction::Configure(size) => ActionModel::Configure(size),
            PreviewAction::Draw(overlay) => ActionModel::Draw(overlay.vertices()),
            PreviewAction::Finish(rect) => ActionModel::Finish(rect),
            PreviewAction::Exit => ActionModel::Exit,
        }
    }
}

/// The state of a preview: the selection, the size that the surface is
/// configured for, and the size of the captured image.
#[derive(Clone, Copy, Debug, PartialEq, Eq, Structural)]
pub struct SessionState {
    pub selection: Selection,
    pub window: WindowSize,
    pub image_width: u32,
    pub image_height: u32,
}

impl SessionState {
    /// The state with the surface at another size, unless that size has no
    /// area.
    pub open spec fn resized(&self, size: WindowSize) -> SessionState {
        if size.has_area() {
            SessionState { window: size, ..*self }
        } else {
            *self
        }
    }

    /// The state after an event. Input goes to the selection and changes
    /// nothing else. A new size is taken over unless it has no area. A lost
    /// surface and a redraw change nothing; an outdated surface is a resize
    /// to the window's size.
    pub open spec fn next(&self, event: PreviewEvent) -> SessionState {
        match event {
            PreviewEvent::Input(input) => SessionState {
                selection: self.selection.after(input),
                ..*self
            },
            PreviewEvent::Resized(size) => self.resized(size),
            PreviewEvent::RenderFailed(RenderFailure::SurfaceOutdated, size) => self.resized(size),
            _ => *self,
        }
    }

    /// What the caller does after an event.
    pub open spec fn action(&self, event: PreviewEvent) -> ActionModel {
        match event {
            PreviewEvent::Input(input) => match self.selection.outcome(input) {
                SelectionOutcome::Ignored => ActionModel::Nothing,
                SelectionOutcome::Redraw => ActionModel::RequestRedraw,
                SelectionOutcome::Finished => ActionModel::Finish(
                    self.selection.after(input).result_spec(
                        self.image_width,
                        self.image_height,
                    )->0,
                ),
            },
            PreviewEvent::Resized(size) | PreviewEvent::RenderFailed(
                RenderFailure::SurfaceOutdated,
                size,
            ) => if size.has_area() {
                ActionModel::Configure(size)
            } else {
                ActionModel::Nothing
            },
            PreviewEvent::RedrawRequested => ActionModel::Draw(
                overlay_vertices(self.selection.state, self.window),
            ),
            PreviewEvent::RenderFailed(RenderFailure::SurfaceLost, _) => ActionModel::Configure(
                self.window,
            ),
            PreviewEvent::RenderFailed(RenderFailure::OutOfMemory, _) => ActionModel::Exit,
            PreviewEvent::RenderFailed(RenderFailure::Other, _) => ActionModel::Nothing,
        }
    }
}

/// A preview session. The surface of a session is always configured for a
/// size with an area.
#[derive(Debug)]
pub struct PreviewSession {
    state: SessionState,
}

impl View for PreviewSession {
    type V = SessionState;

    closed spec fn view(&self) -> SessionState {
        self.state
    }
}

impl PreviewSession {
    #[verifier::type_invariant]
    spec fn drawable(&self) -> bool {
        self.state.window.has_area()
    }

    /// Opens a session over an image, in a window of the given size. A
    /// window without area cannot show anything: there is no session for it.
    pub fn new(window: WindowSize, image_width: u32, image_height: u32) -> (session: Option<
        PreviewSession,
    >)
        ensures
            session is Some <==> window.has_area(),
            session matches Some(s) ==> s@ == (SessionState {
                selection: Selection {
                    state: SelectionState::Idle,
                    pointer: PixelPoint { x: 0, y: 0 },
                },
                window,
                image_width,
                image_height,
            }),
    {
        if window.width > 0 && window.height > 0 {
            let state = SessionState {
                selection: Selection::new(),
                window,
                image_width,
                image_height,
            };
            Some(PreviewSession { state })
        } else {
            None
        }
    }

    /// The state of the session.
    pub fn state(&self) -> (state: SessionState)
        ensures
            state == self@,
            state.window.has_area(),
    {
        proof {
            use_type_invariant(self);
        }
        self.state
    }

    /// Takes over a new surface size, unless it has no area.
    fn resize(&mut self, size: WindowSize) -> (action: PreviewAction)
        ensures
            final(self)@ == old(self)@.resized(size),
            action@ == if size.has_area() {
                ActionModel::Configure(size)
            } else {
                ActionModel::Nothing
            },
    {
        if size.width > 0 && size.height > 0 {
            self.state.window = size;
            PreviewAction::Configure(size)
        } else {
            PreviewAction::Nothing
        }
    }

    /// Takes one event and says what the caller does next.
    pub fn handle(&mut self, event: PreviewEvent) -> (action: PreviewAction)
        ensures
            final(self)@ == old(self)@.next(event),
            final(self)@.window.has_area(),
            action@ == old(self)@.action(event),
    {
        proof {
            use_type_invariant(&*self);
        }
        match event {
            PreviewEvent::Input(input) => {
                let mut selection = self.state.selection;
                let outcome = selection.step(input);
                self.state.selection = selection;
                match outcome {
                    SelectionOutcome::Ignored => PreviewAction::Nothing,
                    SelectionOutcome::Redraw => PreviewAction::RequestRedraw,
                    SelectionOutcome::Finished => {
                        let rect = selection.result(
                            self.state.image_width,
                            self.state.image_height,
                        );
                        PreviewAction::Finish(rect.unwrap())
                    },
                }
            },
            PreviewEvent::Resized(size) => self.resize(size),
            PreviewEvent::RedrawRequested => PreviewAction::Draw(
                overlay_for(&self.state.selection.state, self.state.window),
            ),
            PreviewEvent::RenderFailed(failure, size) => match failure {
                RenderFailure::SurfaceLost => PreviewAction::Configure(self.state.window),
                RenderFailure::SurfaceOutdated => self.resize(size),
                RenderFailure::OutOfMemory => PreviewAction::Exit,
                RenderFailure::Other => PreviewAction::Nothing,
            },
        }
    }
}

/// A resize, with or without area, leaves the selection as it is: the state,
/// both corners of an open drag and the pointer, all in pixels. So does a
/// failed frame.
pub proof fn lemma_resize_keeps_selection(session: SessionState, size: WindowSize)
    ensures
        session.next(PreviewEvent::Resized(size)).selection == session.selection,
        forall|failure: RenderFailure|
            session.next(PreviewEvent::RenderFailed(failure, size)).selection == session.selection,
        session.next(PreviewEvent::RedrawRequested) == session,
{
}

/// The crop that a session ends with does not depend on the resizes that
/// came before the closing event.
pub proof fn lemma_resize_keeps_result(
    session: SessionState,
    size: WindowSize,
    input: SelectionEvent,
)
    ensures
        session.next(PreviewEvent::Resized(size)).action(PreviewEvent::Input(input))
            == session.action(PreviewEvent::Input(input)),
{
}

/// A failed frame is answered as far as the failure reaches: one that asks
/// for a new configuration never ends the session, one that ends the session
/// always does, and one without a name only costs the frame.
pub proof fn lemma_render_failure_reach(
    session: SessionState,
    failure: RenderFailure,
    size: WindowSize,
)
    ensures
        match failure.error_spec() {
            Some(e) => match e.disposition_spec() {
                Disposition::Reconfigure => {
                    ||| session.action(PreviewEvent::RenderFailed(failure, size)) is Configure
                    ||| !size.has_area() && session.action(PreviewEvent::RenderFailed(failure, size))
                        is Nothing
                },
                _ => session.action(PreviewEvent::RenderFailed(failure, size)) is Exit,
            },
            None => session.action(PreviewEvent::RenderFailed(failure, size)) is Nothing,
        },
{
}

/// Cancelling before any drag finishes the session with the whole image.
pub proof fn lemma_cancel_without_drag(session: SessionState)
    requires
        session.selection.state is Idle,
    ensures
        session.action(PreviewEvent::Input(SelectionEvent::Cancel)) == ActionModel::Finish(
            CropRect { x: 0, y: 0, width: session.image_width, height: session.image_height },
        ),
{
}

} // verus!
