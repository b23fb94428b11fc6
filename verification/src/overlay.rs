//! Overlay geometry: the two triangles that highlight a drag rectangle, and
//! what the renderer draws in each state of a selection.

use crate::coords::{
    ndc_to_tex, ndc_to_tex_spec, tex_representable, to_ndc, to_ndc_spec, NdcPoint, PixelPoint,
    TexPoint, WindowSize,
};
use crate::selection::SelectionState;
use vstd::prelude::*;

verus! {

/// One corner of a triangle: where it is drawn and which point of the
/// captured image is shown there.
#[derive(Clone, Copy, Debug)]
pub struct OverlayVertex {
    pub position: NdcPoint,
    pub tex: TexPoint,
}

/// The device point with the first point's `x` and the second point's `y`.
pub open spec fn corner(of_x: NdcPoint, of_y: NdcPoint) -> NdcPoint {
    NdcPoint { x: of_x.x, y: of_y.y }
}

/// The vertex at a device point: it shows the image point that lies there
/// when the image fills the window.
pub open spec fn vertex_at(position: NdcPoint) -> OverlayVertex {
    OverlayVertex { position, tex: ndc_to_tex_spec(position) }
}

/// The six vertices of the rectangle between two opposite corners, as two
/// triangles that share the diagonal from `(first.x, second.y)` to
/// `(second.x, first.y)`.
pub open spec fn rectangle_vertices(first: NdcPoint, second: NdcPoint) -> Seq<OverlayVertex> {
    seq![
        vertex_at(first),
        vertex_at(corner(first, second)),
        vertex_at(corner(second, first)),
        vertex_at(corner(second, first)),
        vertex_at(corner(first, second)),
        vertex_at(second),
    ]
}

/// The triangles that cover a rectangle of the window, in drawing order.
#[derive(Clone, Copy, Debug)]
pub struct OverlayGeometry {
    pub vertices: [OverlayVertex; 6],
}

/// What the renderer draws over the captured image.
#[derive(Clone, Copy, Debug)]
pub enum OverlayState {
    /// Only the captured image.
    NoSelection,
    /// The captured image, then the highlighted rectangle.
    ActiveSelection(OverlayGeometry),
}

/// The overlay of a selection in a window: the rectangle of an open or a
/// closed drag, each corner mapped to device coordinates; nothing otherwise.
pub open spec fn overlay_vertices(selection: SelectionState, window: WindowSize) -> Option<
    Seq<OverlayVertex>,
> {
    match selection.rectangle() {
        Some(drag) => Some(
            rectangle_vertices(to_ndc_spec(drag.anchor, window), to_ndc_spec(drag.end, window)),
        ),
        None => None,
    }
}

impl OverlayState {
    /// The vertices to draw in the second pass, if there is one.
    pub open spec fn vertices(&self) -> Option<Seq<OverlayVertex>> {
        match *self {
            OverlayState::NoSelection => None,
            OverlayState::ActiveSelection(geometry) => Some(geometry.vertices@),
        }
    }
}

/// Builds the vertex at a device point.
fn vertex(position: NdcPoint) -> (v: OverlayVertex)
    requires
        tex_representable(position),
    ensures
        v == vertex_at(position),
{
    OverlayVertex { position, tex: ndc_to_tex(position) }
}

/// Builds the two triangles of the rectangle between two opposite corners.
pub fn rectangle_geometry(first: NdcPoint, second: NdcPoint) -> (geometry: OverlayGeometry)
    requires
        tex_representable(first),
        tex_representable(second),
    ensures
        geometry.vertices@ == rectangle_vertices(first, second),
{
    let lower_left = NdcPoint { x: first.x, y: second.y };
    let upper_right = NdcPoint { x: second.x, y: first.y };
    let vertices = [
        vertex(first),
        vertex(lower_left),
        vertex(upper_right),
        vertex(upper_right),
        vertex(lower_left),
        vertex(second),
    ];
    assert(vertices@ =~= rectangle_vertices(first, second));
    OverlayGeometry { vertices }
}

/// The triangles over which the captured image itself is drawn: the whole
/// window, from its top-left pixel to the pixel past its bottom-right one.
pub fn window_geometry(window: WindowSize) -> (geometry: OverlayGeometry)
    requires
        window.has_area(),
    ensures
        geometry.vertices@ == rectangle_vertices(
            to_ndc_spec(PixelPoint { x: 0, y: 0 }, window),
            to_ndc_spec(PixelPoint { x: window.width, y: window.height }, window),
        ),
{
    let top_left = to_ndc(PixelPoint { x: 0, y: 0 }, window);
    let bottom_right = to_ndc(PixelPoint { x: window.width, y: window.height }, window);
    rectangle_geometry(top_left, bottom_right)
}

/// Decides what to draw for a selection in a window of the given size: the
/// highlighted rectangle while a drag is open or closed, else nothing but
/// the image. The geometry is made anew from the drag's pixel corners.
pub fn overlay_for(selection: &SelectionState, window: WindowSize) -> (overlay: OverlayState)
    requires
        window.has_area(),
    ensures
        overlay.vertices() == overlay_vertices(*selection, window),
{
    match selection {
        SelectionState::Dragging(drag) | SelectionState::Closed(drag) => {
            let first = to_ndc(drag.anchor, window);
            let second = to_ndc(drag.end, window);
            OverlayState::ActiveSelection(rectangle_geometry(first, second))
        },
        _ => OverlayState::NoSelection,
    }
}

} // verus!
