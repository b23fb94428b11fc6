use screenshot_core::coords::PixelPoint;
use screenshot_core::selection::{
    CropRect, DragRectangle, Selection, SelectionEvent, SelectionOutcome, SelectionState,
};

fn at(x: u32, y: u32) -> PixelPoint {
    PixelPoint { x, y }
}

#[test]
fn normalization_is_independent_of_drag_direction() {
    let expected = CropRect { x: 10, y: 20, width: 40, height: 60 };
    let up_left = DragRectangle { anchor: at(50, 80), end: at(10, 20) };
    assert_eq!(up_left.normalized(), expected);
    let down_right = DragRectangle { anchor: at(10, 20), end: at(50, 80) };
    assert_eq!(down_right.normalized(), expected);
    let up_right = DragRectangle { anchor: at(10, 80), end: at(50, 20) };
    assert_eq!(up_right.normalized(), expected);
    let down_left = DragRectangle { anchor: at(50, 20), end: at(10, 80) };
    assert_eq!(down_left.normalized(), expected);
}

#[test]
fn normalization_of_a_click_is_empty() {
    let click = DragRectangle { anchor: at(7, 9), end: at(7, 9) };
    assert_eq!(click.normalized(), CropRect { x: 7, y: 9, width: 0, height: 0 });
}

#[test]
fn normalization_at_the_limits() {
    let drag = DragRectangle { anchor: at(u32::MAX, 0), end: at(0, u32::MAX) };
    let expected = CropRect { x: 0, y: 0, width: u32::MAX, height: u32::MAX };
    assert_eq!(drag.normalized(), expected);
}

#[test]
fn clamp_keeps_a_rectangle_inside_the_image() {
    let rect = CropRect { x: 100, y: 100, width: 200, height: 300 };
    assert_eq!(rect.clamped(800, 600), rect);
    let whole = CropRect { x: 0, y: 0, width: 800, height: 600 };
    assert_eq!(whole.clamped(800, 600), whole);
}

#[test]
fn clamp_cuts_what_sticks_out() {
    let rect = CropRect { x: 700, y: 500, width: 200, height: 300 };
    assert_eq!(rect.clamped(800, 600), CropRect { x: 700, y: 500, width: 100, height: 100 });
    let outside = CropRect { x: 900, y: 50, width: 10, height: 10 };
    assert_eq!(outside.clamped(800, 600), CropRect { x: 800, y: 50, width: 0, height: 10 });
    let huge = CropRect { x: u32::MAX, y: u32::MAX, width: u32::MAX, height: u32::MAX };
    assert_eq!(huge.clamped(800, 600), CropRect { x: 800, y: 600, width: 0, height: 0 });
}

#[test]
fn full_covers_the_image() {
    assert_eq!(CropRect::full(800, 600), CropRect { x: 0, y: 0, width: 800, height: 600 });
}

#[test]
fn new_selection_is_idle_at_the_origin() {
    let s = Selection::new();
    assert_eq!(s.state, SelectionState::Idle);
    assert_eq!(s.pointer, at(0, 0));
    assert_eq!(s.result(800, 600), None);
}

#[test]
fn press_move_release_closes_the_drag() {
    let mut s = Selection::new();
    assert_eq!(s.step(SelectionEvent::Move(at(50, 80))), SelectionOutcome::Ignored);
    assert_eq!(s.state, SelectionState::Idle);
    assert_eq!(s.step(SelectionEvent::Press), SelectionOutcome::Redraw);
    assert_eq!(
        s.state,
        SelectionState::Dragging(DragRectangle { anchor: at(50, 80), end: at(50, 80) })
    );
    assert_eq!(s.step(SelectionEvent::Move(at(30, 90))), SelectionOutcome::Redraw);
    assert_eq!(
        s.state,
        SelectionState::Dragging(DragRectangle { anchor: at(50, 80), end: at(30, 90) })
    );
    assert_eq!(s.result(800, 600), None);
    assert_eq!(s.step(SelectionEvent::Move(at(10, 20))), SelectionOutcome::Redraw);
    assert_eq!(s.step(SelectionEvent::Release), SelectionOutcome::Finished);
    assert_eq!(
        s.state,
        SelectionState::Closed(DragRectangle { anchor: at(50, 80), end: at(10, 20) })
    );
    assert_eq!(s.result(800, 600), Some(CropRect { x: 10, y: 20, width: 40, height: 60 }));
}

#[test]
fn cancel_without_drag_gives_the_full_image() {
    let mut s = Selection::new();
    s.step(SelectionEvent::Move(at(400, 300)));
    assert_eq!(s.step(SelectionEvent::Cancel), SelectionOutcome::Finished);
    assert_eq!(s.state, SelectionState::Consumed);
    assert_eq!(s.result(800, 600), Some(CropRect { x: 0, y: 0, width: 800, height: 600 }));
}

#[test]
fn cancel_during_drag_gives_the_full_image() {
    let mut s = Selection::new();
    s.step(SelectionEvent::Move(at(100, 100)));
    s.step(SelectionEvent::Press);
    s.step(SelectionEvent::Move(at(300, 400)));
    assert_eq!(s.step(SelectionEvent::Cancel), SelectionOutcome::Finished);
    assert_eq!(s.state, SelectionState::Consumed);
    assert_eq!(s.result(800, 600), Some(CropRect { x: 0, y: 0, width: 800, height: 600 }));
}

#[test]
fn release_without_press_gives_the_full_image() {
    let mut s = Selection::new();
    s.step(SelectionEvent::Move(at(100, 100)));
    assert_eq!(s.step(SelectionEvent::Release), SelectionOutcome::Finished);
    assert_eq!(s.state, SelectionState::Consumed);
    assert_eq!(s.result(640, 480), Some(CropRect { x: 0, y: 0, width: 640, height: 480 }));
}

#[test]
fn second_press_anchors_anew() {
    let mut s = Selection::new();
    s.step(SelectionEvent::Move(at(10, 10)));
    s.step(SelectionEvent::Press);
    s.step(SelectionEvent::Move(at(20, 30)));
    assert_eq!(s.step(SelectionEvent::Press), SelectionOutcome::Redraw);
    assert_eq!(
        s.state,
        SelectionState::Dragging(DragRectangle { anchor: at(20, 30), end: at(20, 30) })
    );
}

#[test]
fn finished_selection_ignores_events() {
    let mut s = Selection::new();
    s.step(SelectionEvent::Move(at(10, 10)));
    s.step(SelectionEvent::Press);
    s.step(SelectionEvent::Move(at(20, 30)));
    s.step(SelectionEvent::Release);
    let closed = s;
    for event in [
        SelectionEvent::Move(at(1, 1)),
        SelectionEvent::Press,
        SelectionEvent::Release,
        SelectionEvent::Cancel,
    ] {
        assert_eq!(s.step(event), SelectionOutcome::Ignored);
        assert_eq!(s, closed);
    }
    let mut c = Selection::new();
    c.step(SelectionEvent::Cancel);
    let consumed = c;
    assert_eq!(c.step(SelectionEvent::Press), SelectionOutcome::Ignored);
    assert_eq!(c.step(SelectionEvent::Move(at(5, 5))), SelectionOutcome::Ignored);
    assert_eq!(c, consumed);
}

#[test]
fn closed_drag_is_clamped_to_the_image() {
    let mut s = Selection::new();
    s.step(SelectionEvent::Move(at(700, 500)));
    s.step(SelectionEvent::Press);
    s.step(SelectionEvent::Move(at(1000, 900)));
    s.step(SelectionEvent::Release);
    assert_eq!(s.result(800, 600), Some(CropRect { x: 700, y: 500, width: 100, height: 100 }));
}
