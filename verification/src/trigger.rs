//! From a fired chord to a capture: which display to grab.

use crate::error::PipelineError;
use crate::monitor::{resolve, resolves_to, MonitorGeometry, ScreenPoint};
use vstd::prelude::*;

verus! {

/// The display to capture and where it lies on the desktop. The origin goes
/// to the preview, which opens its window there.
#[derive(Clone, Copy, Debug, PartialEq, Eq, Structural)]
pub struct CaptureTarget {
    pub index: usize,
    pub origin: ScreenPoint,
}

/// `plan` is the decision for a pointer reading and a list of displays:
/// without a reading the input is unavailable; with one, the target is the
/// first display that covers the pointer, with that display's origin; and
/// where no display covers it, there is no monitor at the point.
pub open spec fn plans(
    pointer: Option<ScreenPoint>,
    monitors: Seq<MonitorGeometry>,
    plan: Result<CaptureTarget, PipelineError>,
) -> bool {
    match pointer {
        None => plan == Err::<CaptureTarget, PipelineError>(PipelineError::InputUnavailable),
        Some(point) => match plan {
            Ok(target) => {
                &&& resolves_to(monitors, point, Some(target.index))
                &&& target.origin == (ScreenPoint {
                    x: monitors[target.index as int].x,
                    y: monitors[target.index as int].y,
                })
            },
            Err(e) => e == PipelineError::NoMonitorAtPoint && resolves_to(monitors, point, None),
        },
    }
}

/// Decides what one trigger captures, from the pointer position, if it could
/// be read, and the displays in enumeration order.
pub fn plan_capture(pointer: Option<ScreenPoint>, monitors: &[MonitorGeometry]) -> (plan: Result<
    CaptureTarget,
    PipelineError,
>)
    ensures
        plans(pointer, monitors@, plan),
{
    match pointer {
        None => Err(PipelineError::InputUnavailable),
        Some(point) => match resolve(point, monitors) {
            Some(index) => {
                let monitor = &monitors[index];
                Ok(CaptureTarget { index, origin: ScreenPoint { x: monitor.x, y: monitor.y } })
            },
            None => Err(PipelineError::NoMonitorAtPoint),
        },
    }
}

} // verus!
