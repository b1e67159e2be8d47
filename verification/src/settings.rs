//! The controller's configuration and its one piece of state, the focus
//! point.

use vstd::prelude::*;
use crate::fixed::PI;
use crate::vector::Vector3;

verus! {

/// The closed interval of values that a zoom may take.
#[derive(Clone, Copy, Debug, PartialEq, Eq)]
pub struct ZoomRange {
    pub start: i64,
    pub end: i64,
}

impl ZoomRange {
    /// Whether `value` lies in the interval, ends included.
    pub open spec fn contains(&self, value: int) -> bool {
        self.start <= value <= self.end
    }
}

/// What the three controllers share: how far the camera stays from the point
/// it looks at, how fast input turns and zooms it, how far it may zoom, and
/// the point itself.
#[derive(Clone, Copy, Debug, PartialEq, Eq)]
pub struct CameraSettings {
    /// The distance kept between the camera and the focus point.
    pub orbit_distance: i64,
    /// Radians of pitch per unit of vertical mouse motion.
    pub pitch_speed: i64,
    /// Radians of yaw per unit of horizontal mouse motion.
    pub yaw_speed: i64,
    /// The point that the camera circles; panning moves it.
    pub should_focus_at: Vector3,
    /// The height of the viewport in world units when the orthographic scale
    /// is one.
    pub orthographic_viewport_height: i64,
    /// The orthographic scale is kept in this interval.
    pub orthographic_zoom_range: ZoomRange,
    /// The share of the orthographic scale that one unit of scroll removes.
    pub orthographic_zoom_speed: i64,
    /// The perspective field of view, in radians, is kept in this interval.
    pub perspective_zoom_range: ZoomRange,
    /// Radians of field of view that one unit of scroll removes.
    pub perspective_zoom_speed: i64,
}

impl CameraSettings {
    /// The settings are well formed when the orthographic interval is
    /// positive and not empty, and the perspective interval is positive, not
    /// empty and ends below half a turn.
    pub open spec fn wf(&self) -> bool {
        &&& 0 < self.orthographic_zoom_range.start < self.orthographic_zoom_range.end
        &&& 0 < self.perspective_zoom_range.start < self.perspective_zoom_range.end <= PI
    }

    /// The settings that [`Default`] gives: a distance of 20, a hundredth of
    /// a radian per unit of mouse motion, the origin as focus point, a
    /// viewport height of 5, orthographic scales from 0.1 to 10 at a speed of
    /// 0.2, and fields of view from π/20 to π − 0.2 at a speed of 0.05.
    pub open spec fn initial() -> CameraSettings {
        CameraSettings {
            orbit_distance: 20_000_000,
            pitch_speed: 10_000,
            yaw_speed: 10_000,
            should_focus_at: Vector3 { x: 0, y: 0, z: 0 },
            orthographic_viewport_height: 5_000_000,
            orthographic_zoom_range: ZoomRange { start: 100_000, end: 10_000_000 },
            orthographic_zoom_speed: 200_000,
            perspective_zoom_range: ZoomRange { start: 157_080, end: 2_941_593 },
            perspective_zoom_speed: 50_000,
        }
    }

    /// Whether the settings are well formed.
    pub fn is_valid(&self) -> (ok: bool)
        ensures
            ok == self.wf(),
    {
        0 < self.orthographic_zoom_range.start
            && self.orthographic_zoom_range.start < self.orthographic_zoom_range.end
            && 0 < self.perspective_zoom_range.start
            && self.perspective_zoom_range.start < self.perspective_zoom_range.end
            && self.perspective_zoom_range.end <= PI
    }
}

impl Default for CameraSettings {
    fn default() -> (settings: CameraSettings)
        ensures
            settings == CameraSettings::initial(),
            settings.wf(),
    {
        CameraSettings {
            orbit_distance: 20_000_000,
            pitch_speed: 10_000,
            yaw_speed: 10_000,
            should_focus_at: Vector3 { x: 0, y: 0, z: 0 },
            orthographic_viewport_height: 5_000_000,
            orthographic_zoom_range: ZoomRange { start: 100_000, end: 10_000_000 },
            orthographic_zoom_speed: 200_000,
            perspective_zoom_range: ZoomRange { start: 157_080, end: 2_941_593 },
            perspective_zoom_speed: 50_000,
        }
    }
}

} // verus!
