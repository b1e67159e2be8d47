//! The ground-cursor controller: where the cursor's ray meets the ground a
//! marker is shown, and dragging with the button held pans the focus point.

use vstd::prelude::*;
use crate::orbit::eye_of;
use crate::settings::CameraSettings;
use crate::vector::{Vector3, Vector3Model};

verus! {

/// How far above the ground the marker floats, so that it does not flicker
/// against the surface: a hundredth of a world unit.
pub const MARKER_LIFT: i64 = 10_000;

/// The radius of the marker: a fifth of a world unit.
pub const MARKER_RADIUS: i64 = 200_000;

/// What came of casting a ray from the camera through a place in the window
/// onto the ground plane.
#[derive(Clone, Copy, Debug, PartialEq, Eq)]
pub enum Probe {
    /// The cursor is outside the window: there was no place to cast through.
    NoCursor,
    /// The camera could not turn the place into a ray.
    NoRay,
    /// The ray runs beside the ground plane or away from it.
    Miss,
    /// The ray meets the ground plane at this point.
    Hit(Vector3),
}

impl View for Probe {
    type V = Option<Vector3Model>;

    /// The point that was hit, if any: the three ways to fail count alike.
    open spec fn view(&self) -> Option<Vector3Model> {
        match self {
            Probe::Hit(point) => Some(point@),
            _ => None,
        }
    }
}

/// The model of a [`CursorAction`].
pub enum CursorActionModel {
    Idle,
    Marker { center: Vector3Model, normal: Vector3Model, radius: int },
    Panned { eye: Vector3Model },
}

impl CursorActionModel {
    /// Whether every vector of the action can be stored.
    pub open spec fn representable(self) -> bool {
        match self {
            CursorActionModel::Idle => true,
            CursorActionModel::Marker { center, normal, radius } => center.representable(),
            CursorActionModel::Panned { eye } => eye.representable(),
        }
    }
}

/// What the caller is to do after the ground-cursor controller has run.
#[derive(Clone, Copy, Debug, PartialEq, Eq)]
pub enum CursorAction {
    /// Nothing: no marker is shown and the camera stays.
    Idle,
    /// Show a ring of this radius about `center`, lying in the plane whose
    /// normal is `normal`.
    Marker { center: Vector3, normal: Vector3, radius: i64 },
    /// The focus point has moved: put the camera at `eye`.
    Panned { eye: Vector3 },
}

impl View for CursorAction {
    type V = CursorActionModel;

    open spec fn view(&self) -> CursorActionModel {
        match self {
            CursorAction::Idle => CursorActionModel::Idle,
            CursorAction::Marker { center, normal, radius } => CursorActionModel::Marker {
                center: center@,
                normal: normal@,
                radius: *radius as int,
            },
            CursorAction::Panned { eye } => CursorActionModel::Panned { eye: eye@ },
        }
    }
}

/// The focus point after the ground under the cursor was dragged from `from`
/// to `to`: it moves the opposite way, so that the ground follows the cursor.
pub open spec fn panned_focus(focus: Vector3Model, from: Vector3Model, to: Vector3Model)
    -> Vector3Model {
    focus.minus(to.minus(from))
}

/// The focus point after the ground-cursor controller has run. It moves only
/// when the button is held and both rays met the ground.
pub open spec fn focus_after(
    focus: Vector3Model,
    under_cursor: Option<Vector3Model>,
    after_motion: Option<Vector3Model>,
    held: bool,
) -> Vector3Model {
    if held && under_cursor is Some && after_motion is Some {
        panned_focus(focus, under_cursor.unwrap(), after_motion.unwrap())
    } else {
        focus
    }
}

/// Where the marker sits for a ground point `point` and a ground normal
/// `up`: lifted off the ground by [`MARKER_LIFT`].
pub open spec fn marker_center(point: Vector3Model, up: Vector3Model) -> Vector3Model {
    point.plus(up.scaled(MARKER_LIFT as int))
}

/// What the ground-cursor controller asks of the caller.
///
/// Without a ground point under the cursor: nothing. With one and the button
/// up: a marker there. With one and the button held: nothing if the ray
/// through the cursor's place after the motion met no ground, else the
/// camera position for the panned focus point, at `distance` from it along
/// the unchanged line of sight `forward`.
pub open spec fn action_after(
    focus: Vector3Model,
    distance: int,
    under_cursor: Option<Vector3Model>,
    after_motion: Option<Vector3Model>,
    held: bool,
    ground_up: Vector3Model,
    forward: Vector3Model,
) -> CursorActionModel {
    match under_cursor {
        None => CursorActionModel::Idle,
        Some(point) => if !held {
            CursorActionModel::Marker {
                center: marker_center(point, ground_up),
                normal: ground_up,
                radius: MARKER_RADIUS as int,
            }
        } else {
            match after_motion {
                None => CursorActionModel::Idle,
                Some(target) => CursorActionModel::Panned {
                    eye: eye_of(panned_focus(focus, point, target), forward, distance),
                },
            }
        },
    }
}

impl CameraSettings {
    /// Whether what the ground-cursor controller computes from these inputs
    /// can be stored: the new focus point, and the marker's centre or the
    /// camera position.
    pub open spec fn cursor_representable(
        &self,
        under_cursor: Option<Vector3Model>,
        after_motion: Option<Vector3Model>,
        held: bool,
        ground_up: Vector3Model,
        forward: Vector3Model,
    ) -> bool {
        &&& focus_after(self.should_focus_at@, under_cursor, after_motion, held).representable()
        &&& action_after(
            self.should_focus_at@,
            self.orbit_distance as int,
            under_cursor,
            after_motion,
            held,
            ground_up,
            forward,
        ).representable()
    }

    /// Whether [`CameraSettings::draw_cursor`] may be called with these
    /// inputs.
    pub fn can_draw_cursor(
        &self,
        under_cursor: &Probe,
        after_motion: &Probe,
        held: bool,
        ground_up: &Vector3,
        forward: &Vector3,
    ) -> (ok: bool)
        ensures
            ok == self.cursor_representable(
                under_cursor@,
                after_motion@,
                held,
                ground_up@,
                forward@,
            ),
    {
        match under_cursor {
            Probe::Hit(point) => {
                if !held {
                    point.advanced(ground_up, MARKER_LIFT).is_representable()
                } else {
                    match after_motion {
                        Probe::Hit(target) => {
                            let focus = self.should_focus_at.displaced(target, point);
                            if focus.is_representable() {
                                focus.narrowed().retreated(
                                    forward,
                                    self.orbit_distance,
                                ).is_representable()
                            } else {
                                false
                            }
                        },
                        _ => true,
                    }
                }
            },
            _ => true,
        }
    }

    /// The ground-cursor controller.
    ///
    /// `under_cursor` is what the ray through the cursor's place gave,
    /// `after_motion` what the ray through that place moved by this frame's
    /// mouse motion gave; `after_motion` is read only while the button is
    /// held. `ground_up` is the ground plane's normal and `forward` the
    /// camera's line of sight.
    ///
    /// Whenever a ray that is needed gave no point, nothing changes and the
    /// result is `Idle`. Otherwise, with the button up, nothing changes and
    /// the result is the marker to show; with the button held, the focus
    /// point moves against the drag and the result is the camera position
    /// that goes with it.
    pub fn draw_cursor(
        &mut self,
        under_cursor: Probe,
        after_motion: Probe,
        held: bool,
        ground_up: Vector3,
        forward: Vector3,
    ) -> (action: CursorAction)
        requires
            old(self).cursor_representable(
                under_cursor@,
                after_motion@,
                held,
                ground_up@,
                forward@,
            ),
        ensures
            action@ == action_after(
                old(self).should_focus_at@,
                old(self).orbit_distance as int,
                under_cursor@,
                after_motion@,
                held,
                ground_up@,
                forward@,
            ),
            final(self).should_focus_at@ == focus_after(
                old(self).should_focus_at@,
                under_cursor@,
                after_motion@,
                held,
            ),
            *final(self) == (CameraSettings {
                should_focus_at: final(self).should_focus_at,
                ..*old(self)
            }),
            !(action is Panned) ==> *final(self) == *old(self),
            under_cursor !is Hit ==> action is Idle,
            action matches CursorAction::Panned { eye } ==> eye@ == final(self).eye(forward@),
    {
        match under_cursor {
            Probe::Hit(point) => {
                if !held {
                    CursorAction::Marker {
                        center: point.advanced(&ground_up, MARKER_LIFT).narrowed(),
                        normal: ground_up,
                        radius: MARKER_RADIUS,
                    }
                } else {
                    match after_motion {
                        Probe::Hit(target) => {
                            self.should_focus_at = self.should_focus_at.displaced(
                                &target,
                                &point,
                            ).narrowed();
                            CursorAction::Panned { eye: self.eye_position(&forward) }
                        },
                        _ => CursorAction::Idle,
                    }
                }
            },
            _ => CursorAction::Idle,
        }
    }
}

/// Panning back undoes panning. After a drag from `from` to `to`, a second
/// drag whose motion over the ground is the opposite of the first, wherever
/// it starts, returns the focus point to where it was.
pub proof fn lemma_pan_round_trip(
    focus: Vector3Model,
    from: Vector3Model,
    to: Vector3Model,
    back_from: Vector3Model,
    back_to: Vector3Model,
)
    requires
        back_to.minus(back_from) == to.minus(from).negated(),
    ensures
        focus_after(
            focus_after(focus, Some(from), Some(to), true),
            Some(back_from),
            Some(back_to),
            true,
        ) == focus,
        panned_focus(panned_focus(focus, from, to), to, from) == focus,
{
}

/// A pan moves the camera exactly as far as the focus point, so the camera
/// stays where it was relative to the focus point: with the line of sight
/// unchanged, the camera position after the pan is the one before it, moved
/// against the drag.
pub proof fn lemma_pan_carries_eye(
    focus: Vector3Model,
    distance: int,
    from: Vector3Model,
    to: Vector3Model,
    forward: Vector3Model,
)
    ensures
        eye_of(panned_focus(focus, from, to), forward, distance) == eye_of(
            focus,
            forward,
            distance,
        ).minus(to.minus(from)),
{
}

/// Without a cursor nothing happens: no marker, no pan, and the focus point
/// stays, whatever the other inputs are. The same holds when the ray through
/// the cursor could not be built or met no ground.
pub proof fn lemma_no_cursor_no_change(
    focus: Vector3Model,
    distance: int,
    under_cursor: Probe,
    after_motion: Option<Vector3Model>,
    held: bool,
    ground_up: Vector3Model,
    forward: Vector3Model,
)
    requires
        under_cursor is NoCursor || under_cursor is NoRay || under_cursor is Miss,
    ensures
        action_after(focus, distance, under_cursor@, after_motion, held, ground_up, forward)
            is Idle,
        focus_after(focus, under_cursor@, after_motion, held) == focus,
{
}

} // verus!
