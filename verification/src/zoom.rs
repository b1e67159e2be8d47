//! The zoom controller: scrolling narrows or widens what the camera sees,
//! by its scale when it is orthographic and by its field of view when it is
//! a perspective camera.

use vstd::prelude::*;
use crate::fixed::{clamp, clamp_wide, multiply, product, UNIT, lemma_product_bounded,
    lemma_product_negates};
use crate::settings::CameraSettings;
use crate::vector::Vector2;

verus! {

/// The model of a [`Projection`].
pub enum ProjectionModel {
    Orthographic { scale: int },
    Perspective { fov: int },
}

/// How the camera projects the world: exactly one of the two kinds at a
/// time, each with the one number that zooming changes.
#[derive(Clone, Copy, Debug, PartialEq, Eq)]
pub enum Projection {
    /// Parallel projection; `scale` multiplies the size of the viewport.
    Orthographic { scale: i64 },
    /// Perspective projection; `fov` is the vertical field of view in
    /// radians.
    Perspective { fov: i64 },
}

impl View for Projection {
    type V = ProjectionModel;

    open spec fn view(&self) -> ProjectionModel {
        match self {
            Projection::Orthographic { scale } => ProjectionModel::Orthographic {
                scale: *scale as int,
            },
            Projection::Perspective { fov } => ProjectionModel::Perspective { fov: *fov as int },
        }
    }
}

/// The orthographic scale after a vertical scroll of `scroll`. The scroll is
/// negated, so that scrolling up zooms in, and multiplied by `speed`; one
/// more than that is the factor by which the scale is multiplied, and the
/// result is kept between `lo` and `hi`. Multiplying rather than adding makes
/// a scroll feel the same at every scale.
pub open spec fn zoomed_scale(scale: int, scroll: int, speed: int, lo: int, hi: int) -> int {
    clamp(product(scale, UNIT + product(-scroll, speed)), lo, hi)
}

/// The field of view after a vertical scroll of `scroll`. The scroll is
/// negated, so that scrolling up zooms in, multiplied by `speed` and added
/// to the field of view, and the result is kept between `lo` and `hi`.
pub open spec fn zoomed_fov(fov: int, scroll: int, speed: int, lo: int, hi: int) -> int {
    clamp(fov + product(-scroll, speed), lo, hi)
}

/// A wide product whose factors have the same sign is positive, one whose
/// factors differ in sign is negative.
proof fn lemma_sign_of_product(a: int, b: int)
    by (nonlinear_arith)
    ensures
        (a > 0 && b > 0) || (a < 0 && b < 0) ==> a * b > 0,
        (a > 0 && b < 0) || (a < 0 && b > 0) ==> a * b < 0,
        a == 0 || b == 0 ==> a * b == 0,
{
}

impl CameraSettings {
    /// The projection after a vertical scroll of `scroll`: the kind stays,
    /// and its number changes by the rule of its kind, with the speed and the
    /// interval that the settings hold for that kind.
    pub open spec fn zoomed(&self, projection: ProjectionModel, scroll: int) -> ProjectionModel {
        match projection {
            ProjectionModel::Orthographic { scale } => ProjectionModel::Orthographic {
                scale: zoomed_scale(
                    scale,
                    scroll,
                    self.orthographic_zoom_speed as int,
                    self.orthographic_zoom_range.start as int,
                    self.orthographic_zoom_range.end as int,
                ),
            },
            ProjectionModel::Perspective { fov } => ProjectionModel::Perspective {
                fov: zoomed_fov(
                    fov,
                    scroll,
                    self.perspective_zoom_speed as int,
                    self.perspective_zoom_range.start as int,
                    self.perspective_zoom_range.end as int,
                ),
            },
        }
    }

    /// Whether the projection's number lies in the interval that the
    /// settings hold for its kind.
    pub open spec fn in_zoom_range(&self, projection: ProjectionModel) -> bool {
        match projection {
            ProjectionModel::Orthographic { scale } => self.orthographic_zoom_range.contains(
                scale,
            ),
            ProjectionModel::Perspective { fov } => self.perspective_zoom_range.contains(fov),
        }
    }

    /// The zoom controller. Only the vertical part of `scroll` counts, and
    /// scrolling up zooms in. The projection keeps its kind; its scale or
    /// field of view becomes what [`CameraSettings::zoomed`] gives, which
    /// lies in the interval for that kind.
    pub fn zoom(&self, projection: &mut Projection, scroll: Vector2)
        requires
            self.wf(),
        ensures
            final(projection)@ == self.zoomed(old(projection)@, scroll@.y),
            self.in_zoom_range(final(projection)@),
            *old(projection) is Orthographic <==> *final(projection) is Orthographic,
    {
        match *projection {
            Projection::Orthographic { scale } => {
                let lo = self.orthographic_zoom_range.start;
                let hi = self.orthographic_zoom_range.end;
                proof {
                    lemma_product_bounded(scroll.y as int, self.orthographic_zoom_speed as int);
                    lemma_product_negates(scroll.y as int, self.orthographic_zoom_speed as int);
                }
                let factor: i128 = UNIT as i128 - multiply(scroll.y, self.orthographic_zoom_speed);
                let wide: i128 = scale as i128;
                let scaled = match wide.checked_mul(factor) {
                    Some(raw) => clamp_wide(raw / (UNIT as i128), lo, hi),
                    None => {
                        proof {
                            lemma_sign_of_product(wide as int, factor as int);
                        }
                        if (scale > 0) == (factor > 0) {
                            hi
                        } else {
                            lo
                        }
                    },
                };
                *projection = Projection::Orthographic { scale: scaled };
            },
            Projection::Perspective { fov } => {
                proof {
                    lemma_product_bounded(scroll.y as int, self.perspective_zoom_speed as int);
                    lemma_product_negates(scroll.y as int, self.perspective_zoom_speed as int);
                }
                let moved: i128 = fov as i128 - multiply(scroll.y, self.perspective_zoom_speed);
                *projection = Projection::Perspective {
                    fov: clamp_wide(
                        moved,
                        self.perspective_zoom_range.start,
                        self.perspective_zoom_range.end,
                    ),
                };
            },
        }
    }
}

/// A positive scalar times a factor below one is smaller than the scalar,
/// and times a factor of one or more it is not.
pub proof fn lemma_product_shrinks(a: int, factor: int)
    requires
        a > 0,
    ensures
        factor < UNIT ==> product(a, factor) < a,
        factor >= UNIT ==> product(a, factor) >= a,
{
    if factor < UNIT {
        assert(a * factor <= a * UNIT - a) by (nonlinear_arith)
            requires
                a > 0,
                factor <= UNIT - 1,
        ;
    } else {
        assert(a * factor >= a * UNIT) by (nonlinear_arith)
            requires
                a > 0,
                factor >= UNIT,
        ;
    }
}

impl CameraSettings {
    /// The projection after the vertical scrolls of `scrolls`, one frame
    /// after the other.
    pub open spec fn zoomed_through(&self, projection: ProjectionModel, scrolls: Seq<int>)
        -> ProjectionModel
        decreases scrolls.len(),
    {
        if scrolls.len() == 0 {
            projection
        } else {
            self.zoomed(self.zoomed_through(projection, scrolls.drop_last()), scrolls.last())
        }
    }
}

/// Zooming never leaves the configured interval: after any run of scrolls
/// the orthographic scale lies in the orthographic interval and the field of
/// view in the perspective one. With no scroll at all the projection is the
/// one given, so it must lie in its interval beforehand.
pub proof fn lemma_zoom_stays_in_range(
    settings: CameraSettings,
    projection: ProjectionModel,
    scrolls: Seq<int>,
)
    requires
        settings.wf(),
        scrolls.len() > 0 || settings.in_zoom_range(projection),
    ensures
        settings.in_zoom_range(settings.zoomed_through(projection, scrolls)),
{
}

/// Scrolling up zooms in. For a positive scroll the scale or field of view
/// becomes strictly smaller exactly when it was above the lower end of its
/// interval and either the scroll times the speed is a positive amount or it
/// was above the upper end too. At the lower end there is no room left, and
/// a scroll too small to count, or a speed that is not positive, moves
/// nothing inward.
pub proof fn lemma_scroll_up_zooms_in(
    settings: CameraSettings,
    projection: ProjectionModel,
    scroll: int,
)
    requires
        settings.wf(),
        scroll > 0,
    ensures
        projection matches ProjectionModel::Orthographic { scale } ==> (
        settings.zoomed(projection, scroll)->scale < scale <==> scale
            > settings.orthographic_zoom_range.start && (product(
            scroll,
            settings.orthographic_zoom_speed as int,
        ) > 0 || scale > settings.orthographic_zoom_range.end)),
        projection matches ProjectionModel::Perspective { fov } ==> (settings.zoomed(
            projection,
            scroll,
        )->fov < fov <==> fov > settings.perspective_zoom_range.start && (product(
            scroll,
            settings.perspective_zoom_speed as int,
        ) > 0 || fov > settings.perspective_zoom_range.end)),
{
    match projection {
        ProjectionModel::Orthographic { scale } => {
            lemma_product_negates(scroll, settings.orthographic_zoom_speed as int);
            if scale > 0 {
                lemma_product_shrinks(
                    scale,
                    UNIT + product(-scroll, settings.orthographic_zoom_speed as int),
                );
            }
        },
        ProjectionModel::Perspective { fov } => {
            lemma_product_negates(scroll, settings.perspective_zoom_speed as int);
        },
    }
}

/// Each kind of projection is zoomed by its own settings alone. Two
/// settings that agree on the orthographic speed and interval zoom an
/// orthographic projection alike, whatever they hold for perspective, and
/// the result is orthographic; and the same with the kinds exchanged.
pub proof fn lemma_zoom_keeps_to_its_kind(
    a: CameraSettings,
    b: CameraSettings,
    projection: ProjectionModel,
    scroll: int,
)
    ensures
        projection is Orthographic ==> a.zoomed(projection, scroll) is Orthographic,
        projection is Perspective ==> a.zoomed(projection, scroll) is Perspective,
        projection is Orthographic && a.orthographic_zoom_speed == b.orthographic_zoom_speed
            && a.orthographic_zoom_range == b.orthographic_zoom_range ==> a.zoomed(
            projection,
            scroll,
        ) == b.zoomed(projection, scroll),
        projection is Perspective && a.perspective_zoom_speed == b.perspective_zoom_speed
            && a.perspective_zoom_range == b.perspective_zoom_range ==> a.zoomed(
            projection,
            scroll,
        ) == b.zoomed(projection, scroll),
{
}

} // verus!
