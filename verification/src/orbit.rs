//! The orbit controller: mouse motion turns the camera about the focus
//! point, and the camera is put back at the orbit distance from it.

use vstd::prelude::*;
use crate::fixed::{clamp, clamp_wide, fits, in_range, multiply, narrow, product, FRAC_PI_2, UNIT,
    lemma_product_bounded, lemma_product_error};
use crate::settings::CameraSettings;
use crate::vector::{Vector2, Vector2Model, Vector3, Vector3Model};

verus! {

/// The largest pitch, up or down, that the orbit controller allows: a
/// hundredth of a radian short of a quarter turn, so that the camera never
/// looks straight along the vertical axis.
pub const PITCH_LIMIT: i64 = 1_560_796;

/// The model of [`EulerAngles`]: three integers counting millionths of a
/// radian.
pub struct AnglesModel {
    pub yaw: int,
    pub pitch: int,
    pub roll: int,
}

impl AnglesModel {
    /// Whether every angle can be stored in a scalar.
    pub open spec fn representable(self) -> bool {
        fits(self.yaw) && fits(self.pitch) && fits(self.roll)
    }
}

/// An orientation taken apart into a turn about the vertical axis (yaw),
/// then one about the camera's right axis (pitch), then one about its line
/// of sight (roll), in millionths of a radian.
#[derive(Clone, Copy, Debug, PartialEq, Eq)]
pub struct EulerAngles {
    pub yaw: i64,
    pub pitch: i64,
    pub roll: i64,
}

impl View for EulerAngles {
    type V = AnglesModel;

    open spec fn view(&self) -> AnglesModel {
        AnglesModel { yaw: self.yaw as int, pitch: self.pitch as int, roll: self.roll as int }
    }
}

/// The position from which a camera that looks along `forward` sees `focus`
/// straight ahead at `distance`: the focus point moved back along the line
/// of sight.
pub open spec fn eye_of(focus: Vector3Model, forward: Vector3Model, distance: int) -> Vector3Model {
    focus.minus(forward.scaled(distance))
}

impl CameraSettings {
    /// The angles after a mouse motion of `delta` with the orbit button
    /// held: the horizontal motion is added to the yaw, the vertical motion
    /// to the pitch, each times its speed; the pitch is then clamped to
    /// [`PITCH_LIMIT`] either way, and the roll stays.
    pub open spec fn orbited(&self, angles: AnglesModel, delta: Vector2Model) -> AnglesModel {
        AnglesModel {
            yaw: angles.yaw + product(delta.x, self.yaw_speed as int),
            pitch: clamp(
                angles.pitch + product(delta.y, self.pitch_speed as int),
                -PITCH_LIMIT,
                PITCH_LIMIT as int,
            ),
            roll: angles.roll,
        }
    }

    /// The camera position for a line of sight `forward`, at the orbit
    /// distance from the focus point.
    pub open spec fn eye(&self, forward: Vector3Model) -> Vector3Model {
        eye_of(self.should_focus_at@, forward, self.orbit_distance as int)
    }

    /// Whether the angles after the motion `delta` can be stored. Only the
    /// yaw can fail to: the pitch is clamped and the roll is kept.
    pub fn can_orbit(&self, angles: &EulerAngles, delta: &Vector2) -> (ok: bool)
        ensures
            ok == self.orbited(angles@, delta@).representable(),
    {
        proof {
            lemma_product_bounded(delta.x as int, self.yaw_speed as int);
        }
        in_range(angles.yaw as i128 + multiply(delta.x, self.yaw_speed))
    }

    /// The orbit controller. While the orbit button is not held nothing is
    /// to change and the result is `None`. While it is held the result is the
    /// new angles, from which the caller rebuilds the orientation and then
    /// places the camera with [`CameraSettings::eye_position`].
    pub fn orbit(&self, angles: EulerAngles, delta: Vector2, held: bool) -> (next: Option<
        EulerAngles,
    >)
        requires
            held ==> self.orbited(angles@, delta@).representable(),
        ensures
            !held ==> next is None,
            held ==> next is Some && next.unwrap()@ == self.orbited(angles@, delta@),
            held ==> -PITCH_LIMIT <= next.unwrap().pitch <= PITCH_LIMIT,
            held ==> -FRAC_PI_2 < next.unwrap().pitch < FRAC_PI_2,
    {
        if !held {
            return None;
        }
        proof {
            lemma_product_bounded(delta.x as int, self.yaw_speed as int);
            lemma_product_bounded(delta.y as int, self.pitch_speed as int);
        }
        let yaw = narrow(angles.yaw as i128 + multiply(delta.x, self.yaw_speed));
        let pitch = clamp_wide(
            angles.pitch as i128 + multiply(delta.y, self.pitch_speed),
            -PITCH_LIMIT,
            PITCH_LIMIT,
        );
        Some(EulerAngles { yaw, pitch, roll: angles.roll })
    }

    /// Whether the camera position for the line of sight `forward` can be
    /// stored.
    pub fn can_place_eye(&self, forward: &Vector3) -> (ok: bool)
        ensures
            ok == self.eye(forward@).representable(),
    {
        self.should_focus_at.retreated(forward, self.orbit_distance).is_representable()
    }

    /// The camera position for the line of sight `forward`: the focus point
    /// less `forward` times the orbit distance.
    pub fn eye_position(&self, forward: &Vector3) -> (eye: Vector3)
        requires
            self.eye(forward@).representable(),
        ensures
            eye@ == self.eye(forward@),
            self.should_focus_at@.minus(eye@) == forward@.scaled(self.orbit_distance as int),
    {
        self.should_focus_at.retreated(forward, self.orbit_distance).narrowed()
    }
}

impl CameraSettings {
    /// The angles after the mouse motions of `deltas`, one frame after the
    /// other, with the orbit button held throughout.
    pub open spec fn orbited_through(&self, angles: AnglesModel, deltas: Seq<Vector2Model>)
        -> AnglesModel
        decreases deltas.len(),
    {
        if deltas.len() == 0 {
            angles
        } else {
            self.orbited(self.orbited_through(angles, deltas.drop_last()), deltas.last())
        }
    }
}

/// The pitch never reaches the vertical: after any run of mouse motions it
/// lies within [`PITCH_LIMIT`] either way, which is strictly inside a
/// quarter turn less a hundredth of a radian, the limit being that bound
/// rounded down. With no motion at all the angles are the ones given, so
/// their pitch must lie within the limit beforehand.
pub proof fn lemma_pitch_stays_clamped(
    settings: CameraSettings,
    angles: AnglesModel,
    deltas: Seq<Vector2Model>,
)
    requires
        deltas.len() > 0 || -PITCH_LIMIT <= angles.pitch <= PITCH_LIMIT,
    ensures
        -PITCH_LIMIT <= settings.orbited_through(angles, deltas).pitch <= PITCH_LIMIT,
        -(FRAC_PI_2 - 10_000) <= settings.orbited_through(angles, deltas).pitch <= FRAC_PI_2
            - 10_000,
{
}

/// Orbiting never touches the roll, however many motions are applied.
pub proof fn lemma_roll_is_kept(
    settings: CameraSettings,
    angles: AnglesModel,
    deltas: Seq<Vector2Model>,
)
    ensures
        settings.orbited_through(angles, deltas).roll == angles.roll,
    decreases deltas.len(),
{
    if deltas.len() > 0 {
        lemma_roll_is_kept(settings, angles, deltas.drop_last());
    }
}

/// Whether `v` has length one, up to what rounding its components to
/// millionths can change: its squared length is within four millionths of
/// one.
pub open spec fn is_direction(v: Vector3Model) -> bool {
    UNIT * UNIT - 4 * UNIT <= v.norm_squared() <= UNIT * UNIT + 4 * UNIT
}

/// The absolute value of an integer.
pub open spec fn magnitude(x: int) -> int {
    if x >= 0 {
        x
    } else {
        -x
    }
}

/// What rounding one product toward zero does to its square: the square of
/// the rounded product, brought back to the scale of `c * d`, is no larger
/// than the square of `c * d` and falls short of it by at most twice
/// `UNIT` times the size of `c * d`.
proof fn lemma_component_error(c: int, d: int)
    ensures
        (product(c, d) * UNIT) * (product(c, d) * UNIT) <= (c * d) * (c * d),
        (c * d) * (c * d) - (product(c, d) * UNIT) * (product(c, d) * UNIT) <= 2_000_000
            * magnitude(c * d),
{
    let p = c * d;
    let x = product(c, d) * UNIT;
    lemma_product_error(c, d);
    let m = magnitude(p);
    let y = magnitude(x);
    assert(0 <= y <= m && m - y < UNIT);
    assert(y * y <= m * m && m * m - y * y <= 2 * 1_000_000 * m) by (nonlinear_arith)
        requires
            0 <= y <= m,
            m - y < 1_000_000,
    ;
    assert(y * y == x * x) by (nonlinear_arith)
        requires
            y == x || y == -x,
    ;
    assert(m * m == p * p) by (nonlinear_arith)
        requires
            m == p || m == -p,
    ;
}

/// The sizes of three numbers add up to at most twice `UNIT` when their
/// squares add up to little more than `UNIT` squared.
proof fn lemma_sizes_bounded(a: int, b: int, c: int)
    requires
        a * a + b * b + c * c <= UNIT * UNIT + 4 * UNIT,
    ensures
        magnitude(a) + magnitude(b) + magnitude(c) <= 2 * UNIT,
{
    let x = magnitude(a);
    let y = magnitude(b);
    let z = magnitude(c);
    assert(x * x == a * a && y * y == b * b && z * z == c * c) by (nonlinear_arith)
        requires
            x == a || x == -a,
            y == b || y == -b,
            z == c || z == -c,
    ;
    let s = x + y + z;
    assert(s * s <= 3 * (x * x + y * y + z * z)) by (nonlinear_arith)
        requires
            s == x + y + z,
    ;
    assert(s <= 2_000_000) by (nonlinear_arith)
        requires
            s >= 0,
            s * s <= 3 * (1_000_000 * 1_000_000 + 4 * 1_000_000),
    ;
}

/// The square of a product is the product of the squares.
proof fn lemma_square_of_product(c: int, d: int)
    by (nonlinear_arith)
    ensures
        (c * d) * (c * d) == (d * d) * (c * c),
{
}

/// The size of a product with a factor that is not negative.
proof fn lemma_size_of_product(c: int, d: int)
    by (nonlinear_arith)
    requires
        d >= 0,
    ensures
        magnitude(c * d) == d * magnitude(c),
{
}

/// A common factor taken out of three terms.
proof fn lemma_common_factor(k: int, x: int, y: int, z: int)
    by (nonlinear_arith)
    ensures
        k * x + k * y + k * z == k * (x + y + z),
{
}

/// Multiplying by a factor that is not negative keeps an order.
proof fn lemma_scaled_order(k: int, x: int, y: int)
    by (nonlinear_arith)
    requires
        k >= 0,
        x <= y,
    ensures
        k * x <= k * y,
{
}

/// The square of a number that was multiplied by `UNIT`.
proof fn lemma_square_at_scale(g: int)
    by (nonlinear_arith)
    ensures
        (g * UNIT) * (g * UNIT) == 1_000_000_000_000 * (g * g),
{
}

/// The camera keeps its distance. When the line of sight `forward` has
/// length one up to rounding and the orbit distance is not negative, the
/// camera position that [`eye_of`] gives lies at that distance from the
/// focus point, up to rounding: the squared distance between the two
/// differs from the orbit distance squared by at most four millionths of
/// it, and on the short side by four raw units times the distance more.
pub proof fn lemma_orbit_distance_is_kept(
    focus: Vector3Model,
    forward: Vector3Model,
    distance: int,
)
    requires
        is_direction(forward),
        distance >= 0,
    ensures
        focus.minus(eye_of(focus, forward, distance)) == forward.scaled(distance),
        UNIT * (forward.scaled(distance).norm_squared() - distance * distance) <= 4 * (distance
            * distance),
        UNIT * (distance * distance - forward.scaled(distance).norm_squared()) <= 4 * (distance
            * distance) + 4 * UNIT * distance,
{
    let d = distance;
    let dd = d * d;
    let (a, b, c) = (forward.x, forward.y, forward.z);
    let n = a * a + b * b + c * c;
    let (ga, gb, gc) = (product(a, d), product(b, d), product(c, d));
    let g = ga * ga + gb * gb + gc * gc;
    assert(forward.scaled(d).norm_squared() == g);
    assert(forward.norm_squared() == n);

    // Each rounded product against the exact one.
    lemma_component_error(a, d);
    lemma_component_error(b, d);
    lemma_component_error(c, d);
    lemma_square_at_scale(ga);
    lemma_square_at_scale(gb);
    lemma_square_at_scale(gc);

    // The squares of the exact products add up to d * d times the squared
    // length of `forward`.
    lemma_square_of_product(a, d);
    lemma_square_of_product(b, d);
    lemma_square_of_product(c, d);
    lemma_common_factor(dd, a * a, b * b, c * c);
    let exact = (a * d) * (a * d) + (b * d) * (b * d) + (c * d) * (c * d);
    assert(exact == dd * n);

    // Their sizes add up to d times the sizes of the components, which is
    // at most d times two.
    lemma_size_of_product(a, d);
    lemma_size_of_product(b, d);
    lemma_size_of_product(c, d);
    lemma_sizes_bounded(a, b, c);
    let sizes = magnitude(a) + magnitude(b) + magnitude(c);
    lemma_common_factor(d, magnitude(a), magnitude(b), magnitude(c));
    lemma_scaled_order(d, sizes, 2_000_000);
    let slack = magnitude(a * d) + magnitude(b * d) + magnitude(c * d);
    assert(slack <= d * 2_000_000);

    // The squared length of `forward` is close to one.
    assert(dd >= 0) by (nonlinear_arith)
        requires
            dd == d * d,
    ;
    lemma_scaled_order(dd, n, 1_000_004_000_000);
    lemma_scaled_order(dd, 999_996_000_000, n);

    assert(1_000_000_000_000 * g <= exact);
    assert(exact - 1_000_000_000_000 * g <= 2_000_000 * slack);
}

} // verus!
