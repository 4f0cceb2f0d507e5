//! The orbit controller: one frame's update of an orbit camera's Euler angles,
//! and the camera position that follows from its forward direction.
//!
//! All quantities are fixed point. Angles are in nanoradians, time in
//! microseconds, pointer motion in whole pointer units, and lengths in
//! micro-units of world space.
use vstd::prelude::*;

verus! {

/// Largest angle magnitude the controller takes in, in nanoradians: a little
/// over half a turn, so that any angle an Euler decomposition yields is
/// accepted after rounding.
pub const MAX_INPUT_ANGLE: i64 = 4_000_000_000;

/// A quarter turn (π/2 radians) in nanoradians, rounded to nearest.
pub const QUARTER_TURN: i64 = 1_570_796_327;

/// Largest roll speed magnitude accepted, in nanoradians per microsecond.
pub const MAX_ROLL_SPEED: i32 = 1_000_000_000;

/// Why a set of camera settings was refused.
#[derive(Clone, Copy, Debug, PartialEq, Eq, Structural)]
pub enum SettingsError {
    /// The lower pitch bound is not below the upper one.
    EmptyPitchRange,
    /// A pitch bound lies outside the open quarter turn either side of level.
    PitchOutOfRange,
    /// The orbit distance is zero.
    ZeroDistance,
    /// The roll speed magnitude exceeds `MAX_ROLL_SPEED`.
    RollSpeedTooLarge,
}

/// How the camera orbits and how fast it responds to input.
#[derive(Clone, Copy, Debug, PartialEq, Eq, Structural)]
pub struct CameraSettings {
    /// Distance from the orbit target, in micro-units.
    pub orbit_distance: u32,
    /// Pitch change per pointer unit of vertical drag, in nanoradians.
    pub pitch_speed: i32,
    /// Lowest pitch allowed, in nanoradians.
    pub pitch_min: i64,
    /// Highest pitch allowed, in nanoradians.
    pub pitch_max: i64,
    /// Roll rate while the secondary button is held, in nanoradians per microsecond.
    pub roll_speed: i32,
    /// Yaw change per pointer unit of horizontal drag, in nanoradians.
    pub yaw_speed: i32,
}

/// Orientation as yaw (about world up), then pitch (about local right),
/// then roll (about local forward), each in nanoradians.
#[derive(Clone, Copy, Debug, PartialEq, Eq, Structural)]
pub struct EulerAngles {
    pub yaw: i64,
    pub pitch: i64,
    pub roll: i64,
}

/// What the input devices reported for one frame.
#[derive(Clone, Copy, Debug, PartialEq, Eq, Structural)]
pub struct FrameInput {
    /// Horizontal pointer motion since the last frame.
    pub pointer_dx: i32,
    /// Vertical pointer motion since the last frame.
    pub pointer_dy: i32,
    /// Whether the primary (drag) button is held.
    pub primary_held: bool,
    /// Whether the secondary (roll) button is held.
    pub secondary_held: bool,
    /// Time since the last frame, in microseconds.
    pub elapsed_us: u32,
}

/// A direction in millionths of a unit per axis.
#[derive(Clone, Copy, Debug, PartialEq, Eq, Structural)]
pub struct Direction {
    pub x: i32,
    pub y: i32,
    pub z: i32,
}

/// A point in world space, in units of 10^-12 world units per axis.
#[derive(Clone, Copy, Debug, PartialEq, Eq, Structural)]
pub struct Point {
    pub x: i64,
    pub y: i64,
    pub z: i64,
}

pub open spec fn abs_spec(v: int) -> int {
    if v < 0 { -v } else { v }
}

impl CameraSettings {
    /// Settings the orbit controller accepts.
    pub open spec fn wf(&self) -> bool {
        &&& self.pitch_min < self.pitch_max
        &&& -QUARTER_TURN < self.pitch_min
        &&& self.pitch_max < QUARTER_TURN
        &&& self.orbit_distance > 0
        &&& abs_spec(self.roll_speed as int) <= MAX_ROLL_SPEED
    }

    /// The first rule that the given values break, if any.
    pub open spec fn check_spec(
        orbit_distance: u32,
        pitch_min: i64,
        pitch_max: i64,
        roll_speed: i32,
    ) -> Option<SettingsError> {
        if pitch_min >= pitch_max {
            Some(SettingsError::EmptyPitchRange)
        } else if pitch_min <= -QUARTER_TURN || pitch_max >= QUARTER_TURN {
            Some(SettingsError::PitchOutOfRange)
        } else if orbit_distance == 0 {
            Some(SettingsError::ZeroDistance)
        } else if abs_spec(roll_speed as int) > MAX_ROLL_SPEED {
            Some(SettingsError::RollSpeedTooLarge)
        } else {
            None
        }
    }

    /// Builds settings, refusing any that the orbit controller cannot use.
    pub fn new(
        orbit_distance: u32,
        pitch_speed: i32,
        pitch_min: i64,
        pitch_max: i64,
        roll_speed: i32,
        yaw_speed: i32,
    ) -> (r: Result<CameraSettings, SettingsError>)
        ensures
            match Self::check_spec(orbit_distance, pitch_min, pitch_max, roll_speed) {
                Some(e) => r == Err::<CameraSettings, SettingsError>(e),
                None => r == Ok::<CameraSettings, SettingsError>(
                    (CameraSettings {
                        orbit_distance,
                        pitch_speed,
                        pitch_min,
                        pitch_max,
                        roll_speed,
                        yaw_speed,
                    }),
                ),
            },
            r is Ok <==> (CameraSettings {
                orbit_distance,
                pitch_speed,
                pitch_min,
                pitch_max,
                roll_speed,
                yaw_speed,
            }).wf(),
    {
        if pitch_min >= pitch_max {
            Err(SettingsError::EmptyPitchRange)
        } else if pitch_min <= -QUARTER_TURN || pitch_max >= QUARTER_TURN {
            Err(SettingsError::PitchOutOfRange)
        } else if orbit_distance == 0 {
            Err(SettingsError::ZeroDistance)
        } else if roll_speed > MAX_ROLL_SPEED || roll_speed < -MAX_ROLL_SPEED {
            Err(SettingsError::RollSpeedTooLarge)
        } else {
            Ok(CameraSettings { orbit_distance, pitch_speed, pitch_min, pitch_max, roll_speed, yaw_speed })
        }
    }

    /// Whether these settings are ones the orbit controller accepts.
    pub fn is_valid(&self) -> (r: bool)
        ensures
            r == self.wf(),
    {
        self.pitch_min < self.pitch_max && -QUARTER_TURN < self.pitch_min && self.pitch_max
            < QUARTER_TURN && self.orbit_distance > 0 && -MAX_ROLL_SPEED <= self.roll_speed
            && self.roll_speed <= MAX_ROLL_SPEED
    }
}

/// Pitch limit of the default settings: a quarter turn less 0.01 radian,
/// which keeps the camera from flipping over the poles.
pub const DEFAULT_PITCH_LIMIT: i64 = 1_560_796_327;

impl Default for CameraSettings {
    fn default() -> (r: CameraSettings)
        ensures
            r.orbit_distance == 20_000_000,
            r.pitch_speed == 3_000_000,
            r.pitch_min == -DEFAULT_PITCH_LIMIT,
            r.pitch_max == DEFAULT_PITCH_LIMIT,
            r.roll_speed == 1_000,
            r.yaw_speed == 4_000_000,
            r.wf(),
    {
        CameraSettings {
            orbit_distance: 20_000_000,
            pitch_speed: 3_000_000,
            pitch_min: -DEFAULT_PITCH_LIMIT,
            pitch_max: DEFAULT_PITCH_LIMIT,
            roll_speed: 1_000,
            yaw_speed: 4_000_000,
        }
    }
}

impl EulerAngles {
    /// Each angle lies within `MAX_INPUT_ANGLE` of zero, as a decomposition yields.
    pub open spec fn wf(&self) -> bool {
        &&& abs_spec(self.yaw as int) <= MAX_INPUT_ANGLE
        &&& abs_spec(self.pitch as int) <= MAX_INPUT_ANGLE
        &&& abs_spec(self.roll as int) <= MAX_INPUT_ANGLE
    }

    /// Whether the orbit controller takes these angles in.
    pub fn is_valid(&self) -> (r: bool)
        ensures
            r == self.wf(),
    {
        -MAX_INPUT_ANGLE <= self.yaw && self.yaw <= MAX_INPUT_ANGLE && -MAX_INPUT_ANGLE
            <= self.pitch && self.pitch <= MAX_INPUT_ANGLE && -MAX_INPUT_ANGLE <= self.roll
            && self.roll <= MAX_INPUT_ANGLE
    }
}

pub open spec fn clamp_spec(v: int, lo: int, hi: int) -> int {
    if v < lo {
        lo
    } else if v > hi {
        hi
    } else {
        v
    }
}

/// Yaw change for a frame: the negated horizontal drag times the yaw speed,
/// with no scaling by elapsed time.
pub open spec fn delta_yaw(input: FrameInput, s: CameraSettings) -> int {
    if input.primary_held {
        -(input.pointer_dx as int) * s.yaw_speed
    } else {
        0
    }
}

/// Pitch change for a frame, before clamping: the negated vertical drag times
/// the pitch speed, with no scaling by elapsed time.
pub open spec fn delta_pitch(input: FrameInput, s: CameraSettings) -> int {
    if input.primary_held {
        -(input.pointer_dy as int) * s.pitch_speed
    } else {
        0
    }
}

/// Roll change for a frame: the roll speed times the elapsed time while the
/// secondary button is held.
pub open spec fn delta_roll(input: FrameInput, s: CameraSettings) -> int {
    if input.secondary_held {
        s.roll_speed * input.elapsed_us
    } else {
        0
    }
}

/// The angles after one frame, as (yaw, pitch, roll).
pub open spec fn orbit_step(a: EulerAngles, input: FrameInput, s: CameraSettings) -> (int, int, int) {
    (
        a.yaw + delta_yaw(input, s),
        clamp_spec(a.pitch + delta_pitch(input, s), s.pitch_min as int, s.pitch_max as int),
        a.roll + delta_roll(input, s),
    )
}

/// Clamps `v` into `[lo, hi]`.
pub fn clamp_angle(v: i64, lo: i64, hi: i64) -> (r: i64)
    requires
        lo <= hi,
    ensures
        r == clamp_spec(v as int, lo as int, hi as int),
{
    if v < lo {
        lo
    } else if v > hi {
        hi
    } else {
        v
    }
}

/// One frame of orbit control: drag turns yaw and pitch, the secondary
/// button rolls at a fixed rate, and pitch is held within the settings' range.
pub fn orbit(angles: EulerAngles, input: FrameInput, settings: &CameraSettings) -> (r: EulerAngles)
    requires
        settings.wf(),
        angles.wf(),
    ensures
        (r.yaw as int, r.pitch as int, r.roll as int) == orbit_step(angles, input, *settings),
        settings.pitch_min <= r.pitch <= settings.pitch_max,
{
    let mut drag_x: i64 = 0;
    let mut drag_y: i64 = 0;
    if input.primary_held {
        drag_x = -(input.pointer_dx as i64);
        drag_y = -(input.pointer_dy as i64);
    }
    let mut roll_delta: i64 = 0;
    if input.secondary_held {
        assert(abs_spec(settings.roll_speed as int) * input.elapsed_us <= MAX_ROLL_SPEED
            * 0xffff_ffff) by (nonlinear_arith)
            requires
                abs_spec(settings.roll_speed as int) <= MAX_ROLL_SPEED,
                0 <= input.elapsed_us <= 0xffff_ffff,
        ;
        assert(abs_spec(settings.roll_speed as int * input.elapsed_us) == abs_spec(
            settings.roll_speed as int,
        ) * input.elapsed_us) by (nonlinear_arith)
            requires
                0 <= input.elapsed_us,
        ;
        roll_delta = settings.roll_speed as i64 * input.elapsed_us as i64;
    }
    assert(abs_spec(drag_x * settings.yaw_speed) <= 0x8000_0000 * 0x8000_0000) by (nonlinear_arith)
        requires
            -0x8000_0000 <= drag_x <= 0x8000_0000,
            -0x8000_0000 <= settings.yaw_speed <= 0x7fff_ffff,
    ;
    assert(abs_spec(drag_y * settings.pitch_speed) <= 0x8000_0000 * 0x8000_0000) by (nonlinear_arith)
        requires
            -0x8000_0000 <= drag_y <= 0x8000_0000,
            -0x8000_0000 <= settings.pitch_speed <= 0x7fff_ffff,
    ;
    let pitch_delta = drag_y * settings.pitch_speed as i64;
    let yaw_delta = drag_x * settings.yaw_speed as i64;
    let pitch = clamp_angle(angles.pitch + pitch_delta, settings.pitch_min, settings.pitch_max);
    EulerAngles { yaw: angles.yaw + yaw_delta, pitch, roll: angles.roll + roll_delta }
}

proof fn lemma_product_fits(c: int, d: int)
    requires
        -0x8000_0000 <= c <= 0x7fff_ffff,
        0 <= d <= 0xffff_ffff,
    ensures
        -0x8000_0000 * 0xffff_ffff <= c * d <= 0x7fff_ffff * 0xffff_ffff,
        -0x7fff_ffff * 0xffff_ffff <= 0 - c * d <= 0x8000_0000 * 0xffff_ffff,
{
    assert(-0x8000_0000 * 0xffff_ffff <= c * d <= 0x7fff_ffff * 0xffff_ffff) by (nonlinear_arith)
        requires
            -0x8000_0000 <= c <= 0x7fff_ffff,
            0 <= d <= 0xffff_ffff,
    ;
}

/// Where the camera stands: the orbit target (the origin) less the forward
/// direction times the orbit distance.
pub fn orbit_position(forward: Direction, distance: u32) -> (r: Point)
    ensures
        r.x == 0 - forward.x * distance,
        r.y == 0 - forward.y * distance,
        r.z == 0 - forward.z * distance,
{
    proof {
        lemma_product_fits(forward.x as int, distance as int);
        lemma_product_fits(forward.y as int, distance as int);
        lemma_product_fits(forward.z as int, distance as int);
    }
    Point {
        x: 0 - forward.x as i64 * distance as i64,
        y: 0 - forward.y as i64 * distance as i64,
        z: 0 - forward.z as i64 * distance as i64,
    }
}

/// Whatever the input, the pitch after a frame lies within the settings'
/// pitch range.
pub proof fn lemma_pitch_in_range(a: EulerAngles, input: FrameInput, s: CameraSettings)
    requires
        s.wf(),
    ensures
        s.pitch_min <= orbit_step(a, input, s).1 <= s.pitch_max,
{
}

/// With no pointer motion and no button held, a frame leaves the angles of a
/// camera whose pitch is already in range as they were.
pub proof fn lemma_zero_input_no_change(a: EulerAngles, input: FrameInput, s: CameraSettings)
    requires
        s.wf(),
        s.pitch_min <= a.pitch <= s.pitch_max,
        input.pointer_dx == 0,
        input.pointer_dy == 0,
        !input.primary_held,
        !input.secondary_held,
    ensures
        orbit_step(a, input, s) == (a.yaw as int, a.pitch as int, a.roll as int),
{
}

/// Drag input is not scaled by time: two frames that differ only in elapsed
/// time turn yaw and pitch alike.
pub proof fn lemma_drag_ignores_time(
    a: EulerAngles,
    input: FrameInput,
    other: FrameInput,
    s: CameraSettings,
)
    requires
        other.pointer_dx == input.pointer_dx,
        other.pointer_dy == input.pointer_dy,
        other.primary_held == input.primary_held,
        other.secondary_held == input.secondary_held,
    ensures
        orbit_step(a, other, s).0 == orbit_step(a, input, s).0,
        orbit_step(a, other, s).1 == orbit_step(a, input, s).1,
{
}

/// Roll input is a rate: with the secondary button held, doubling the elapsed
/// time doubles the roll change.
pub proof fn lemma_roll_scales_with_time(
    a: EulerAngles,
    input: FrameInput,
    doubled: FrameInput,
    s: CameraSettings,
)
    requires
        input.secondary_held,
        doubled.secondary_held,
        input.pointer_dx == 0,
        input.pointer_dy == 0,
        doubled.pointer_dx == 0,
        doubled.pointer_dy == 0,
        doubled.elapsed_us == 2 * input.elapsed_us,
    ensures
        orbit_step(a, doubled, s).2 - a.roll == 2 * (orbit_step(a, input, s).2 - a.roll),
{
    assert(s.roll_speed * (2 * input.elapsed_us) == 2 * (s.roll_speed * input.elapsed_us))
        by (nonlinear_arith);
}

} // verus!
