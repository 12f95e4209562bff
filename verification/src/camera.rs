//! Camera/character look controller.
//!
//! Pointer-motion samples are integrated into yaw/pitch state held in a
//! [`CamConfig`]. Pitch is clamped to an asymmetric range immediately
//! after every sample; yaw is kept normalized to one full turn. The
//! resulting rotation is split between two transforms: the camera gets
//! a pure pitch tilt, its parent body a pure yaw turn.
//!
//! Angles are fixed-point, in thousandths of a degree; sensitivity is
//! in thousandths (500 stands for one half).

use vstd::arithmetic::div_mod::{
    lemma_fundamental_div_mod, lemma_fundamental_div_mod_converse_mod, lemma_mod_bound,
};
use vstd::prelude::*;

use crate::math::Orientation;
use crate::math::FULL_TURN_MILLIDEG;

verus! {

/// Lower pitch bound: 85 degrees downward, in thousandths of a degree.
pub const PITCH_MIN_MILLIDEG: i32 = -85_000;

/// Upper pitch bound: 80 degrees upward, in thousandths of a degree.
pub const PITCH_MAX_MILLIDEG: i32 = 80_000;

/// Divisor applied to every pointer delta before scaling.
pub const MOTION_DIVISOR: u32 = 180;

/// One pointer-motion sample: the pointer's movement this event.
#[derive(Clone, Copy, Debug, PartialEq, Eq, Structural)]
pub struct MouseDelta {
    pub dx: i32,
    pub dy: i32,
}

/// Per-camera look state: accumulated yaw and pitch, the inversion
/// flag, and the pointer sensitivity in thousandths.
#[derive(Clone, Copy, Debug, PartialEq, Eq, Structural)]
pub struct CamConfig {
    /// Yaw in thousandths of a degree, normalized to `[0, FULL_TURN_MILLIDEG)`.
    pub yaw: u32,
    /// Pitch in thousandths of a degree, within `[PITCH_MIN_MILLIDEG, PITCH_MAX_MILLIDEG]`.
    pub pitch: i32,
    /// Whether the look direction is inverted. Note the sign convention
    /// of [`sign_multiplier`]: `false` still applies a factor of -1.
    pub invert_camera: bool,
    /// Sensitivity in thousandths; 500 stands for one half.
    pub cam_sensitivity: u32,
}

impl CamConfig {
    /// Well-formedness: yaw normalized, pitch inside the clamp range.
    pub open spec fn wf(self) -> bool {
        &&& self.yaw < FULL_TURN_MILLIDEG
        &&& PITCH_MIN_MILLIDEG <= self.pitch <= PITCH_MAX_MILLIDEG
    }
}

impl Default for CamConfig {
    /// The state a camera spawns with: level view, not inverted,
    /// sensitivity one half.
    fn default() -> (r: CamConfig)
        ensures
            r == (CamConfig { yaw: 0, pitch: 0, invert_camera: false, cam_sensitivity: 500 }),
            r.wf(),
    {
        CamConfig { yaw: 0, pitch: 0, invert_camera: false, cam_sensitivity: 500 }
    }
}

/// The sign factor applied to every increment. The convention is
/// deliberately inverted with respect to naive intuition: `false`
/// multiplies by -1, `true` by +1.
pub open spec fn sign_multiplier(invert: bool) -> int {
    if invert {
        1
    } else {
        -1
    }
}

/// Absolute value of a pointer delta, as a mathematical value.
pub open spec fn abs_int(d: int) -> int {
    if d >= 0 {
        d
    } else {
        -d
    }
}

/// Magnitude of one increment: `|d| * sens / MOTION_DIVISOR`, rounded
/// toward zero.
pub open spec fn motion_magnitude(d: int, sens: int) -> int {
    (abs_int(d) * sens) / (MOTION_DIVISOR as int)
}

/// The signed angle increment one pointer delta contributes:
/// `(d / MOTION_DIVISOR) * sign_multiplier * sens` in fixed point,
/// rounding the magnitude toward zero.
pub open spec fn look_delta(d: int, invert: bool, sens: int) -> int {
    if d >= 0 {
        sign_multiplier(invert) * motion_magnitude(d, sens)
    } else {
        -1 * sign_multiplier(invert) * motion_magnitude(d, sens)
    }
}

/// Yaw is an orientation around a full turn: it is kept modulo
/// `FULL_TURN_MILLIDEG`, in `[0, FULL_TURN_MILLIDEG)`.
pub open spec fn wrap_yaw(y: int) -> int {
    y % (FULL_TURN_MILLIDEG as int)
}

/// Pitch is clamped to `[PITCH_MIN_MILLIDEG, PITCH_MAX_MILLIDEG]`
/// immediately after every update.
pub open spec fn clamp_pitch(p: int) -> int {
    if p < PITCH_MIN_MILLIDEG as int {
        PITCH_MIN_MILLIDEG as int
    } else if p > PITCH_MAX_MILLIDEG as int {
        PITCH_MAX_MILLIDEG as int
    } else {
        p
    }
}

/// The look state after integrating one pointer-motion sample.
pub open spec fn cam_updated(c: CamConfig, dx: int, dy: int) -> CamConfig {
    CamConfig {
        yaw: wrap_yaw(c.yaw + look_delta(dx, c.invert_camera, c.cam_sensitivity as int)) as u32,
        pitch: clamp_pitch(c.pitch + look_delta(dy, c.invert_camera, c.cam_sensitivity as int)) as i32,
        invert_camera: c.invert_camera,
        cam_sensitivity: c.cam_sensitivity,
    }
}

/// The look state after integrating a whole sample queue in order.
pub open spec fn cam_updated_seq(c: CamConfig, ds: Seq<MouseDelta>) -> CamConfig
    decreases ds.len(),
{
    if ds.len() == 0 {
        c
    } else {
        cam_updated_seq(cam_updated(c, ds[0].dx as int, ds[0].dy as int), ds.drop_first())
    }
}

/// `look_delta` written out by the sign of the product: the increment
/// is `+motion_magnitude` when the delta's sign agrees with the
/// inversion flag, `-motion_magnitude` otherwise.
pub proof fn lemma_look_delta_cases(d: int, invert: bool, sens: int)
    ensures
        look_delta(d, invert, sens) == if ((d >= 0) == invert) {
            motion_magnitude(d, sens)
        } else {
            -motion_magnitude(d, sens)
        },
{
    let m = motion_magnitude(d, sens);
    if invert {
        assert(1 * m == m);
        assert(-1 * 1 * m == -m);
    } else {
        assert(-1 * m == -m);
        assert(-1 * -1 * m == m);
    }
}

/// Absolute value of a pointer delta.
fn delta_abs(d: i32) -> (r: u32)
    ensures
        r == abs_int(d as int),
{
    if d >= 0 {
        d as u32
    } else {
        (-(d as i64)) as u32
    }
}

/// Integrates one pointer-motion sample: adds the signed increments to
/// yaw and pitch, normalizes yaw, and clamps pitch.
pub fn apply_motion(cfg: &mut CamConfig, dx: i32, dy: i32)
    requires
        old(cfg).wf(),
    ensures
        final(cfg).wf(),
        *final(cfg) == cam_updated(*old(cfg), dx as int, dy as int),
{
    let sens: u64 = cfg.cam_sensitivity as u64;
    let turn: u64 = FULL_TURN_MILLIDEG as u64;

    // Yaw update.
    let mag_x: u64 = scaled_magnitude(dx, cfg.cam_sensitivity);
    let m_x: u32 = (mag_x % turn) as u32;
    let x_positive: bool = (dx >= 0) == cfg.invert_camera;
    proof {
        lemma_mod_bound(mag_x as int, turn as int);
        lemma_look_delta_cases(dx as int, cfg.invert_camera, sens as int);
    }
    let new_yaw: u32 = if x_positive {
        let s: u32 = cfg.yaw + m_x;
        if s >= FULL_TURN_MILLIDEG {
            s - FULL_TURN_MILLIDEG
        } else {
            s
        }
    } else {
        if cfg.yaw >= m_x {
            cfg.yaw - m_x
        } else {
            cfg.yaw + FULL_TURN_MILLIDEG - m_x
        }
    };
    proof {
        let t = turn as int;
        let y0 = cfg.yaw as int;
        let mag = mag_x as int;
        let m = m_x as int;
        lemma_fundamental_div_mod(mag, t);
        let q0 = mag / t;
        if x_positive {
            if y0 + m < t {
                lemma_fundamental_div_mod_converse_mod(y0 + mag, t, q0, y0 + m);
            } else {
                lemma_fundamental_div_mod_converse_mod(y0 + mag, t, q0 + 1, y0 + m - t);
            }
        } else {
            if y0 >= m {
                lemma_fundamental_div_mod_converse_mod(y0 - mag, t, -q0, y0 - m);
            } else {
                lemma_fundamental_div_mod_converse_mod(y0 - mag, t, -q0 - 1, y0 - m + t);
            }
        }
        assert(new_yaw == wrap_yaw(y0 + look_delta(dx as int, cfg.invert_camera, sens as int)));
    }

    // Pitch update. A move past the whole clamp range saturates at the
    // nearer bound without entering narrow arithmetic.
    let mag_y: u64 = scaled_magnitude(dy, cfg.cam_sensitivity);
    let y_positive: bool = (dy >= 0) == cfg.invert_camera;
    proof {
        lemma_look_delta_cases(dy as int, cfg.invert_camera, sens as int);
    }
    let new_pitch: i32 = if mag_y >= 200_000 {
        if y_positive {
            PITCH_MAX_MILLIDEG
        } else {
            PITCH_MIN_MILLIDEG
        }
    } else {
        let moved: i64 = if y_positive {
            cfg.pitch as i64 + mag_y as i64
        } else {
            cfg.pitch as i64 - mag_y as i64
        };
        if moved < PITCH_MIN_MILLIDEG as i64 {
            PITCH_MIN_MILLIDEG
        } else if moved > PITCH_MAX_MILLIDEG as i64 {
            PITCH_MAX_MILLIDEG
        } else {
            moved as i32
        }
    };

    cfg.yaw = new_yaw;
    cfg.pitch = new_pitch;
}

/// A missing singleton is a configuration error surfaced at the point
/// of use; the caller decides between retry and fatal treatment.
#[derive(Clone, Copy, Debug, PartialEq, Eq, Structural)]
pub enum ConfigError {
    CameraNotFound,
    PlayerNotFound,
}

/// The camera entity: its own transform and its look state.
#[derive(Clone, Copy, Debug, PartialEq, Eq, Structural)]
pub struct CameraEntity {
    pub transform: Orientation,
    pub config: CamConfig,
}

/// The two cooperating singletons the look controller mutates: the
/// camera and the player body it is parented to. Either may not be
/// spawned yet.
#[derive(Clone, Copy, Debug, PartialEq, Eq, Structural)]
pub struct LookWorld {
    pub camera: Option<CameraEntity>,
    pub player: Option<Orientation>,
}

impl LookWorld {
    pub open spec fn wf(self) -> bool {
        self.camera matches Some(c) ==> c.config.wf()
    }
}

/// Folding one more sample onto a queue is one more update step.
pub proof fn lemma_cam_updated_seq_push(c: CamConfig, ds: Seq<MouseDelta>, d: MouseDelta)
    ensures
        cam_updated_seq(c, ds.push(d)) == cam_updated(
            cam_updated_seq(c, ds),
            d.dx as int,
            d.dy as int,
        ),
    decreases ds.len(),
{
    reveal_with_fuel(cam_updated_seq, 3);
    if ds.len() == 0 {
        assert(ds.push(d)[0] == d);
        assert(ds.push(d).drop_first() =~= Seq::<MouseDelta>::empty());
    } else {
        assert(ds.push(d)[0] == ds[0]);
        assert(ds.push(d).drop_first() =~= ds.drop_first().push(d));
        lemma_cam_updated_seq_push(cam_updated(c, ds[0].dx as int, ds[0].dy as int), ds.drop_first(), d);
    }
}

/// However large, signed or long the sample queue, the resulting pitch
/// never leaves `[PITCH_MIN_MILLIDEG, PITCH_MAX_MILLIDEG]`.
pub proof fn lemma_pitch_always_clamped(c: CamConfig, ds: Seq<MouseDelta>)
    requires
        PITCH_MIN_MILLIDEG <= c.pitch <= PITCH_MAX_MILLIDEG,
    ensures
        PITCH_MIN_MILLIDEG <= cam_updated_seq(c, ds).pitch <= PITCH_MAX_MILLIDEG,
    decreases ds.len(),
{
    if ds.len() > 0 {
        lemma_pitch_always_clamped(cam_updated(c, ds[0].dx as int, ds[0].dy as int), ds.drop_first());
    }
}

/// Well-formedness of the look state survives any sample queue.
pub proof fn lemma_cam_wf_preserved(c: CamConfig, ds: Seq<MouseDelta>)
    requires
        c.wf(),
    ensures
        cam_updated_seq(c, ds).wf(),
    decreases ds.len(),
{
    if ds.len() > 0 {
        lemma_mod_bound(
            c.yaw + look_delta(ds[0].dx as int, c.invert_camera, c.cam_sensitivity as int),
            FULL_TURN_MILLIDEG as int,
        );
        lemma_cam_wf_preserved(cam_updated(c, ds[0].dx as int, ds[0].dy as int), ds.drop_first());
    }
}

/// Toggling the inversion flag flips the sign of every subsequent
/// yaw and pitch increment; the clamp stays the very same
/// `clamp_pitch`, bounds untouched.
pub proof fn lemma_invert_flips_increments(c: CamConfig, dx: int, dy: int)
    ensures
        look_delta(dx, !c.invert_camera, c.cam_sensitivity as int) == -look_delta(
            dx,
            c.invert_camera,
            c.cam_sensitivity as int,
        ),
        cam_updated(
            (CamConfig { invert_camera: !c.invert_camera, ..c }),
            dx,
            dy,
        ).pitch == clamp_pitch(
            c.pitch - look_delta(dy, c.invert_camera, c.cam_sensitivity as int),
        ),
        cam_updated((CamConfig { invert_camera: !c.invert_camera, ..c }), dx, dy).yaw
            == wrap_yaw(c.yaw - look_delta(dx, c.invert_camera, c.cam_sensitivity as int)) as u32,
{
    let sens = c.cam_sensitivity as int;
    lemma_look_delta_cases(dx, c.invert_camera, sens);
    lemma_look_delta_cases(dx, !c.invert_camera, sens);
    lemma_look_delta_cases(dy, c.invert_camera, sens);
    lemma_look_delta_cases(dy, !c.invert_camera, sens);
}

/// Drains one tick's pointer-motion queue in order into the camera's
/// look state, then distributes the rotation: the camera's transform
/// becomes a pure pitch tilt, the body's a pure yaw turn. A missing
/// singleton surfaces as a named error and mutates nothing; an empty
/// queue asks for neither singleton and is a no-op.
pub fn camera_look(world: &mut LookWorld, motions: &Vec<MouseDelta>) -> (r: Result<(), ConfigError>)
    requires
        old(world).wf(),
    ensures
        final(world).wf(),
        motions@.len() == 0 ==> r == Ok::<(), ConfigError>(()) && *final(world) == *old(world),
        motions@.len() > 0 && old(world).camera is None ==> r == Err::<(), ConfigError>(
            ConfigError::CameraNotFound,
        ) && *final(world) == *old(world),
        motions@.len() > 0 && old(world).camera is Some && old(world).player is None ==> r
            == Err::<(), ConfigError>(ConfigError::PlayerNotFound) && *final(world) == *old(world),
        motions@.len() > 0 && old(world).camera is Some && old(world).player is Some ==> {
            let cfg = cam_updated_seq(old(world).camera->Some_0.config, motions@);
            &&& r == Ok::<(), ConfigError>(())
            &&& final(world).camera == Some(
                CameraEntity { transform: Orientation::pitch_only(cfg.pitch), config: cfg },
            )
            &&& final(world).player == Some(Orientation::yaw_only(cfg.yaw))
        },
{
    if motions.len() == 0 {
        return Ok(());
    }
    let mut cam: CameraEntity = match world.camera {
        Some(c) => c,
        None => {
            return Err(ConfigError::CameraNotFound);
        },
    };
    match world.player {
        Some(_) => (),
        None => {
            return Err(ConfigError::PlayerNotFound);
        },
    }
    let mut i: usize = 0;
    while i < motions.len()
        invariant
            i <= motions@.len(),
            cam.config.wf(),
            cam.config == cam_updated_seq(old(world).camera->Some_0.config, motions@.take(i as int)),
            cam.transform == old(world).camera->Some_0.transform,
            old(world).camera is Some,
            *world == *old(world),
        decreases motions@.len() - i,
    {
        let d = motions[i];
        proof {
            lemma_cam_updated_seq_push(
                old(world).camera->Some_0.config,
                motions@.take(i as int),
                d,
            );
            assert(motions@.take(i + 1) =~= motions@.take(i as int).push(d));
        }
        apply_motion(&mut cam.config, d.dx, d.dy);
        i = i + 1;
    }
    proof {
        assert(motions@.take(motions@.len() as int) =~= motions@);
    }
    cam.transform = Orientation { roll: 0, yaw: 0, pitch: cam.config.pitch };
    let body = Orientation { roll: 0, yaw: cam.config.yaw, pitch: 0 };
    world.camera = Some(cam);
    world.player = Some(body);
    Ok(())
}

/// Computes `|d| * sens / MOTION_DIVISOR` without overflow.
fn scaled_magnitude(d: i32, sens: u32) -> (r: u64)
    ensures
        r == motion_magnitude(d as int, sens as int),
{
    let a: u64 = delta_abs(d) as u64;
    proof {
        assert(a <= 0x8000_0000u64);
        assert(a * sens <= 0x8000_0000u64 * 0xFFFF_FFFFu64) by (nonlinear_arith)
            requires
                a <= 0x8000_0000u64,
                sens <= 0xFFFF_FFFFu32,
        ;
    }
    let prod: u64 = a * (sens as u64);
    prod / (MOTION_DIVISOR as u64)
}

} // verus!
