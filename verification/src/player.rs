//! Player singletons and the cursor/input manager.
//!
//! The player body is a kinematic physics body; its forward helper is
//! a fixed child offset used purely to derive a world-space facing
//! point. The cursor manager toggles pointer capture and movement
//! input together, atomically from the caller's view, on each escape
//! edge.

use vstd::prelude::*;

use crate::camera::{CamConfig, CameraEntity, LookWorld};
use crate::math::{Orientation, Vec3Fixed};

verus! {

/// The logical half of the player composition.
#[derive(Clone, Copy, Debug, PartialEq, Eq, Structural)]
pub struct PlayerLogical;

/// The render half of the player composition.
#[derive(Clone, Copy, Debug, PartialEq, Eq, Structural)]
pub struct PlayerRender;

/// The player body singleton.
#[derive(Clone, Copy, Debug, PartialEq, Eq, Structural)]
pub struct Player;

/// Fixed child reference point on the local forward axis, used solely
/// to compute the body's facing direction.
#[derive(Clone, Copy, Debug, PartialEq, Eq, Structural)]
pub struct ForwardHelper;

/// The player composition as spawned: the look singletons, the spawn
/// point, and the fixed local offsets of the camera and the forward
/// helper. Distances are in thousandths of a world unit.
#[derive(Clone, Copy, Debug, PartialEq, Eq, Structural)]
pub struct PlayerRig {
    pub look: LookWorld,
    pub spawn_point: Vec3Fixed,
    pub camera_offset: Vec3Fixed,
    pub helper_offset: Vec3Fixed,
}

/// Spawns the player composition: a kinematic body at the spawn
/// point, a child camera one unit up with a fresh look state, and a
/// forward helper one unit along local negative Z, there solely to
/// derive the facing direction. Exactly one such composition is meant
/// to exist.
pub fn setup_player() -> (r: PlayerRig)
    ensures
        r.look.camera == Some(
            CameraEntity {
                transform: Orientation { roll: 0, yaw: 0, pitch: 0 },
                config: CamConfig { yaw: 0, pitch: 0, invert_camera: false, cam_sensitivity: 500 },
            },
        ),
        r.look.player == Some(Orientation { roll: 0, yaw: 0, pitch: 0 }),
        r.look.wf(),
        r.spawn_point == (Vec3Fixed { x: 0, y: 1_500, z: 0 }),
        r.camera_offset == (Vec3Fixed { x: 0, y: 1_000, z: 0 }),
        r.helper_offset == (Vec3Fixed { x: 0, y: 0, z: -1_000i64 }),
{
    let config = CamConfig::default();
    PlayerRig {
        look: LookWorld {
            camera: Some(CameraEntity { transform: Orientation::identity(), config }),
            player: Some(Orientation::identity()),
        },
        spawn_point: Vec3Fixed { x: 0, y: 1_500, z: 0 },
        camera_offset: Vec3Fixed { x: 0, y: 1_000, z: 0 },
        helper_offset: Vec3Fixed { x: 0, y: 0, z: -1_000 },
    }
}

/// Whether the window has captured the pointer.
#[derive(Clone, Copy, Debug, PartialEq, Eq, Structural)]
pub enum GrabMode {
    Locked,
    Released,
}

/// The window's cursor state.
#[derive(Clone, Copy, Debug, PartialEq, Eq, Structural)]
pub struct WindowState {
    pub grab_mode: GrabMode,
    pub cursor_visible: bool,
}

/// The movement controller's input gate.
#[derive(Clone, Copy, Debug, PartialEq, Eq, Structural)]
pub struct ControllerState {
    pub enable_input: bool,
}

/// Handles one tick of the escape edge. Without an edge, nothing
/// changes. On an edge, pointer capture toggles, cursor visibility
/// follows capture, and every movement controller's input gate is set
/// to the new capture state — capture and input-enable change
/// together, atomically from the caller's perspective.
pub fn manage_cursor(
    window: &mut WindowState,
    controllers: &mut Vec<ControllerState>,
    escape_just_pressed: bool,
)
    ensures
        !escape_just_pressed ==> *final(window) == *old(window) && *final(controllers) == *old(
            controllers,
        ),
        escape_just_pressed ==> final(window).grab_mode == (if old(window).grab_mode
            == GrabMode::Locked {
            GrabMode::Released
        } else {
            GrabMode::Locked
        }),
        escape_just_pressed ==> final(window).cursor_visible == (final(window).grab_mode
            == GrabMode::Released),
        final(controllers)@.len() == old(controllers)@.len(),
        escape_just_pressed ==> forall|i: int|
            0 <= i < final(controllers)@.len() ==> #[trigger] final(controllers)@[i].enable_input
                == (final(window).grab_mode == GrabMode::Locked),
{
    if !escape_just_pressed {
        return ;
    }
    let enable: bool;
    match window.grab_mode {
        GrabMode::Locked => {
            window.grab_mode = GrabMode::Released;
            window.cursor_visible = true;
            enable = false;
        },
        GrabMode::Released => {
            window.grab_mode = GrabMode::Locked;
            window.cursor_visible = false;
            enable = true;
        },
    }
    let mut i: usize = 0;
    while i < controllers.len()
        invariant
            i <= controllers@.len(),
            controllers@.len() == old(controllers)@.len(),
            enable == (window.grab_mode == GrabMode::Locked),
            window.grab_mode == (if old(window).grab_mode == GrabMode::Locked {
                GrabMode::Released
            } else {
                GrabMode::Locked
            }),
            window.cursor_visible == (window.grab_mode == GrabMode::Released),
            forall|j: int|
                0 <= j < i ==> #[trigger] controllers@[j].enable_input == (window.grab_mode
                    == GrabMode::Locked),
        decreases controllers@.len() - i,
    {
        controllers[i] = ControllerState { enable_input: enable };
        i = i + 1;
    }
}

} // verus!
