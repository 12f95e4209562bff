use fps_core::camera::{
    apply_motion, camera_look, CamConfig, CameraEntity, ConfigError, LookWorld, MouseDelta,
};
use fps_core::math::Orientation;

fn level_cam() -> CamConfig {
    CamConfig::default()
}

#[test]
fn default_cam_config() {
    let c = level_cam();
    assert_eq!(c.yaw, 0);
    assert_eq!(c.pitch, 0);
    assert!(!c.invert_camera);
    assert_eq!(c.cam_sensitivity, 500);
}

#[test]
fn single_motion_updates() {
    // invert_camera = false applies a sign factor of -1: a positive
    // delta of 360 at sensitivity 500 moves by 360 * 500 / 180 = 1000
    // thousandths of a degree, downward and leftward.
    let mut c = level_cam();
    apply_motion(&mut c, 360, 360);
    assert_eq!(c.yaw, 359_000);
    assert_eq!(c.pitch, -1_000);
}

#[test]
fn invert_flips_increments() {
    let mut c = level_cam();
    c.invert_camera = true;
    apply_motion(&mut c, 360, 360);
    assert_eq!(c.yaw, 1_000);
    assert_eq!(c.pitch, 1_000);
}

#[test]
fn pitch_clamps_at_upper_bound() {
    let mut c = level_cam();
    c.invert_camera = true;
    // 2_000_000 * 500 / 180 = 5_555_555 thousandths, far past the bound.
    apply_motion(&mut c, 0, 2_000_000);
    assert_eq!(c.pitch, 80_000);
}

#[test]
fn pitch_clamps_at_lower_bound() {
    let mut c = level_cam();
    apply_motion(&mut c, 0, 2_000_000);
    assert_eq!(c.pitch, -85_000);
}

#[test]
fn pitch_stays_clamped_over_any_sequence() {
    let mut c = level_cam();
    let swings = [
        (5_000_000, 5_000_000),
        (-5_000_000, -5_000_000),
        (123, -456),
        (0, i32::MAX),
        (0, i32::MIN),
    ];
    for (dx, dy) in swings {
        apply_motion(&mut c, dx, dy);
        assert!(-85_000 <= c.pitch && c.pitch <= 80_000);
        assert!(c.yaw < 360_000);
    }
}

#[test]
fn yaw_wraps_around_a_full_turn() {
    let mut c = level_cam();
    c.invert_camera = true;
    // 144_000 * 500 / 180 = 400_000 thousandths: past a full turn.
    apply_motion(&mut c, 144_000, 0);
    assert_eq!(c.yaw, 40_000);
    assert_eq!(c.pitch, 0);
}

#[test]
fn camera_look_missing_camera() {
    let mut world = LookWorld {
        camera: None,
        player: Some(Orientation { roll: 0, yaw: 0, pitch: 0 }),
    };
    let motions = vec![MouseDelta { dx: 1, dy: 1 }];
    assert_eq!(camera_look(&mut world, &motions), Err(ConfigError::CameraNotFound));
    assert!(world.camera.is_none());
}

#[test]
fn camera_look_missing_player() {
    let mut world = LookWorld {
        camera: Some(CameraEntity {
            transform: Orientation { roll: 0, yaw: 0, pitch: 0 },
            config: level_cam(),
        }),
        player: None,
    };
    let motions = vec![MouseDelta { dx: 1, dy: 1 }];
    assert_eq!(camera_look(&mut world, &motions), Err(ConfigError::PlayerNotFound));
}

#[test]
fn camera_look_empty_queue_is_noop() {
    let mut world = LookWorld { camera: None, player: None };
    let motions: Vec<MouseDelta> = Vec::new();
    assert_eq!(camera_look(&mut world, &motions), Ok(()));
}

#[test]
fn camera_look_splits_rotation() {
    let mut world = LookWorld {
        camera: Some(CameraEntity {
            transform: Orientation { roll: 7, yaw: 8, pitch: 9 },
            config: level_cam(),
        }),
        player: Some(Orientation { roll: 1, yaw: 2, pitch: 3 }),
    };
    let motions = vec![MouseDelta { dx: 180, dy: 90 }, MouseDelta { dx: 90, dy: 180 }];
    assert_eq!(camera_look(&mut world, &motions), Ok(()));
    let cam = world.camera.unwrap();
    // The camera carries pitch only; the body carries yaw only.
    assert_eq!(cam.config.yaw, 359_250);
    assert_eq!(cam.config.pitch, -750);
    assert_eq!(cam.transform, Orientation { roll: 0, yaw: 0, pitch: -750 });
    assert_eq!(world.player.unwrap(), Orientation { roll: 0, yaw: 359_250, pitch: 0 });
}
