use vstd::prelude::*;
use crate::camera_locks::{cycled, CameraLocks};
use crate::held_keys::{HeldKey, HeldKeys};
use crate::input::{after_key_event, apply_key_event, trigger_action, trigger_binding, KeyInput, TriggerAction};
use crate::render_texture_config::{stepped_factor, RenderTextureConfig};
use crate::scene::{stepped_iterations, stepped_scene, SceneSettings};

verus! {

/// Work that a key press leaves to the layer that owns the window, the GPU and
/// the continuous camera and time state.
#[derive(Clone, Copy, Debug, PartialEq, Eq, Structural)]
pub enum KeyEffect {
    ReleaseCursor,
    ResetOrbitSpeed,
    StopTime,
    ReloadPipeline,
    /// The offscreen resolution factor changed: the render target is to be rebuilt.
    RecreateRenderTexture,
}

/// The discrete state that keyboard input drives.
#[derive(Debug)]
pub struct Controls {
    pub held_keys: HeldKeys,
    pub locks: CameraLocks,
    pub scene: SceneSettings,
    pub render_texture: RenderTextureConfig,
}

/// The effect that a press of a key bound to `action` hands out.
pub open spec fn effect_of(action: TriggerAction) -> Option<KeyEffect> {
    match action {
        TriggerAction::ReleaseCursor => Some(KeyEffect::ReleaseCursor),
        TriggerAction::ResetOrbitSpeed => Some(KeyEffect::ResetOrbitSpeed),
        TriggerAction::StopTime => Some(KeyEffect::StopTime),
        TriggerAction::ReloadPipeline => Some(KeyEffect::ReloadPipeline),
        TriggerAction::IncreaseResolution => Some(KeyEffect::RecreateRenderTexture),
        TriggerAction::DecreaseResolution => Some(KeyEffect::RecreateRenderTexture),
        _ => None,
    }
}

impl Controls {
    /// No key held, no lock, the first of `scene_count` scenes at `num_iterations`,
    /// the default render resolution.
    pub fn new(num_iterations: u32, scene_count: u32) -> (r: Self)
        requires
            scene_count > 0,
        ensures
            r.held_keys@ == Set::<HeldKey>::empty(),
            !r.locks.lock_pitch,
            r.locks.lock_yaw_mode == crate::camera_locks::LockYawMode::Unlocked,
            r.scene.iterations_spec() == num_iterations,
            r.scene.scene_spec() == 0,
            r.scene.scene_count_spec() == scene_count,
            r.render_texture@ == crate::render_texture_config::DEFAULT_FACTOR,
    {
        Controls {
            held_keys: HeldKeys::new(),
            locks: CameraLocks::new(),
            scene: SceneSettings::new(num_iterations, scene_count),
            render_texture: RenderTextureConfig::new(),
        }
    }

    /// Handles a press or release of `key`. Held keys follow every transition;
    /// a press of a bound key also performs its action, and the part that is
    /// not this state's to perform comes back as an effect.
    pub fn handle_key(&mut self, key: KeyInput, pressed: bool) -> (r: Option<KeyEffect>)
        ensures
            final(self).held_keys@ == after_key_event(old(self).held_keys@, key, pressed),
            ({
                let action = if pressed {
                    trigger_binding(key)
                } else {
                    None
                };
                let o = *old(self);
                let f = *final(self);
                &&& r == match action {
                    Some(a) => effect_of(a),
                    None => None,
                }
                &&& f.locks.lock_pitch == (o.locks.lock_pitch != (action == Some(
                    TriggerAction::TogglePitchLock,
                )))
                &&& f.locks.lock_yaw_mode == match action {
                    Some(TriggerAction::CycleYawLockForward) => cycled(o.locks.lock_yaw_mode, false),
                    Some(TriggerAction::CycleYawLockBackward) => cycled(o.locks.lock_yaw_mode, true),
                    _ => o.locks.lock_yaw_mode,
                }
                &&& f.scene.iterations_spec() == match action {
                    Some(TriggerAction::IncreaseIterations) => stepped_iterations(
                        o.scene.iterations_spec(),
                        1i32,
                    ),
                    Some(TriggerAction::DecreaseIterations) => stepped_iterations(
                        o.scene.iterations_spec(),
                        -1i32,
                    ),
                    _ => o.scene.iterations_spec(),
                }
                &&& f.scene.scene_spec() == match action {
                    Some(TriggerAction::NextScene) => stepped_scene(
                        o.scene.scene_spec(),
                        1i32,
                        o.scene.scene_count_spec(),
                    ),
                    Some(TriggerAction::PreviousScene) => stepped_scene(
                        o.scene.scene_spec(),
                        -1i32,
                        o.scene.scene_count_spec(),
                    ),
                    _ => o.scene.scene_spec(),
                }
                &&& f.scene.scene_count_spec() == o.scene.scene_count_spec()
                &&& f.render_texture@ == match action {
                    Some(TriggerAction::IncreaseResolution) => stepped_factor(
                        o.render_texture@,
                        1i32,
                    ),
                    Some(TriggerAction::DecreaseResolution) => stepped_factor(
                        o.render_texture@,
                        -1i32,
                    ),
                    _ => o.render_texture@,
                }
            }),
    {
        apply_key_event(&mut self.held_keys, key, pressed);
        if !pressed {
            return None;
        }
        match trigger_action(key) {
            None => None,
            Some(action) => match action {
                TriggerAction::ReleaseCursor => Some(KeyEffect::ReleaseCursor),
                TriggerAction::IncreaseIterations => {
                    self.scene.update_num_iterations(1);
                    None
                },
                TriggerAction::DecreaseIterations => {
                    self.scene.update_num_iterations(-1);
                    None
                },
                TriggerAction::NextScene => {
                    self.scene.update_scene_index(1);
                    None
                },
                TriggerAction::PreviousScene => {
                    self.scene.update_scene_index(-1);
                    None
                },
                TriggerAction::ResetOrbitSpeed => Some(KeyEffect::ResetOrbitSpeed),
                TriggerAction::TogglePitchLock => {
                    self.locks.toggle_lock_pitch();
                    None
                },
                TriggerAction::CycleYawLockForward => {
                    self.locks.cycle_lock_yaw_mode(false);
                    None
                },
                TriggerAction::CycleYawLockBackward => {
                    self.locks.cycle_lock_yaw_mode(true);
                    None
                },
                TriggerAction::StopTime => Some(KeyEffect::StopTime),
                TriggerAction::ReloadPipeline => Some(KeyEffect::ReloadPipeline),
                TriggerAction::IncreaseResolution => {
                    self.render_texture.update_render_texture_size(1);
                    Some(KeyEffect::RecreateRenderTexture)
                },
                TriggerAction::DecreaseResolution => {
                    self.render_texture.update_render_texture_size(-1);
                    Some(KeyEffect::RecreateRenderTexture)
                },
            },
        }
    }
}

} // verus!
