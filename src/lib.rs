//! Navigation and frame-orchestration logic of an interactive fractal viewer:
//! held-key sets, camera lock modes, key bindings and scroll routing, the
//! key-driven control state, cursor grabbing, the offscreen resolution factor,
//! aspect correction, frame timing, the uniform block's wire layout and the
//! reloadable pipeline slot.

pub mod aspect;
pub mod camera_locks;
pub mod controls;
pub mod cursor;
pub mod held_keys;
pub mod input;
pub mod key_state;
pub mod reloadable;
pub mod render_texture_config;
pub mod scene;
pub mod timing;
pub mod uniform_block;
