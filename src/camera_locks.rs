use vstd::prelude::*;

verus! {

/// How yaw is tied to the camera's position around the orbit centre.
#[derive(Clone, Copy, Debug, PartialEq, Eq, Structural)]
pub enum LockYawMode {
    /// Yaw follows manual input only.
    Unlocked,
    /// Facing the orbit centre.
    Inwards,
    /// Facing along the orbit, the centre on the left.
    Right,
    /// Facing away from the orbit centre.
    Outwards,
    /// Facing along the orbit, the centre on the right.
    Left,
}

/// Number of yaw lock modes in the cycle.
pub const LOCK_YAW_MODE_COUNT: u8 = 5;

/// Place of a mode in the forward cycle.
pub open spec fn mode_index(m: LockYawMode) -> int {
    match m {
        LockYawMode::Unlocked => 0,
        LockYawMode::Inwards => 1,
        LockYawMode::Right => 2,
        LockYawMode::Outwards => 3,
        LockYawMode::Left => 4,
    }
}

/// The mode at a place of the forward cycle, taken modulo the cycle's length.
pub open spec fn mode_at(i: int) -> LockYawMode {
    let j = i % (LOCK_YAW_MODE_COUNT as int);
    if j == 0 {
        LockYawMode::Unlocked
    } else if j == 1 {
        LockYawMode::Inwards
    } else if j == 2 {
        LockYawMode::Right
    } else if j == 3 {
        LockYawMode::Outwards
    } else {
        LockYawMode::Left
    }
}

/// The next mode in the cycle, or the previous one when `backwards`.
pub open spec fn cycled(m: LockYawMode, backwards: bool) -> LockYawMode {
    if backwards {
        mode_at(mode_index(m) + 4)
    } else {
        mode_at(mode_index(m) + 1)
    }
}

/// The mode after `n` steps in one direction.
pub open spec fn cycled_times(m: LockYawMode, backwards: bool, n: nat) -> LockYawMode
    decreases n,
{
    if n == 0 {
        m
    } else {
        cycled(cycled_times(m, backwards, (n - 1) as nat), backwards)
    }
}

/// Offset added to the bearing of the orbit centre, in quarter turns; none when unlocked.
pub open spec fn yaw_offset_spec(m: LockYawMode) -> Option<i8> {
    match m {
        LockYawMode::Unlocked => None,
        LockYawMode::Inwards => Some(-2i8),
        LockYawMode::Right => Some(-1i8),
        LockYawMode::Outwards => Some(0i8),
        LockYawMode::Left => Some(1i8),
    }
}

impl LockYawMode {
    /// The next mode in the cycle, or the previous one when `backwards`.
    pub fn cycle(self, backwards: bool) -> (r: LockYawMode)
        ensures
            r == cycled(self, backwards),
    {
        if backwards {
            match self {
                LockYawMode::Unlocked => LockYawMode::Left,
                LockYawMode::Inwards => LockYawMode::Unlocked,
                LockYawMode::Right => LockYawMode::Inwards,
                LockYawMode::Outwards => LockYawMode::Right,
                LockYawMode::Left => LockYawMode::Outwards,
            }
        } else {
            match self {
                LockYawMode::Unlocked => LockYawMode::Inwards,
                LockYawMode::Inwards => LockYawMode::Right,
                LockYawMode::Right => LockYawMode::Outwards,
                LockYawMode::Outwards => LockYawMode::Left,
                LockYawMode::Left => LockYawMode::Unlocked,
            }
        }
    }

    /// Quarter turns added to the bearing of the orbit centre; `None` leaves yaw alone.
    pub fn yaw_offset_quarter_turns(self) -> (r: Option<i8>)
        ensures
            r == yaw_offset_spec(self),
    {
        match self {
            LockYawMode::Unlocked => None,
            LockYawMode::Inwards => Some(-2),
            LockYawMode::Right => Some(-1),
            LockYawMode::Outwards => Some(0),
            LockYawMode::Left => Some(1),
        }
    }
}

/// The camera's orientation constraints.
#[derive(Clone, Copy, Debug)]
pub struct CameraLocks {
    pub lock_pitch: bool,
    pub lock_yaw_mode: LockYawMode,
}

impl CameraLocks {
    /// Pitch free, yaw unlocked.
    pub fn new() -> (r: Self)
        ensures
            !r.lock_pitch,
            r.lock_yaw_mode == LockYawMode::Unlocked,
    {
        CameraLocks { lock_pitch: false, lock_yaw_mode: LockYawMode::Unlocked }
    }

    pub fn toggle_lock_pitch(&mut self)
        ensures
            final(self).lock_pitch == !old(self).lock_pitch,
            final(self).lock_yaw_mode == old(self).lock_yaw_mode,
    {
        self.lock_pitch = !self.lock_pitch;
    }

    /// Steps the yaw lock mode one place forward, or back when `backwards`.
    pub fn cycle_lock_yaw_mode(&mut self, backwards: bool)
        ensures
            final(self).lock_yaw_mode == cycled(old(self).lock_yaw_mode, backwards),
            final(self).lock_pitch == old(self).lock_pitch,
    {
        self.lock_yaw_mode = self.lock_yaw_mode.cycle(backwards);
    }
}

impl Default for CameraLocks {
    fn default() -> (r: Self)
        ensures
            !r.lock_pitch,
            r.lock_yaw_mode == LockYawMode::Unlocked,
    {
        CameraLocks::new()
    }
}

/// Stepping the yaw lock mode forward as many times as there are modes returns
/// to the mode one started from; so does stepping backward.
pub proof fn lemma_yaw_lock_cycle_returns(m: LockYawMode, backwards: bool)
    ensures
        cycled_times(m, backwards, LOCK_YAW_MODE_COUNT as nat) == m,
{
    reveal_with_fuel(cycled_times, 6);
}

/// A step backward undoes a step forward, and the other way round.
pub proof fn lemma_yaw_lock_cycle_inverse(m: LockYawMode, backwards: bool)
    ensures
        cycled(cycled(m, backwards), !backwards) == m,
{
}

} // verus!
