use vstd::prelude::*;

verus! {

/// Width of the offscreen render target at factor 1.
pub const BASE_WIDTH: u32 = 160;

/// Height of the offscreen render target at factor 1.
pub const BASE_HEIGHT: u32 = 90;

/// Factor a fresh configuration starts with (a 1920 by 1080 target).
pub const DEFAULT_FACTOR: u32 = 12;

/// The factor after one signed step: the sum saturates at the bounds of `u32`
/// and is then floored at 1.
pub open spec fn stepped_factor(factor: u32, delta: i32) -> u32 {
    let sum = factor as int + delta as int;
    if sum < 1 {
        1
    } else if sum > u32::MAX as int {
        u32::MAX
    } else {
        sum as u32
    }
}

/// The factor after a sequence of signed steps, applied in order.
pub open spec fn factor_after(factor: u32, deltas: Seq<i32>) -> u32
    decreases deltas.len(),
{
    if deltas.len() == 0 {
        factor
    } else {
        factor_after(stepped_factor(factor, deltas[0]), deltas.drop_first())
    }
}

/// Size of the offscreen render target, a positive multiple of a 16:9 base size.
#[derive(Debug)]
pub struct RenderTextureConfig {
    factor: u32,
}

impl View for RenderTextureConfig {
    type V = u32;

    closed spec fn view(&self) -> u32 {
        self.factor
    }
}

impl RenderTextureConfig {
    #[verifier::type_invariant]
    spec fn inv(&self) -> bool {
        self.factor >= 1
    }

    /// A configuration at the default factor.
    pub fn new() -> (r: Self)
        ensures
            r@ == DEFAULT_FACTOR,
    {
        RenderTextureConfig { factor: DEFAULT_FACTOR }
    }

    /// The current multiple of the base size; never below 1.
    pub fn factor(&self) -> (r: u32)
        ensures
            r == self@,
            r >= 1,
    {
        proof {
            use_type_invariant(self);
        }
        self.factor
    }

    /// Width and height of the offscreen target.
    pub fn render_texture_size(&self) -> (r: (u32, u32))
        requires
            BASE_WIDTH * self@ <= u32::MAX,
        ensures
            r.0 == BASE_WIDTH * self@,
            r.1 == BASE_HEIGHT * self@,
    {
        (BASE_WIDTH * self.factor, BASE_HEIGHT * self.factor)
    }

    /// Moves the factor by `delta`, saturating, and never below 1.
    pub fn update_render_texture_size(&mut self, delta: i32)
        ensures
            final(self)@ == stepped_factor(old(self)@, delta),
            final(self)@ >= 1,
    {
        let sum: i64 = self.factor as i64 + delta as i64;
        let next: u32 = if sum < 1 {
            1
        } else if sum > u32::MAX as i64 {
            u32::MAX
        } else {
            sum as u32
        };
        self.factor = next;
    }
}

impl Default for RenderTextureConfig {
    fn default() -> (r: Self)
        ensures
            r@ == DEFAULT_FACTOR,
    {
        RenderTextureConfig::new()
    }
}

/// However the factor is stepped, by decreases or increases, it stays at least 1.
pub proof fn lemma_factor_never_below_one(factor: u32, deltas: Seq<i32>)
    requires
        factor >= 1,
    ensures
        factor_after(factor, deltas) >= 1,
    decreases deltas.len(),
{
    if deltas.len() > 0 {
        lemma_factor_never_below_one(stepped_factor(factor, deltas[0]), deltas.drop_first());
    }
}

} // verus!
