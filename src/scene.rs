use vstd::prelude::*;
use vstd::arithmetic::div_mod::{lemma_fundamental_div_mod, lemma_mod_multiples_vanish};

verus! {

/// The iteration count after a signed step, saturating at the bounds of `u32`.
pub open spec fn stepped_iterations(n: u32, delta: i32) -> u32 {
    let sum = n as int + delta as int;
    if sum < 0 {
        0
    } else if sum > u32::MAX as int {
        u32::MAX
    } else {
        sum as u32
    }
}

/// The scene index after a signed step, wrapping around modulo the scene count.
pub open spec fn stepped_scene(index: u32, delta: i32, count: u32) -> u32
    recommends
        count > 0,
{
    ((index as int + delta as int) % (count as int)) as u32
}

/// The fractal's iteration count and the selected scene, as handed to the shader.
#[derive(Clone, Copy, Debug)]
pub struct SceneSettings {
    num_iterations: u32,
    scene_index: u32,
    scene_count: u32,
}

impl SceneSettings {
    #[verifier::type_invariant]
    spec fn inv(&self) -> bool {
        self.scene_index < self.scene_count
    }

    pub closed spec fn iterations_spec(&self) -> u32 {
        self.num_iterations
    }

    pub closed spec fn scene_spec(&self) -> u32 {
        self.scene_index
    }

    pub closed spec fn scene_count_spec(&self) -> u32 {
        self.scene_count
    }

    /// Settings over `scene_count` scenes, showing the first one.
    pub fn new(num_iterations: u32, scene_count: u32) -> (r: Self)
        requires
            scene_count > 0,
        ensures
            r.iterations_spec() == num_iterations,
            r.scene_spec() == 0,
            r.scene_count_spec() == scene_count,
    {
        SceneSettings { num_iterations, scene_index: 0, scene_count }
    }

    pub fn num_iterations(&self) -> (r: u32)
        ensures
            r == self.iterations_spec(),
    {
        self.num_iterations
    }

    /// The selected scene; always below the scene count.
    pub fn scene_index(&self) -> (r: u32)
        ensures
            r == self.scene_spec(),
            r < self.scene_count_spec(),
    {
        proof {
            use_type_invariant(self);
        }
        self.scene_index
    }

    pub fn scene_count(&self) -> (r: u32)
        ensures
            r == self.scene_count_spec(),
            r > 0,
    {
        proof {
            use_type_invariant(self);
        }
        self.scene_count
    }

    /// Moves the iteration count by `delta`, saturating.
    pub fn update_num_iterations(&mut self, delta: i32)
        ensures
            final(self).iterations_spec() == stepped_iterations(old(self).iterations_spec(), delta),
            final(self).scene_spec() == old(self).scene_spec(),
            final(self).scene_count_spec() == old(self).scene_count_spec(),
    {
        proof {
            use_type_invariant(&*self);
        }
        let sum: i64 = self.num_iterations as i64 + delta as i64;
        self.num_iterations = if sum < 0 {
            0
        } else if sum > u32::MAX as i64 {
            u32::MAX
        } else {
            sum as u32
        };
    }

    /// Moves the selected scene by `delta`, wrapping around the scene count.
    pub fn update_scene_index(&mut self, delta: i32)
        ensures
            final(self).scene_spec() == stepped_scene(
                old(self).scene_spec(),
                delta,
                old(self).scene_count_spec(),
            ),
            final(self).scene_spec() < final(self).scene_count_spec(),
            final(self).iterations_spec() == old(self).iterations_spec(),
            final(self).scene_count_spec() == old(self).scene_count_spec(),
    {
        proof {
            use_type_invariant(&*self);
        }
        let c: u64 = self.scene_count as u64;
        let i: u64 = self.scene_index as u64;
        let next: u64 = if delta >= 0 {
            (i + delta as u64) % c
        } else {
            let back: u64 = ((0i64 - delta as i64) as u64) % c;
            proof {
                let d = -(delta as int);
                lemma_fundamental_div_mod(d, c as int);
                lemma_mod_multiples_vanish(1 + d / (c as int), i + delta as int, c as int);
                assert(i + c - back == (c as int) * (1 + d / (c as int)) + (i + delta as int))
                    by (nonlinear_arith)
                    requires
                        d == (c as int) * (d / (c as int)) + back,
                        d == -(delta as int),
                ;
            }
            (i + c - back) % c
        };
        self.scene_index = next as u32;
    }
}

} // verus!
