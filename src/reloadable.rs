use vstd::prelude::*;

verus! {

/// The active generation of a rebuildable resource. A rebuild either replaces
/// it whole or, on failure, leaves it exactly as it was.
#[derive(Debug)]
pub struct Reloadable<T> {
    active: T,
    generation: u64,
}

/// The generation number that follows `g`, wrapping after the largest value.
pub open spec fn next_generation(g: u64) -> u64 {
    if g == u64::MAX {
        0
    } else {
        (g + 1) as u64
    }
}

impl<T> Reloadable<T> {
    pub closed spec fn active_spec(&self) -> T {
        self.active
    }

    pub closed spec fn generation_spec(&self) -> u64 {
        self.generation
    }

    /// Starts with `initial` as generation 0.
    pub fn new(initial: T) -> (r: Self)
        ensures
            r.active_spec() == initial,
            r.generation_spec() == 0,
    {
        Reloadable { active: initial, generation: 0 }
    }

    /// The resource in effect.
    pub fn active(&self) -> (r: &T)
        ensures
            *r == self.active_spec(),
    {
        &self.active
    }

    /// Counts the successful replacements since the start.
    pub fn generation(&self) -> (r: u64)
        ensures
            r == self.generation_spec(),
    {
        self.generation
    }

    /// Takes the outcome of a rebuild: a built resource becomes the active
    /// generation and its number is returned; an error is handed back and the
    /// active generation stays in effect, untouched.
    pub fn commit<E>(&mut self, outcome: Result<T, E>) -> (r: Result<u64, E>)
        ensures
            match outcome {
                Ok(built) => {
                    &&& final(self).active_spec() == built
                    &&& final(self).generation_spec() == next_generation(
                        old(self).generation_spec(),
                    )
                    &&& r == Ok::<u64, E>(final(self).generation_spec())
                },
                Err(e) => {
                    &&& final(self).active_spec() == old(self).active_spec()
                    &&& final(self).generation_spec() == old(self).generation_spec()
                    &&& r == Err::<u64, E>(e)
                },
            },
    {
        match outcome {
            Ok(built) => {
                self.active = built;
                self.generation = self.generation.wrapping_add(1);
                Ok(self.generation)
            },
            Err(e) => Err(e),
        }
    }
}

} // verus!
