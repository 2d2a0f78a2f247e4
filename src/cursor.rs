use vstd::prelude::*;

verus! {

/// A change of the cursor's grab state that the platform has to carry out.
#[derive(Clone, Copy, Debug, PartialEq, Eq, Structural)]
pub enum GrabChange {
    /// Confine and hide the cursor.
    Grab,
    /// Free and show the cursor.
    Release,
}

/// Whether the cursor is grabbed for look control.
#[derive(Clone, Copy, Debug)]
pub struct CursorGrab {
    pub grabbed: bool,
}

impl CursorGrab {
    /// A free cursor.
    pub fn new() -> (r: Self)
        ensures
            !r.grabbed,
    {
        CursorGrab { grabbed: false }
    }

    /// Asks for the cursor to be grabbed (`grab`) or released. The state takes
    /// the asked value; a change comes back only when it differs from before.
    pub fn request(&mut self, grab: bool) -> (r: Option<GrabChange>)
        ensures
            final(self).grabbed == grab,
            r == if old(self).grabbed == grab {
                None
            } else if grab {
                Some(GrabChange::Grab)
            } else {
                Some(GrabChange::Release)
            },
    {
        if self.grabbed == grab {
            return None;
        }
        self.grabbed = grab;
        if grab {
            Some(GrabChange::Grab)
        } else {
            Some(GrabChange::Release)
        }
    }
}

} // verus!
