use vstd::prelude::*;

verus! {

/// The four channels that drawing calls fill: independent segments
/// (`list_*`, two entries per segment) and polylines separated by restart
/// markers (`strip_*`). Positions and colors of a channel are parallel arrays.
pub struct GizmoBuffer<P, C> {
    pub list_positions: Vec<P>,
    pub list_colors: Vec<C>,
    pub strip_positions: Vec<P>,
    pub strip_colors: Vec<C>,
}

impl<P, C> GizmoBuffer<P, C> {
    /// Every channel's positions and colors have the same length.
    pub open spec fn wf(&self) -> bool {
        &&& self.list_positions@.len() == self.list_colors@.len()
        &&& self.strip_positions@.len() == self.strip_colors@.len()
    }

    /// All four channels are empty.
    pub open spec fn is_empty(&self) -> bool {
        &&& self.list_positions@.len() == 0
        &&& self.list_colors@.len() == 0
        &&& self.strip_positions@.len() == 0
        &&& self.strip_colors@.len() == 0
    }

    /// An empty buffer.
    pub fn new() -> (r: Self)
        ensures
            r.is_empty(),
            r.wf(),
    {
        GizmoBuffer {
            list_positions: Vec::new(),
            list_colors: Vec::new(),
            strip_positions: Vec::new(),
            strip_colors: Vec::new(),
        }
    }

    /// Moves the contents of every channel of `self` to the end of the
    /// matching channel of `storage`, leaving `self` empty.
    pub fn apply(&mut self, storage: &mut GizmoBuffer<P, C>)
        ensures
            final(self).is_empty(),
            old(self).wf() && old(storage).wf() ==> final(storage).wf(),
            final(storage).list_positions@ == old(storage).list_positions@ + old(self).list_positions@,
            final(storage).list_colors@ == old(storage).list_colors@ + old(self).list_colors@,
            final(storage).strip_positions@ == old(storage).strip_positions@ + old(self).strip_positions@,
            final(storage).strip_colors@ == old(storage).strip_colors@ + old(self).strip_colors@,
    {
        storage.list_positions.append(&mut self.list_positions);
        storage.list_colors.append(&mut self.list_colors);
        storage.strip_positions.append(&mut self.strip_positions);
        storage.strip_colors.append(&mut self.strip_colors);
    }
}

} // verus!
