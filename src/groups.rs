use vstd::prelude::*;

use crate::buffer::GizmoBuffer;
use crate::compile::{compiled, update_gizmo_meshes, ChannelUpdate, GizmoHandles};

verus! {

/// The key of the group that every application has.
pub const DEFAULT_GIZMO_GROUP: u64 = 0;

/// One registered group: its shared per-frame storage and the handles of its
/// compiled assets.
pub struct GizmoGroup<P, C, H> {
    pub key: u64,
    pub storage: GizmoBuffer<P, C>,
    pub handles: GizmoHandles<H>,
}

/// The registered groups, each key at most once.
pub struct GizmoRegistry<P, C, H> {
    pub groups: Vec<GizmoGroup<P, C, H>>,
}

/// Registering a group: creating its storage and hooks unless it exists.
pub trait AppGizmoBuilder: Sized {
    /// The registry's own invariant.
    spec fn gizmo_groups_wf(&self) -> bool;

    /// The group `group` is registered.
    spec fn has_gizmo_group(&self, group: u64) -> bool;

    /// The group `group` is registered with empty storage and no assets.
    spec fn has_fresh_gizmo_group(&self, group: u64) -> bool;

    /// Registers `group` with empty storage and no assets; does nothing if it
    /// is registered already, so that registering twice is registering once.
    fn init_gizmo_group(&mut self, group: u64)
        requires
            old(self).gizmo_groups_wf(),
        ensures
            final(self).gizmo_groups_wf(),
            final(self).has_gizmo_group(group),
            old(self).has_gizmo_group(group) ==> *final(self) == *old(self),
            !old(self).has_gizmo_group(group) ==> final(self).has_fresh_gizmo_group(group);
}

impl<P, C, H> GizmoRegistry<P, C, H> {
    /// The keys of the registered groups, in order of registration.
    pub open spec fn keys(&self) -> Seq<u64> {
        self.groups@.map_values(|g: GizmoGroup<P, C, H>| g.key)
    }

    /// No key is registered twice.
    pub open spec fn wf(&self) -> bool {
        self.keys().no_duplicates()
    }

    /// `after` differs from `before` only in the group registered under
    /// `key`, whose key stays, and which is related to its former self by
    /// `changed`.
    pub open spec fn only_group_changed(
        before: Self,
        after: Self,
        key: u64,
        changed: spec_fn(GizmoGroup<P, C, H>, GizmoGroup<P, C, H>) -> bool,
    ) -> bool {
        &&& after.groups@.len() == before.groups@.len()
        &&& forall|j: int| 0 <= j < before.groups@.len() ==> {
            let (g0, g1) = (#[trigger] before.groups@[j], after.groups@[j]);
            if g0.key == key {
                g1.key == key && changed(g0, g1)
            } else {
                g1 == g0
            }
        }
    }

    /// What holds of every group registered under `key`.
    pub open spec fn group_satisfies(&self, key: u64, f: spec_fn(GizmoGroup<P, C, H>) -> bool) -> bool {
        forall|j: int| 0 <= j < self.groups@.len() && (#[trigger] self.groups@[j]).key == key ==> f(self.groups@[j])
    }

    /// A registry with no group.
    pub fn new() -> (r: Self)
        ensures
            r.wf(),
            r.keys().len() == 0,
    {
        let r = GizmoRegistry { groups: Vec::new() };
        proof {
            assert(r.keys() =~= Seq::<u64>::empty());
        }
        r
    }

    /// The position of the group registered under `key`, if any.
    pub fn find(&self, key: u64) -> (r: Option<usize>)
        ensures
            r matches Some(i) ==> i < self.groups@.len() && self.groups@[i as int].key == key,
            r is None <==> !self.keys().contains(key),
    {
        let mut i: usize = 0;
        while i < self.groups.len()
            invariant
                i <= self.groups@.len(),
                forall|j: int| 0 <= j < i ==> #[trigger] self.groups@[j].key != key,
            decreases self.groups@.len() - i,
        {
            if self.groups[i].key == key {
                proof {
                    assert(self.keys()[i as int] == key);
                }
                return Some(i);
            }
            i = i + 1;
        }
        proof {
            if self.keys().contains(key) {
                let j = choose|j: int| 0 <= j < self.keys().len() && self.keys()[j] == key;
                assert(self.groups@[j].key == key);
            }
        }
        None
    }

    /// Registers `key` with empty storage and no assets, unless it is
    /// registered already, in which case nothing changes: registering twice is
    /// registering once.
    pub fn register_group(&mut self, key: u64)
        requires
            old(self).wf(),
        ensures
            final(self).wf(),
            final(self).keys().contains(key),
            old(self).keys().contains(key) ==> *final(self) == *old(self),
            !old(self).keys().contains(key) ==> {
                &&& final(self).keys() == old(self).keys().push(key)
                &&& final(self).groups@.drop_last() == old(self).groups@
                &&& final(self).groups@.last().storage.is_empty()
                &&& final(self).groups@.last().handles.list is None
                &&& final(self).groups@.last().handles.strip is None
            },
    {
        if self.find(key).is_some() {
            return;
        }
        let group = GizmoGroup {
            key,
            storage: GizmoBuffer::new(),
            handles: GizmoHandles { list: None, strip: None },
        };
        self.groups.push(group);
        proof {
            assert(self.keys() =~= old(self).keys().push(key));
            assert(self.groups@.drop_last() =~= old(self).groups@);
            assert(self.keys()[self.keys().len() - 1] == key);
            assert forall|a: int, b: int|
                0 <= a < self.keys().len() && 0 <= b < self.keys().len() && a != b
                implies self.keys()[a] != self.keys()[b] by {
                if a < old(self).keys().len() && b < old(self).keys().len() {
                    assert(old(self).keys()[a] != old(self).keys()[b]);
                } else if a < old(self).keys().len() {
                    assert(old(self).keys().contains(old(self).keys()[a]));
                } else {
                    assert(old(self).keys().contains(old(self).keys()[b]));
                }
            }
        }
    }

    /// The flush point: moves everything a producer drew into the shared
    /// storage of group `key` (appended after what is there), leaving the
    /// producer's buffer empty.
    pub fn flush(&mut self, key: u64, buffer: &mut GizmoBuffer<P, C>)
        requires
            old(self).wf(),
            old(self).keys().contains(key),
        ensures
            final(self).wf(),
            final(self).keys() == old(self).keys(),
            final(buffer).is_empty(),
            Self::only_group_changed(
                *old(self),
                *final(self),
                key,
                |g0: GizmoGroup<P, C, H>, g1: GizmoGroup<P, C, H>|
                    g1.handles == g0.handles
                    && g1.storage.list_positions@ == g0.storage.list_positions@ + old(buffer).list_positions@
                    && g1.storage.list_colors@ == g0.storage.list_colors@ + old(buffer).list_colors@
                    && g1.storage.strip_positions@ == g0.storage.strip_positions@ + old(buffer).strip_positions@
                    && g1.storage.strip_colors@ == g0.storage.strip_colors@ + old(buffer).strip_colors@,
            ),
    {
        let i = self.find(key).unwrap();
        proof {
            self.lemma_unique_position(key, i as int);
        }
        buffer.apply(&mut self.groups[i].storage);
        proof {
            assert(self.keys() =~= old(self).keys());
        }
    }

    /// Compiles both channels of group `key` (see `update_gizmo_meshes`),
    /// leaving its storage empty.
    pub fn update_group_meshes(&mut self, key: u64) -> (r: (ChannelUpdate<P, C, H>, ChannelUpdate<P, C, H>))
        requires
            old(self).wf(),
            old(self).keys().contains(key),
        ensures
            final(self).wf(),
            final(self).keys() == old(self).keys(),
            Self::only_group_changed(
                *old(self),
                *final(self),
                key,
                |g0: GizmoGroup<P, C, H>, g1: GizmoGroup<P, C, H>|
                    g1.storage.is_empty()
                    && compiled(
                        g0.handles.list,
                        g0.storage.list_positions@,
                        g0.storage.list_colors@,
                        false,
                        g1.handles.list,
                        r.0,
                    )
                    && compiled(
                        g0.handles.strip,
                        g0.storage.strip_positions@,
                        g0.storage.strip_colors@,
                        true,
                        g1.handles.strip,
                        r.1,
                    ),
            ),
    {
        let i = self.find(key).unwrap();
        proof {
            self.lemma_unique_position(key, i as int);
        }
        let group = &mut self.groups[i];
        let r = update_gizmo_meshes(&mut group.storage, &mut group.handles);
        proof {
            assert(self.keys() =~= old(self).keys());
        }
        r
    }

    /// Records the handle of the asset just created for a channel of group
    /// `key` (the list channel, or the strip channel if `strip`).
    pub fn attach_asset(&mut self, key: u64, strip: bool, handle: H)
        requires
            old(self).wf(),
            old(self).keys().contains(key),
        ensures
            final(self).wf(),
            final(self).keys() == old(self).keys(),
            Self::only_group_changed(
                *old(self),
                *final(self),
                key,
                |g0: GizmoGroup<P, C, H>, g1: GizmoGroup<P, C, H>|
                    g1.storage == g0.storage
                    && if strip {
                        g1.handles.strip == Some(handle) && g1.handles.list == g0.handles.list
                    } else {
                        g1.handles.list == Some(handle) && g1.handles.strip == g0.handles.strip
                    },
            ),
    {
        let i = self.find(key).unwrap();
        proof {
            self.lemma_unique_position(key, i as int);
        }
        let group = &mut self.groups[i];
        if strip {
            group.handles.strip = Some(handle);
        } else {
            group.handles.list = Some(handle);
        }
        proof {
            assert(self.keys() =~= old(self).keys());
        }
    }

    /// Which of group `key`'s assets are submitted for drawing this frame,
    /// as (list, strip): those that exist, and none while the group is
    /// disabled or not registered.
    pub fn extract_gizmo_data(&self, key: u64, enabled: bool) -> (r: (bool, bool))
        requires
            self.wf(),
        ensures
            !self.keys().contains(key) ==> r == (false, false),
            self.group_satisfies(
                key,
                |g: GizmoGroup<P, C, H>|
                    r == (enabled && g.handles.list is Some, enabled && g.handles.strip is Some),
            ),
    {
        match self.find(key) {
            None => {
                proof {
                    assert forall|j: int| 0 <= j < self.groups@.len() implies (#[trigger] self.groups@[j]).key != key by {
                        if self.groups@[j].key == key {
                            assert(self.keys()[j] == key);
                        }
                    }
                }
                (false, false)
            },
            Some(i) => {
                proof {
                    self.lemma_unique_position(key, i as int);
                }
                let group = &self.groups[i];
                (enabled && group.handles.list.is_some(), enabled && group.handles.strip.is_some())
            },
        }
    }

    /// In a well-formed registry, `i` is the only position holding `key`.
    proof fn lemma_unique_position(&self, key: u64, i: int)
        requires
            self.wf(),
            0 <= i < self.groups@.len(),
            self.groups@[i].key == key,
        ensures
            forall|j: int| 0 <= j < self.groups@.len() && (#[trigger] self.groups@[j]).key == key ==> j == i,
    {
        assert forall|j: int| 0 <= j < self.groups@.len() && (#[trigger] self.groups@[j]).key == key implies j == i by {
            assert(self.keys()[j] == self.keys()[i]);
        }
    }
}

impl<P, C, H> AppGizmoBuilder for GizmoRegistry<P, C, H> {
    open spec fn gizmo_groups_wf(&self) -> bool {
        self.wf()
    }

    open spec fn has_gizmo_group(&self, group: u64) -> bool {
        self.keys().contains(group)
    }

    open spec fn has_fresh_gizmo_group(&self, group: u64) -> bool {
        &&& self.keys().contains(group)
        &&& self.group_satisfies(
            group,
            |g: GizmoGroup<P, C, H>| g.storage.is_empty() && g.handles.list is None && g.handles.strip is None,
        )
    }

    fn init_gizmo_group(&mut self, group: u64) {
        self.register_group(group);
        proof {
            if !old(self).keys().contains(group) {
                let last = self.groups@.len() - 1;
                assert(self.groups@[last] == self.groups@.last());
                self.lemma_unique_position(group, last);
            }
        }
    }
}

/// Sets up gizmo drawing: registers the default group.
pub struct GizmoPlugin;

impl GizmoPlugin {
    /// Registers the default group in `app`, keeping every other group.
    pub fn build<P, C, H>(&self, app: &mut GizmoRegistry<P, C, H>)
        requires
            old(app).wf(),
        ensures
            final(app).has_gizmo_group(DEFAULT_GIZMO_GROUP),
            forall|k: u64| old(app).keys().contains(k) ==> #[trigger] final(app).keys().contains(k),
            old(app).keys().contains(DEFAULT_GIZMO_GROUP) ==> *final(app) == *old(app),
    {
        app.register_group(DEFAULT_GIZMO_GROUP);
        proof {
            assert forall|k: u64| old(app).keys().contains(k) implies #[trigger] app.keys().contains(k) by {
                let j = old(app).keys().index_of(k);
                assert(app.keys()[j] == k);
            }
        }
    }
}

} // verus!
