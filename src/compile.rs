use vstd::prelude::*;

use crate::buffer::GizmoBuffer;

verus! {

/// A compiled line asset: the points and colors of one channel, and whether
/// they form strips (adjacent pairs) or a list (consecutive pairs).
pub struct LineGizmo<P, C> {
    pub positions: Vec<P>,
    pub colors: Vec<C>,
    pub strip: bool,
}

/// What compiling one channel asks of the asset store. The channel's slot
/// holds the handle of its asset while the channel is drawn.
pub enum ChannelUpdate<P, C, H> {
    /// The channel was and stays empty: nothing to do.
    Unchanged,
    /// The channel became empty: the asset behind this handle is no longer
    /// drawn, and the slot is now empty.
    Release(H),
    /// The asset behind the slot's handle takes these contents in place.
    Overwrite(LineGizmo<P, C>),
    /// A new asset with these contents is to be added, and its handle put in
    /// the slot.
    Create(LineGizmo<P, C>),
}

/// The asset handles of one group: one per topology.
pub struct GizmoHandles<H> {
    pub list: Option<H>,
    pub strip: Option<H>,
}

/// `asset` holds exactly these contents.
pub open spec fn holds<P, C>(asset: LineGizmo<P, C>, positions: Seq<P>, colors: Seq<C>, strip: bool) -> bool {
    &&& asset.positions@ == positions
    &&& asset.colors@ == colors
    &&& asset.strip == strip
}

/// Compiling a channel with contents `positions`/`colors` while its slot is
/// `slot` leaves the slot as `next` and asks for `update`.
pub open spec fn compiled<P, C, H>(
    slot: Option<H>,
    positions: Seq<P>,
    colors: Seq<C>,
    strip: bool,
    next: Option<H>,
    update: ChannelUpdate<P, C, H>,
) -> bool {
    if positions.len() == 0 {
        &&& next is None
        &&& match slot {
            Some(h) => update == ChannelUpdate::<P, C, H>::Release(h),
            None => update is Unchanged,
        }
    } else {
        &&& next == slot
        &&& match update {
            ChannelUpdate::Overwrite(asset) => slot is Some && holds(asset, positions, colors, strip),
            ChannelUpdate::Create(asset) => slot is None && holds(asset, positions, colors, strip),
            _ => false,
        }
    }
}

/// Compiles one channel: moves its contents out (leaving it empty) into the
/// asset update that its slot calls for.
pub fn update_channel<P, C, H>(
    slot: &mut Option<H>,
    positions: &mut Vec<P>,
    colors: &mut Vec<C>,
    strip: bool,
) -> (r: ChannelUpdate<P, C, H>)
    ensures
        compiled(*old(slot), old(positions)@, old(colors)@, strip, *final(slot), r),
        final(positions)@.len() == 0,
        final(colors)@.len() == 0,
{
    let mut taken_positions: Vec<P> = Vec::new();
    std::mem::swap(positions, &mut taken_positions);
    let mut taken_colors: Vec<C> = Vec::new();
    std::mem::swap(colors, &mut taken_colors);
    if taken_positions.len() == 0 {
        match slot.take() {
            Some(h) => ChannelUpdate::Release(h),
            None => ChannelUpdate::Unchanged,
        }
    } else {
        let asset = LineGizmo { positions: taken_positions, colors: taken_colors, strip };
        if slot.is_some() {
            ChannelUpdate::Overwrite(asset)
        } else {
            ChannelUpdate::Create(asset)
        }
    }
}

/// Compiles both channels of a group's storage, leaving it empty: the list
/// channel into a list asset, the strip channel into a strip asset.
pub fn update_gizmo_meshes<P, C, H>(
    storage: &mut GizmoBuffer<P, C>,
    handles: &mut GizmoHandles<H>,
) -> (r: (ChannelUpdate<P, C, H>, ChannelUpdate<P, C, H>))
    ensures
        final(storage).is_empty(),
        compiled(
            old(handles).list,
            old(storage).list_positions@,
            old(storage).list_colors@,
            false,
            final(handles).list,
            r.0,
        ),
        compiled(
            old(handles).strip,
            old(storage).strip_positions@,
            old(storage).strip_colors@,
            true,
            final(handles).strip,
            r.1,
        ),
{
    let list = update_channel(
        &mut handles.list,
        &mut storage.list_positions,
        &mut storage.list_colors,
        false,
    );
    let strip = update_channel(
        &mut handles.strip,
        &mut storage.strip_positions,
        &mut storage.strip_colors,
        true,
    );
    (list, strip)
}

/// Compiling a non-empty channel whose asset already exists keeps the asset's
/// handle, and doing so in two frames with unchanged contents overwrites the
/// same asset with the same contents both times.
pub proof fn lemma_recompile_keeps_handle<P, C, H>(
    h: H,
    positions: Seq<P>,
    colors: Seq<C>,
    strip: bool,
    next1: Option<H>,
    update1: ChannelUpdate<P, C, H>,
    next2: Option<H>,
    update2: ChannelUpdate<P, C, H>,
)
    requires
        positions.len() > 0,
        compiled(Some(h), positions, colors, strip, next1, update1),
        compiled(next1, positions, colors, strip, next2, update2),
    ensures
        next1 == Some(h),
        next2 == Some(h),
        update1 is Overwrite,
        update2 is Overwrite,
        holds(update1->Overwrite_0, positions, colors, strip),
        holds(update2->Overwrite_0, positions, colors, strip),
{
}

/// A channel compiled once more after a new asset was created for it (its
/// handle put in the slot) keeps that handle and overwrites that asset.
pub proof fn lemma_created_then_kept<P, C, H>(
    h: H,
    positions: Seq<P>,
    colors: Seq<C>,
    strip: bool,
    next1: Option<H>,
    update1: ChannelUpdate<P, C, H>,
    next2: Option<H>,
    update2: ChannelUpdate<P, C, H>,
)
    requires
        positions.len() > 0,
        compiled(None, positions, colors, strip, next1, update1),
        compiled(Some(h), positions, colors, strip, next2, update2),
    ensures
        update1 is Create,
        holds(update1->Create_0, positions, colors, strip),
        next2 == Some(h),
        update2 is Overwrite,
        holds(update2->Overwrite_0, positions, colors, strip),
{
}

} // verus!
