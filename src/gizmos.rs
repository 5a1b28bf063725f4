use vstd::prelude::*;

use crate::buffer::GizmoBuffer;

verus! {

/// `n` copies of `c`.
pub open spec fn repeat<C>(c: C, n: nat) -> Seq<C> {
    Seq::new(n, |i: int| c)
}

/// `after` is `before` with `lp`/`lc` appended to the list channel and
/// `sp`/`sc` appended to the strip channel.
pub open spec fn appended<P, C>(
    before: GizmoBuffer<P, C>,
    after: GizmoBuffer<P, C>,
    lp: Seq<P>,
    lc: Seq<C>,
    sp: Seq<P>,
    sc: Seq<C>,
) -> bool {
    &&& after.list_positions@ == before.list_positions@ + lp
    &&& after.list_colors@ == before.list_colors@ + lc
    &&& after.strip_positions@ == before.strip_positions@ + sp
    &&& after.strip_colors@ == before.strip_colors@ + sc
}

/// Appends every element of `src` to `dst`.
fn extend_from<T: Copy>(dst: &mut Vec<T>, src: &Vec<T>)
    ensures
        final(dst)@ == old(dst)@ + src@,
{
    let mut i: usize = 0;
    while i < src.len()
        invariant
            i <= src@.len(),
            dst@ == old(dst)@ + src@.subrange(0, i as int),
        decreases src@.len() - i,
    {
        dst.push(src[i]);
        proof {
            assert(old(dst)@ + src@.subrange(0, i + 1) =~= (old(dst)@ + src@.subrange(0, i as int)).push(src@[i as int]));
        }
        i = i + 1;
    }
    proof {
        assert(src@.subrange(0, src@.len() as int) =~= src@);
    }
}

/// A producer's drawing handle: the group's `enabled` flag as read for this
/// producer, its private buffer, and the restart marker that separates
/// polylines in the strip channel.
pub struct Gizmos<P, C> {
    pub enabled: bool,
    pub buffer: GizmoBuffer<P, C>,
    pub restart_position: P,
    pub restart_color: C,
}

impl<P, C> Gizmos<P, C> {
    /// `after` is what a drawing call that appends the given entries leaves
    /// behind starting from `before`: nothing changes when the group is
    /// disabled.
    pub open spec fn draws(
        before: Self,
        after: Self,
        lp: Seq<P>,
        lc: Seq<C>,
        sp: Seq<P>,
        sc: Seq<C>,
    ) -> bool {
        &&& after.enabled == before.enabled
        &&& after.restart_position == before.restart_position
        &&& after.restart_color == before.restart_color
        &&& if before.enabled {
            appended(before.buffer, after.buffer, lp, lc, sp, sc)
        } else {
            after.buffer == before.buffer
        }
    }

    /// The strip-channel positions of one polyline: its points, then the
    /// restart marker.
    pub open spec fn strip_positions_of(&self, points: Seq<P>) -> Seq<P> {
        points.push(self.restart_position)
    }

    /// The strip-channel colors of one single-colored polyline of `n` points.
    pub open spec fn strip_colors_of(&self, color: C, n: nat) -> Seq<C> {
        repeat(color, n).push(self.restart_color)
    }

}

impl<P: Copy, C: Copy> Gizmos<P, C> {
    /// A drawing handle with an empty buffer.
    pub fn new(enabled: bool, restart_position: P, restart_color: C) -> (r: Self)
        ensures
            r.enabled == enabled,
            r.restart_position == restart_position,
            r.restart_color == restart_color,
            r.buffer.is_empty(),
    {
        Gizmos { enabled, buffer: GizmoBuffer::new(), restart_position, restart_color }
    }

    /// Draws the segment from `start` to `end` in one color.
    pub fn line(&mut self, start: P, end: P, color: C)
        ensures
            Self::draws(
                *old(self),
                *final(self),
                seq![start, end],
                seq![color, color],
                Seq::empty(),
                Seq::empty(),
            ),
            old(self).enabled ==> final(self).buffer.list_positions@.len() == old(self).buffer.list_positions@.len() + 2,
            old(self).enabled ==> final(self).buffer.list_colors@.len() == old(self).buffer.list_colors@.len() + 2,
    {
        if !self.enabled {
            return;
        }
        self.extend_list_positions(&vec![start, end]);
        self.add_list_color(color, 2);
        proof {
            assert(repeat(color, 2) =~= seq![color, color]);
            assert(self.buffer.strip_positions@ =~= old(self).buffer.strip_positions@ + Seq::<P>::empty());
            assert(self.buffer.strip_colors@ =~= old(self).buffer.strip_colors@ + Seq::<C>::empty());
        }
    }

    /// Draws the segment from `start` to `end`, fading from `start_color` to
    /// `end_color`.
    pub fn line_gradient(&mut self, start: P, end: P, start_color: C, end_color: C)
        ensures
            Self::draws(
                *old(self),
                *final(self),
                seq![start, end],
                seq![start_color, end_color],
                Seq::empty(),
                Seq::empty(),
            ),
            old(self).enabled ==> final(self).buffer.list_positions@.len() == old(self).buffer.list_positions@.len() + 2,
            old(self).enabled ==> final(self).buffer.list_colors@.len() == old(self).buffer.list_colors@.len() + 2,
    {
        if !self.enabled {
            return;
        }
        self.extend_list_positions(&vec![start, end]);
        self.extend_list_colors(&vec![start_color, end_color]);
        proof {
            assert(self.buffer.strip_positions@ =~= old(self).buffer.strip_positions@ + Seq::<P>::empty());
            assert(self.buffer.strip_colors@ =~= old(self).buffer.strip_colors@ + Seq::<C>::empty());
        }
    }

    /// Draws a polyline through `positions` in one color. The strip channel
    /// gains the points and one restart marker: `positions.len() + 1` entries.
    pub fn linestrip(&mut self, positions: &Vec<P>, color: C)
        ensures
            Self::draws(
                *old(self),
                *final(self),
                Seq::empty(),
                Seq::empty(),
                old(self).strip_positions_of(positions@),
                old(self).strip_colors_of(color, positions@.len()),
            ),
            old(self).enabled ==> {
                let n = final(self).buffer.strip_positions@.len();
                &&& n == old(self).buffer.strip_positions@.len() + positions@.len() + 1
                &&& final(self).buffer.strip_colors@.len() == old(self).buffer.strip_colors@.len() + positions@.len() + 1
                &&& final(self).buffer.strip_positions@.last() == old(self).restart_position
                &&& final(self).buffer.strip_colors@.last() == old(self).restart_color
            },
    {
        if !self.enabled {
            return;
        }
        self.extend_strip_positions(positions);
        let ghost mid = self.buffer.strip_colors@;
        let mut i: usize = 0;
        while i < positions.len()
            invariant
                i <= positions@.len(),
                self.buffer.strip_colors@ == mid + repeat(color, i as nat),
                self.buffer.strip_positions@ == old(self).buffer.strip_positions@
                    + old(self).strip_positions_of(positions@),
                self.buffer.list_positions@ == old(self).buffer.list_positions@,
                self.buffer.list_colors@ == old(self).buffer.list_colors@,
                self.enabled == old(self).enabled,
                self.restart_position == old(self).restart_position,
                self.restart_color == old(self).restart_color,
                mid == old(self).buffer.strip_colors@,
            decreases positions@.len() - i,
        {
            self.buffer.strip_colors.push(color);
            proof {
                assert(mid + repeat(color, (i + 1) as nat) =~= (mid + repeat(color, i as nat)).push(color));
            }
            i = i + 1;
        }
        self.buffer.strip_colors.push(self.restart_color);
        proof {
            assert(self.buffer.strip_colors@ =~= old(self).buffer.strip_colors@
                + old(self).strip_colors_of(color, positions@.len()));
            assert(self.buffer.list_positions@ =~= old(self).buffer.list_positions@ + Seq::<P>::empty());
            assert(self.buffer.list_colors@ =~= old(self).buffer.list_colors@ + Seq::<C>::empty());
        }
    }

    /// Draws a polyline whose points each carry their own color. The strip
    /// channel gains the points and one restart marker.
    pub fn linestrip_gradient(&mut self, points: &Vec<(P, C)>)
        ensures
            Self::draws(
                *old(self),
                *final(self),
                Seq::empty(),
                Seq::empty(),
                old(self).strip_positions_of(points@.map_values(|pc: (P, C)| pc.0)),
                points@.map_values(|pc: (P, C)| pc.1).push(old(self).restart_color),
            ),
            old(self).enabled ==> {
                &&& final(self).buffer.strip_positions@.len() == old(self).buffer.strip_positions@.len() + points@.len() + 1
                &&& final(self).buffer.strip_colors@.len() == old(self).buffer.strip_colors@.len() + points@.len() + 1
                &&& final(self).buffer.strip_positions@.last() == old(self).restart_position
                &&& final(self).buffer.strip_colors@.last() == old(self).restart_color
            },
    {
        if !self.enabled {
            return;
        }
        let ghost sp0 = self.buffer.strip_positions@;
        let ghost sc0 = self.buffer.strip_colors@;
        let mut i: usize = 0;
        while i < points.len()
            invariant
                i <= points@.len(),
                self.buffer.strip_positions@ == sp0 + points@.subrange(0, i as int).map_values(|pc: (P, C)| pc.0),
                self.buffer.strip_colors@ == sc0 + points@.subrange(0, i as int).map_values(|pc: (P, C)| pc.1),
                self.buffer.list_positions@ == old(self).buffer.list_positions@,
                self.buffer.list_colors@ == old(self).buffer.list_colors@,
                self.enabled == old(self).enabled,
                self.restart_position == old(self).restart_position,
                self.restart_color == old(self).restart_color,
                sp0 == old(self).buffer.strip_positions@,
                sc0 == old(self).buffer.strip_colors@,
            decreases points@.len() - i,
        {
            let (position, color) = points[i];
            self.buffer.strip_positions.push(position);
            self.buffer.strip_colors.push(color);
            proof {
                assert(sp0 + points@.subrange(0, i + 1).map_values(|pc: (P, C)| pc.0)
                    =~= (sp0 + points@.subrange(0, i as int).map_values(|pc: (P, C)| pc.0)).push(position));
                assert(sc0 + points@.subrange(0, i + 1).map_values(|pc: (P, C)| pc.1)
                    =~= (sc0 + points@.subrange(0, i as int).map_values(|pc: (P, C)| pc.1)).push(color));
            }
            i = i + 1;
        }
        self.buffer.strip_positions.push(self.restart_position);
        self.buffer.strip_colors.push(self.restart_color);
        proof {
            assert(points@.subrange(0, points@.len() as int) =~= points@);
            assert(self.buffer.strip_positions@ =~= old(self).buffer.strip_positions@
                + old(self).strip_positions_of(points@.map_values(|pc: (P, C)| pc.0)));
            assert(self.buffer.strip_colors@ =~= old(self).buffer.strip_colors@
                + points@.map_values(|pc: (P, C)| pc.1).push(old(self).restart_color));
            assert(self.buffer.list_positions@ =~= old(self).buffer.list_positions@ + Seq::<P>::empty());
            assert(self.buffer.list_colors@ =~= old(self).buffer.list_colors@ + Seq::<C>::empty());
        }
    }

    /// Draws the outline of a rectangle given its corners in the order
    /// top-left, top-right, bottom-right, bottom-left: a closed polyline of
    /// five points.
    pub fn rect(&mut self, corners: [P; 4], color: C)
        ensures
            Self::draws(
                *old(self),
                *final(self),
                Seq::empty(),
                Seq::empty(),
                old(self).strip_positions_of(seq![corners[0], corners[1], corners[2], corners[3], corners[0]]),
                old(self).strip_colors_of(color, 5),
            ),
    {
        if !self.enabled {
            return;
        }
        let outline = vec![corners[0], corners[1], corners[2], corners[3], corners[0]];
        proof {
            assert(outline@ =~= seq![corners[0], corners[1], corners[2], corners[3], corners[0]]);
        }
        self.linestrip(&outline, color);
    }

    /// Draws the twelve edges of a box given the corners of its front and its
    /// back face (each in rectangle order): both faces as one closed polyline
    /// of ten points, then the four front-to-back edges but the top-left one as
    /// list segments.
    pub fn cuboid(&mut self, front: [P; 4], back: [P; 4], color: C)
        ensures
            Self::draws(
                *old(self),
                *final(self),
                seq![front[1], back[1], front[2], back[2], front[3], back[3]],
                repeat(color, 6),
                old(self).strip_positions_of(
                    seq![front[0], front[1], front[2], front[3], front[0], back[0], back[1], back[2], back[3], back[0]],
                ),
                old(self).strip_colors_of(color, 10),
            ),
    {
        if !self.enabled {
            return;
        }
        let outline = vec![
            front[0], front[1], front[2], front[3], front[0],
            back[0], back[1], back[2], back[3], back[0],
        ];
        self.linestrip(&outline, color);
        let edges = vec![front[1], back[1], front[2], back[2], front[3], back[3]];
        self.extend_list_positions(&edges);
        self.add_list_color(color, 6);
        proof {
            assert(outline@ =~= seq![front[0], front[1], front[2], front[3], front[0], back[0], back[1], back[2], back[3], back[0]]);
            assert(edges@ =~= seq![front[1], back[1], front[2], back[2], front[3], back[3]]);
        }
    }

    fn extend_list_positions(&mut self, positions: &Vec<P>)
        ensures
            final(self).buffer.list_positions@ == old(self).buffer.list_positions@ + positions@,
            final(self).buffer.list_colors@ == old(self).buffer.list_colors@,
            final(self).buffer.strip_positions@ == old(self).buffer.strip_positions@,
            final(self).buffer.strip_colors@ == old(self).buffer.strip_colors@,
            final(self).enabled == old(self).enabled,
            final(self).restart_position == old(self).restart_position,
            final(self).restart_color == old(self).restart_color,
    {
        extend_from(&mut self.buffer.list_positions, positions);
    }

    fn extend_list_colors(&mut self, colors: &Vec<C>)
        ensures
            final(self).buffer.list_colors@ == old(self).buffer.list_colors@ + colors@,
            final(self).buffer.list_positions@ == old(self).buffer.list_positions@,
            final(self).buffer.strip_positions@ == old(self).buffer.strip_positions@,
            final(self).buffer.strip_colors@ == old(self).buffer.strip_colors@,
            final(self).enabled == old(self).enabled,
            final(self).restart_position == old(self).restart_position,
            final(self).restart_color == old(self).restart_color,
    {
        extend_from(&mut self.buffer.list_colors, colors);
    }

    /// Appends `positions` and then the restart marker to the strip positions.
    fn extend_strip_positions(&mut self, positions: &Vec<P>)
        ensures
            final(self).buffer.strip_positions@ == old(self).buffer.strip_positions@
                + old(self).strip_positions_of(positions@),
            final(self).buffer.strip_colors@ == old(self).buffer.strip_colors@,
            final(self).buffer.list_positions@ == old(self).buffer.list_positions@,
            final(self).buffer.list_colors@ == old(self).buffer.list_colors@,
            final(self).enabled == old(self).enabled,
            final(self).restart_position == old(self).restart_position,
            final(self).restart_color == old(self).restart_color,
    {
        extend_from(&mut self.buffer.strip_positions, positions);
        self.buffer.strip_positions.push(self.restart_position);
        proof {
            assert(self.buffer.strip_positions@ =~= old(self).buffer.strip_positions@
                + old(self).strip_positions_of(positions@));
        }
    }

    fn add_list_color(&mut self, color: C, count: usize)
        ensures
            final(self).buffer.list_colors@ == old(self).buffer.list_colors@ + repeat(color, count as nat),
            final(self).buffer.list_positions@ == old(self).buffer.list_positions@,
            final(self).buffer.strip_positions@ == old(self).buffer.strip_positions@,
            final(self).buffer.strip_colors@ == old(self).buffer.strip_colors@,
            final(self).enabled == old(self).enabled,
            final(self).restart_position == old(self).restart_position,
            final(self).restart_color == old(self).restart_color,
    {
        let ghost start = self.buffer.list_colors@;
        let mut i: usize = 0;
        while i < count
            invariant
                i <= count,
                self.buffer.list_colors@ == start + repeat(color, i as nat),
                self.buffer.list_positions@ == old(self).buffer.list_positions@,
                self.buffer.strip_positions@ == old(self).buffer.strip_positions@,
                self.buffer.strip_colors@ == old(self).buffer.strip_colors@,
                self.enabled == old(self).enabled,
                self.restart_position == old(self).restart_position,
                self.restart_color == old(self).restart_color,
                start == old(self).buffer.list_colors@,
            decreases count - i,
        {
            self.buffer.list_colors.push(color);
            proof {
                assert(start + repeat(color, (i + 1) as nat) =~= (start + repeat(color, i as nat)).push(color));
            }
            i = i + 1;
        }
    }
}

/// A drawing step that appends as many colors as positions to each channel
/// keeps every channel's positions and colors the same length. Every drawing
/// call and every builder's `finish` appends such pairs.
pub proof fn lemma_draws_keep_channels_parallel<P: Copy, C: Copy>(
    before: Gizmos<P, C>,
    after: Gizmos<P, C>,
    list_positions: Seq<P>,
    list_colors: Seq<C>,
    strip_positions: Seq<P>,
    strip_colors: Seq<C>,
)
    requires
        before.buffer.wf(),
        list_positions.len() == list_colors.len(),
        strip_positions.len() == strip_colors.len(),
        Gizmos::draws(before, after, list_positions, list_colors, strip_positions, strip_colors),
    ensures
        after.buffer.wf(),
{
}

/// While a group is disabled, no sequence of drawing calls adds anything:
/// a handle that starts disabled and empty stays disabled and empty through
/// every step that a drawing call or a builder's `finish` can take.
pub proof fn lemma_disabled_draws_nothing<P: Copy, C: Copy>(
    states: Seq<Gizmos<P, C>>,
    list_positions: Seq<Seq<P>>,
    list_colors: Seq<Seq<C>>,
    strip_positions: Seq<Seq<P>>,
    strip_colors: Seq<Seq<C>>,
)
    requires
        states.len() >= 1,
        !states[0].enabled,
        states[0].buffer.is_empty(),
        forall|k: int|
            0 <= k < states.len() - 1 ==> Gizmos::draws(
                #[trigger] states[k],
                states[k + 1],
                list_positions[k],
                list_colors[k],
                strip_positions[k],
                strip_colors[k],
            ),
    ensures
        forall|k: int| 0 <= k < states.len() ==> !(#[trigger] states[k]).enabled && states[k].buffer.is_empty(),
    decreases states.len(),
{
    if states.len() > 1 {
        let prefix = states.drop_last();
        assert forall|k: int| 0 <= k < prefix.len() - 1 implies Gizmos::draws(
            #[trigger] prefix[k],
            prefix[k + 1],
            list_positions[k],
            list_colors[k],
            strip_positions[k],
            strip_colors[k],
        ) by {
            assert(prefix[k] == states[k]);
            assert(prefix[k + 1] == states[k + 1]);
        }
        lemma_disabled_draws_nothing(prefix, list_positions, list_colors, strip_positions, strip_colors);
        let last = states.len() - 2;
        assert(prefix[last] == states[last]);
        assert(Gizmos::draws(states[last], states[last + 1], list_positions[last], list_colors[last], strip_positions[last], strip_colors[last]));
        assert forall|k: int| 0 <= k < states.len() implies !(#[trigger] states[k]).enabled && states[k].buffer.is_empty() by {
            if k < prefix.len() {
                assert(prefix[k] == states[k]);
            }
        }
    }
}

} // verus!
