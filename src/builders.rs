use vstd::prelude::*;

use crate::gizmos::Gizmos;

verus! {

/// The number of segments a circle is drawn with unless told otherwise.
pub const DEFAULT_CIRCLE_SEGMENTS: usize = 32;

/// A segment count as used: 0 is taken as 1.
pub open spec fn clamp_segments(segments: usize) -> usize {
    if segments >= 1 {
        segments
    } else {
        1
    }
}

/// `segments`, or 1 if it is 0.
fn at_least_one(segments: usize) -> (r: usize)
    ensures
        r == clamp_segments(segments),
{
    if segments >= 1 {
        segments
    } else {
        1
    }
}

/// A circle waiting to be drawn: the segment count can still be changed, and
/// the circle is encoded once, by `finish`, from the points sampled with that
/// count.
pub struct CircleBuilder<C> {
    pub color: C,
    pub segments: usize,
}

/// A sphere waiting to be drawn as three circles, one per principal axis.
pub struct SphereBuilder<C> {
    pub color: C,
    pub circle_segments: usize,
}

/// A 2D circle waiting to be drawn.
pub struct Circle2dBuilder<C> {
    pub color: C,
    pub segments: usize,
}

/// A 2D arc waiting to be drawn; without an explicit segment count the count
/// is derived from the arc's angle when it is sampled.
pub struct Arc2dBuilder<C> {
    pub color: C,
    pub segments: Option<usize>,
}

impl<P: Copy, C: Copy> Gizmos<P, C> {
    /// Starts a circle with the default segment count.
    pub fn circle(&self, color: C) -> (r: CircleBuilder<C>)
        ensures
            r.color == color,
            r.segments == DEFAULT_CIRCLE_SEGMENTS,
    {
        CircleBuilder { color, segments: DEFAULT_CIRCLE_SEGMENTS }
    }

    /// Starts a sphere whose circles have the default segment count.
    pub fn sphere(&self, color: C) -> (r: SphereBuilder<C>)
        ensures
            r.color == color,
            r.circle_segments == DEFAULT_CIRCLE_SEGMENTS,
    {
        SphereBuilder { color, circle_segments: DEFAULT_CIRCLE_SEGMENTS }
    }

    /// Starts a 2D circle with the default segment count.
    pub fn circle_2d(&self, color: C) -> (r: Circle2dBuilder<C>)
        ensures
            r.color == color,
            r.segments == DEFAULT_CIRCLE_SEGMENTS,
    {
        Circle2dBuilder { color, segments: DEFAULT_CIRCLE_SEGMENTS }
    }

    /// Starts a 2D arc with no explicit segment count.
    pub fn arc_2d(&self, color: C) -> (r: Arc2dBuilder<C>)
        ensures
            r.color == color,
            r.segments is None,
    {
        Arc2dBuilder { color, segments: None }
    }
}

impl<C: Copy> CircleBuilder<C> {
    /// Sets the number of segments; 0 is taken as 1.
    pub fn segments(self, segments: usize) -> (r: Self)
        ensures
            r.color == self.color,
            r.segments == clamp_segments(segments),
            r.segments >= 1,
    {
        CircleBuilder { segments: at_least_one(segments), ..self }
    }

    /// Encodes the circle, sampled as `segments + 1` points, as one polyline.
    /// Whether the group is enabled is read here, once.
    pub fn finish<P: Copy>(self, gizmos: &mut Gizmos<P, C>, positions: &Vec<P>)
        requires
            positions@.len() == self.segments + 1,
        ensures
            Gizmos::draws(
                *old(gizmos),
                *final(gizmos),
                Seq::empty(),
                Seq::empty(),
                old(gizmos).strip_positions_of(positions@),
                old(gizmos).strip_colors_of(self.color, positions@.len()),
            ),
            old(gizmos).enabled ==> {
                &&& final(gizmos).buffer.strip_positions@.len() == old(gizmos).buffer.strip_positions@.len() + positions@.len() + 1
                &&& final(gizmos).buffer.strip_colors@.len() == old(gizmos).buffer.strip_colors@.len() + positions@.len() + 1
            },
            !old(gizmos).enabled ==> final(gizmos).buffer == old(gizmos).buffer,
    {
        gizmos.linestrip(positions, self.color);
    }
}

impl<C: Copy> SphereBuilder<C> {
    /// Sets the number of segments of each of the three circles; 0 is taken
    /// as 1.
    pub fn circle_segments(self, segments: usize) -> (r: Self)
        ensures
            r.color == self.color,
            r.circle_segments == clamp_segments(segments),
            r.circle_segments >= 1,
    {
        SphereBuilder { circle_segments: at_least_one(segments), ..self }
    }

    /// Encodes the three circles (about the x, y and z axis of the sphere's
    /// rotation, each sampled as `circle_segments + 1` points) as three
    /// polylines. Whether the group is enabled is read here, once.
    pub fn finish<P: Copy>(self, gizmos: &mut Gizmos<P, C>, circles: &Vec<Vec<P>>)
        requires
            circles@.len() == 3,
            forall|k: int| 0 <= k < 3 ==> #[trigger] circles@[k]@.len() == self.circle_segments + 1,
        ensures
            Gizmos::draws(
                *old(gizmos),
                *final(gizmos),
                Seq::empty(),
                Seq::empty(),
                old(gizmos).strip_positions_of(circles@[0]@) + old(gizmos).strip_positions_of(circles@[1]@)
                    + old(gizmos).strip_positions_of(circles@[2]@),
                old(gizmos).strip_colors_of(self.color, (self.circle_segments + 1) as nat)
                    + old(gizmos).strip_colors_of(self.color, (self.circle_segments + 1) as nat)
                    + old(gizmos).strip_colors_of(self.color, (self.circle_segments + 1) as nat),
            ),
            old(gizmos).enabled ==> {
                &&& final(gizmos).buffer.strip_positions@.len() == old(gizmos).buffer.strip_positions@.len() + 3 * (self.circle_segments + 2)
                &&& final(gizmos).buffer.strip_colors@.len() == old(gizmos).buffer.strip_colors@.len() + 3 * (self.circle_segments + 2)
            },
            !old(gizmos).enabled ==> final(gizmos).buffer == old(gizmos).buffer,
    {
        if !gizmos.enabled {
            return;
        }
        let ghost g0 = *gizmos;
        let mut k: usize = 0;
        while k < 3
            invariant
                0 <= k <= 3,
                circles@.len() == 3,
                forall|j: int| 0 <= j < 3 ==> #[trigger] circles@[j]@.len() == self.circle_segments + 1,
                g0 == *old(gizmos),
                g0.enabled,
                gizmos.enabled,
                gizmos.restart_position == g0.restart_position,
                gizmos.restart_color == g0.restart_color,
                gizmos.buffer.list_positions@ == g0.buffer.list_positions@,
                gizmos.buffer.list_colors@ == g0.buffer.list_colors@,
                gizmos.buffer.strip_positions@ == g0.buffer.strip_positions@ + Self::circles_positions(g0, circles@, k as int),
                gizmos.buffer.strip_colors@ == g0.buffer.strip_colors@ + Self::circles_colors(g0, self.color, self.circle_segments, k as int),
            decreases 3 - k,
        {
            let circle = CircleBuilder { color: self.color, segments: self.circle_segments };
            circle.finish(gizmos, &circles[k]);
            proof {
                assert(Self::circles_positions(g0, circles@, k + 1)
                    == Self::circles_positions(g0, circles@, k as int) + g0.strip_positions_of(circles@[k as int]@));
            }
            k = k + 1;
        }
        proof {
            let a = g0.strip_positions_of(circles@[0]@);
            let b = g0.strip_positions_of(circles@[1]@);
            let c = g0.strip_positions_of(circles@[2]@);
            assert(Self::circles_positions(g0, circles@, 0) == Seq::<P>::empty());
            assert(Self::circles_positions(g0, circles@, 1) == Seq::<P>::empty() + a);
            assert(Self::circles_positions(g0, circles@, 2) == Seq::<P>::empty() + a + b);
            assert(Self::circles_positions(g0, circles@, 3) == Seq::<P>::empty() + a + b + c);
            assert(Seq::<P>::empty() + a =~= a);
            let d = g0.strip_colors_of(self.color, (self.circle_segments + 1) as nat);
            assert(Self::circles_colors(g0, self.color, self.circle_segments, 0) == Seq::<C>::empty());
            assert(Self::circles_colors(g0, self.color, self.circle_segments, 1) == Seq::<C>::empty() + d);
            assert(Self::circles_colors(g0, self.color, self.circle_segments, 2) == Seq::<C>::empty() + d + d);
            assert(Self::circles_colors(g0, self.color, self.circle_segments, 3) == Seq::<C>::empty() + d + d + d);
            assert(Seq::<C>::empty() + d =~= d);
            assert(Self::circles_positions(g0, circles@, 3) =~= g0.strip_positions_of(circles@[0]@)
                + g0.strip_positions_of(circles@[1]@) + g0.strip_positions_of(circles@[2]@));
            assert(Self::circles_colors(g0, self.color, self.circle_segments, 3) =~= g0.strip_colors_of(self.color, (self.circle_segments + 1) as nat)
                + g0.strip_colors_of(self.color, (self.circle_segments + 1) as nat)
                + g0.strip_colors_of(self.color, (self.circle_segments + 1) as nat));
            assert(gizmos.buffer.list_positions@ =~= g0.buffer.list_positions@ + Seq::<P>::empty());
            assert(gizmos.buffer.list_colors@ =~= g0.buffer.list_colors@ + Seq::<C>::empty());
        }
    }

    /// The strip positions of the first `k` circles.
    pub open spec fn circles_positions<P>(g: Gizmos<P, C>, circles: Seq<Vec<P>>, k: int) -> Seq<P>
        decreases k,
    {
        if k <= 0 {
            Seq::empty()
        } else {
            Self::circles_positions(g, circles, k - 1) + circles[k - 1]@.push(g.restart_position)
        }
    }

    /// The strip colors of the first `k` circles.
    pub open spec fn circles_colors<P>(g: Gizmos<P, C>, color: C, segments: usize, k: int) -> Seq<C>
        decreases k,
    {
        if k <= 0 {
            Seq::empty()
        } else {
            Self::circles_colors(g, color, segments, k - 1) + g.strip_colors_of(color, (segments + 1) as nat)
        }
    }
}

impl<C: Copy> Circle2dBuilder<C> {
    /// Sets the number of segments; 0 is taken as 1.
    pub fn segments(self, segments: usize) -> (r: Self)
        ensures
            r.color == self.color,
            r.segments == clamp_segments(segments),
            r.segments >= 1,
    {
        Circle2dBuilder { segments: at_least_one(segments), ..self }
    }

    /// Encodes the circle, sampled as `segments + 1` points, as one polyline.
    /// Whether the group is enabled is read here, once.
    pub fn finish<P: Copy>(self, gizmos: &mut Gizmos<P, C>, positions: &Vec<P>)
        requires
            positions@.len() == self.segments + 1,
        ensures
            Gizmos::draws(
                *old(gizmos),
                *final(gizmos),
                Seq::empty(),
                Seq::empty(),
                old(gizmos).strip_positions_of(positions@),
                old(gizmos).strip_colors_of(self.color, positions@.len()),
            ),
            old(gizmos).enabled ==> {
                &&& final(gizmos).buffer.strip_positions@.len() == old(gizmos).buffer.strip_positions@.len() + positions@.len() + 1
                &&& final(gizmos).buffer.strip_colors@.len() == old(gizmos).buffer.strip_colors@.len() + positions@.len() + 1
            },
            !old(gizmos).enabled ==> final(gizmos).buffer == old(gizmos).buffer,
    {
        gizmos.linestrip(positions, self.color);
    }
}

impl<C: Copy> Arc2dBuilder<C> {
    /// Sets the number of segments; 0 is taken as 1.
    pub fn segments(self, segments: usize) -> (r: Self)
        ensures
            r.color == self.color,
            r.segments == Some(clamp_segments(segments)),
    {
        Arc2dBuilder { segments: Some(at_least_one(segments)), ..self }
    }

    /// The segment count of this arc when `default_segments` is the count
    /// derived from its angle: the explicit count if set, else the derived
    /// one, and never less than 1.
    pub open spec fn spec_resolved_segments(&self, default_segments: usize) -> usize {
        match self.segments {
            Some(n) => clamp_segments(n),
            None => clamp_segments(default_segments),
        }
    }

    /// The segment count the arc is sampled with: the explicit one if set,
    /// else `default_segments` (the count derived from the arc's angle), and
    /// at least 1 either way.
    pub fn resolved_segments(&self, default_segments: usize) -> (r: usize)
        ensures
            r == self.spec_resolved_segments(default_segments),
            r >= 1,
            self.segments is None ==> r == clamp_segments(default_segments),
    {
        match self.segments {
            Some(n) => at_least_one(n),
            None => at_least_one(default_segments),
        }
    }

    /// Encodes the arc, sampled as `resolved_segments(default_segments) + 1`
    /// points, as one polyline. Whether the group is enabled is read here,
    /// once.
    pub fn finish<P: Copy>(self, gizmos: &mut Gizmos<P, C>, default_segments: usize, positions: &Vec<P>)
        requires
            positions@.len() == self.spec_resolved_segments(default_segments) + 1,
        ensures
            Gizmos::draws(
                *old(gizmos),
                *final(gizmos),
                Seq::empty(),
                Seq::empty(),
                old(gizmos).strip_positions_of(positions@),
                old(gizmos).strip_colors_of(self.color, positions@.len()),
            ),
            old(gizmos).enabled ==> {
                &&& final(gizmos).buffer.strip_positions@.len() == old(gizmos).buffer.strip_positions@.len() + positions@.len() + 1
                &&& final(gizmos).buffer.strip_colors@.len() == old(gizmos).buffer.strip_colors@.len() + positions@.len() + 1
            },
            !old(gizmos).enabled ==> final(gizmos).buffer == old(gizmos).buffer,
    {
        gizmos.linestrip(positions, self.color);
    }
}

} // verus!
