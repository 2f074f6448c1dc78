//! The decisions of the light-transport estimator.
//!
//! A light path is followed backwards from the camera. At each step the ray
//! is tested against every object of the world, and the closest surface
//! farther away than the world's margin is the one that the light came
//! from. From there the path either ends, in the sky or on a light source,
//! or is scattered: mirrored, or sent in a random direction over the surface.
//!
//! The geometry and the arithmetic on colours are the caller's. Here a
//! distance is an integer key that grows with the distance, an object is its
//! index in the world, and a random draw is the answer to the question that
//! was put to it.

use vstd::prelude::*;

verus! {

/// How a pixel is sampled.
#[derive(Copy, Clone, Debug)]
pub struct SampleParams {
    /// The number of samples per pixel.
    pub samples: usize,
    /// The largest number of bounces of one path.
    pub bounce_limit: usize,
}

/// Whether the ray hits object `i` farther away than the margin.
pub open spec fn counts(dists: Seq<Option<u64>>, margin: u64, i: int) -> bool {
    &&& 0 <= i < dists.len()
    &&& dists[i] is Some
    &&& dists[i]->Some_0 > margin
}

/// Whether object `i` is the one that the ray hits first: no object that
/// counts is closer, and of those at the same distance it is the earliest.
pub open spec fn is_closest(dists: Seq<Option<u64>>, margin: u64, i: int) -> bool {
    &&& counts(dists, margin, i)
    &&& forall|j: int| #[trigger]
        counts(dists, margin, j) ==> dists[i]->Some_0 < dists[j]->Some_0 || (dists[i]->Some_0
            == dists[j]->Some_0 && i <= j)
}

/// Finds the surface that the light came from: the closest hit beyond the
/// margin, whatever the order of the objects, or none if the ray leaves the
/// world. `dists[i]` is the distance at which the ray hits object `i`, if it
/// does.
pub fn closest_hit(dists: &Vec<Option<u64>>, margin: u64) -> (hit: Option<usize>)
    ensures
        hit is None ==> forall|j: int| !counts(dists@, margin, j),
        hit matches Some(i) ==> is_closest(dists@, margin, i as int),
{
    let mut best: Option<usize> = None;
    let mut best_dist: u64 = 0;
    let mut k: usize = 0;
    while k < dists.len()
        invariant
            k <= dists.len(),
            best is None ==> forall|j: int| 0 <= j < k ==> !counts(dists@, margin, j),
            best matches Some(i) ==> {
                &&& i < k
                &&& counts(dists@, margin, i as int)
                &&& best_dist == dists@[i as int]->Some_0
                &&& forall|j: int|
                    0 <= j < k && #[trigger] counts(dists@, margin, j) ==> best_dist
                        < dists@[j]->Some_0 || (best_dist == dists@[j]->Some_0 && i <= j)
            },
        decreases dists.len() - k,
    {
        match dists[k] {
            Some(d) => {
                if d > margin {
                    let closer = match best {
                        None => true,
                        Some(_) => best_dist > d,
                    };
                    if closer {
                        best = Some(k);
                        best_dist = d;
                    }
                }
            },
            None => {},
        }
        k += 1;
    }
    best
}

/// The two ways in which a surface scatters light.
#[derive(Clone, Copy, Debug, PartialEq, Eq, Structural)]
pub enum Bounce {
    /// The direction is mirrored about the surface normal.
    Specular,
    /// The direction is drawn over the hemisphere above the surface.
    Diffuse,
}

/// What happens to a path at one step.
#[derive(Clone, Copy, Debug, PartialEq, Eq, Structural)]
pub enum Event {
    /// The ray leaves the world: the light is the ambient radiance.
    Ambient,
    /// The path ends on this object: the light is what the object emits.
    Emission(usize),
    /// The path goes on from this object.
    Scatter(usize, Bounce),
}

/// The event of one step: the sky where nothing is hit, the surface's own
/// light where no bounce is left, and else a bounce, specular if the draw
/// against the surface's reflectivity said so and diffuse if not.
pub open spec fn event_of(hit: Option<usize>, remaining: usize, specular: bool) -> Event {
    match hit {
        None => Event::Ambient,
        Some(i) => if remaining == 0 {
            Event::Emission(i)
        } else if specular {
            Event::Scatter(i, Bounce::Specular)
        } else {
            Event::Scatter(i, Bounce::Diffuse)
        },
    }
}

/// Decides the event of one step.
pub fn next_event(hit: Option<usize>, remaining: usize, specular: bool) -> (event: Event)
    ensures
        event == event_of(hit, remaining, specular),
{
    match hit {
        None => Event::Ambient,
        Some(i) => if remaining == 0 {
            Event::Emission(i)
        } else if specular {
            Event::Scatter(i, Bounce::Specular)
        } else {
            Event::Scatter(i, Bounce::Diffuse)
        },
    }
}

/// With no bounce left a path ends at once: in the sky, or on the first
/// surface it meets, whose own light it takes. Nothing is scattered, so no
/// choice is weighed.
pub proof fn lemma_no_bounce_left(hit: Option<usize>, specular: bool)
    ensures
        !(event_of(hit, 0, specular) is Scatter),
        hit is None ==> event_of(hit, 0, specular) == Event::Ambient,
        hit matches Some(i) ==> event_of(hit, 0, specular) == Event::Emission(i),
        event_of(hit, 0, specular) == event_of(hit, 0, !specular),
{
}

/// One light path: how many bounces it may take, how many it has taken, and
/// whether it has ended.
#[derive(Clone, Copy, Debug)]
pub struct Path {
    pub limit: usize,
    pub depth: usize,
    pub ended: bool,
}

impl Path {
    /// A path never takes more bounces than its limit.
    pub open spec fn wf(&self) -> bool {
        self.depth <= self.limit
    }

    /// The bounces that the path may still take.
    pub open spec fn remaining(&self) -> usize {
        (self.limit - self.depth) as usize
    }

    /// A path that starts at the camera.
    pub fn new(limit: usize) -> (path: Path)
        ensures
            path.wf(),
            path.limit == limit,
            path.depth == 0,
            !path.ended,
    {
        Path { limit, depth: 0, ended: false }
    }

    /// Takes one step: decides the event from what the ray hit and from the
    /// bounces that are left, and counts the bounce if there is one. A path
    /// that is not scattered has ended.
    pub fn extend(&mut self, hit: Option<usize>, specular: bool) -> (event: Event)
        requires
            old(self).wf(),
            !old(self).ended,
        ensures
            final(self).wf(),
            final(self).limit == old(self).limit,
            event == event_of(hit, old(self).remaining(), specular),
            event is Scatter ==> final(self).depth == old(self).depth + 1 && !final(self).ended,
            !(event is Scatter) ==> final(self).depth == old(self).depth && final(self).ended,
    {
        let event = next_event(hit, self.limit - self.depth, specular);
        match event {
            Event::Scatter(_, _) => {
                self.depth = self.depth + 1;
            },
            _ => {
                self.ended = true;
            },
        }
        event
    }
}

} // verus!
