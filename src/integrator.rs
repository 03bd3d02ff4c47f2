use vstd::prelude::*;

verus! {

/// What the caller does next on a light path.
#[derive(Clone, Copy, Debug, PartialEq, Eq, Structural)]
pub enum PathStep {
    /// Ask the scene for the nearest hit along the current ray.
    Trace,
    /// Stop: the bounce budget is spent and the path contributes black.
    Black,
    /// Stop: the current ray left the scene and the path contributes the
    /// background seen along it.
    Background,
}

/// The bounce bookkeeping of one light path. The caller holds the ray and the
/// attenuations met so far; the path's colour is the colour it ends in,
/// attenuated by each bounce's factor from the last bounce back to the first.
#[derive(Clone, Copy, Debug, PartialEq, Eq, Structural)]
pub struct LightPath {
    /// The bounce budget the path was started with.
    pub max_depth: i32,
    /// The bounces still allowed.
    pub remaining: i32,
    /// The bounces taken so far.
    pub bounces: u32,
}

impl LightPath {
    /// Every bounce taken comes out of the budget, and none is taken once the
    /// budget is spent.
    pub open spec fn wf(&self) -> bool {
        &&& self.bounces as int + self.remaining as int == self.max_depth as int
        &&& self.bounces > 0 ==> self.remaining >= 0
    }

    /// A fresh path with the whole budget before it.
    pub open spec fn start(max_depth: i32) -> LightPath {
        LightPath { max_depth, remaining: max_depth, bounces: 0 }
    }

    /// The step a path takes with the ray it holds now.
    pub open spec fn step_of(&self) -> PathStep {
        if self.remaining <= 0 {
            PathStep::Black
        } else {
            PathStep::Trace
        }
    }

    pub fn new(max_depth: i32) -> (r: LightPath)
        ensures
            r == LightPath::start(max_depth),
            r.wf(),
    {
        LightPath { max_depth, remaining: max_depth, bounces: 0 }
    }

    /// The step to take with the ray the path holds now: trace it while
    /// bounces remain, else end in black.
    pub fn next_step(&self) -> (r: PathStep)
        requires
            self.wf(),
        ensures
            r == self.step_of(),
    {
        if self.remaining <= 0 {
            PathStep::Black
        } else {
            PathStep::Trace
        }
    }

    /// Records the scene's answer to a trace. On a miss the path ends in the
    /// background. On a hit the caller scatters the ray off the hit's material,
    /// one bounce is spent, and the returned step applies to the scattered ray.
    pub fn after_query(&mut self, hit: bool) -> (r: PathStep)
        requires
            old(self).wf(),
            old(self).step_of() == PathStep::Trace,
        ensures
            final(self).wf(),
            !hit ==> r == PathStep::Background && *final(self) == *old(self),
            hit ==> *final(self) == (LightPath {
                remaining: (old(self).remaining - 1) as i32,
                bounces: (old(self).bounces + 1) as u32,
                ..*old(self)
            }) && r == final(self).step_of(),
    {
        if !hit {
            PathStep::Background
        } else {
            self.remaining = self.remaining - 1;
            self.bounces = self.bounces + 1;
            self.next_step()
        }
    }
}

/// A path started with a budget of zero or less ends in black before the scene
/// is asked anything, whatever the ray and the scene.
pub proof fn lemma_spent_budget_is_black(max_depth: i32)
    requires
        max_depth <= 0,
    ensures
        LightPath::start(max_depth).step_of() == PathStep::Black,
{
}

/// A path never takes more bounces than its budget allows.
pub proof fn lemma_bounces_within_budget(p: LightPath)
    requires
        p.wf(),
    ensures
        p.bounces <= if p.max_depth < 0 { 0 } else { p.max_depth as int },
{
}

} // verus!
