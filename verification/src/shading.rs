//! The bounce budget of one traced path.
//!
//! Shading a ray is a walk: while budget is left, the scene is asked whether
//! the current ray hits anything; a miss ends the walk in the background, a
//! hit scatters the ray and spends one unit of budget. The scene query and
//! the scattering are the caller's; [`Walk`] decides what happens next and
//! counts the scatterings, each of which halves the light carried back.

use vstd::prelude::*;

verus! {

/// The recursive definition of shading, reduced to what it decides: the
/// number of scatterings after which a path of budget `depth` reaches the
/// background, or `None` if the budget runs out first. `hits(i)` says whether
/// the `i`-th ray of the path hits the scene; the path's first ray is number
/// `at`.
pub open spec fn escape_depth(depth: int, hits: spec_fn(nat) -> bool, at: nat) -> Option<nat>
    decreases depth,
{
    if depth <= 0 {
        None
    } else if !hits(at) {
        Some(0nat)
    } else {
        match escape_depth(depth - 1, hits, at + 1) {
            Some(k) => Some(k + 1),
            None => None,
        }
    }
}

/// What becomes of the light along one path.
#[derive(Clone, Copy, Debug, PartialEq, Eq, Structural)]
pub enum Outcome {
    /// The budget ran out: the path carries no light.
    Absorbed,
    /// The path left the scene after `bounces` scatterings: it carries the
    /// background's light, halved once for each of them.
    Escaped { bounces: u16 },
}

impl View for Outcome {
    type V = Option<nat>;

    open spec fn view(&self) -> Option<nat> {
        match *self {
            Outcome::Absorbed => None,
            Outcome::Escaped { bounces } => Some(bounces as nat),
        }
    }
}

/// The mathematical content of a [`Walk`].
pub struct WalkView {
    /// Budget left; nothing is left when this is zero or negative.
    pub remaining: int,
    /// Scatterings so far.
    pub bounces: nat,
}

impl WalkView {
    /// Where the walk ends if, from here on, its rays hit as `hits` says,
    /// the next ray being number `at`.
    pub open spec fn fate(self, hits: spec_fn(nat) -> bool, at: nat) -> Option<nat> {
        match escape_depth(self.remaining, hits, at) {
            Some(k) => Some(self.bounces + k),
            None => None,
        }
    }
}

/// A path in progress.
#[derive(Clone, Copy, Debug)]
pub struct Walk {
    remaining: i16,
    bounces: u16,
}

/// What a walk does once the scene has answered.
#[derive(Clone, Copy, Debug)]
pub enum Step {
    /// The walk is over.
    Done(Outcome),
    /// The ray is to be scattered from the hit point, and the walk goes on
    /// with the scattered ray.
    Scatter(Walk),
}

impl View for Walk {
    type V = WalkView;

    closed spec fn view(&self) -> WalkView {
        WalkView { remaining: self.remaining as int, bounces: self.bounces as nat }
    }
}

impl Walk {
    #[verifier::type_invariant]
    spec fn within_budget(self) -> bool {
        self.remaining > 0 ==> self.bounces + self.remaining <= i16::MAX
    }

    /// Starts a path with a budget of `depth` scatterings.
    pub fn new(depth: i16) -> (walk: Walk)
        ensures
            walk@ == (WalkView { remaining: depth as int, bounces: 0 }),
    {
        Walk { remaining: depth, bounces: 0 }
    }

    /// The budget that is left.
    pub fn remaining(&self) -> (n: i16)
        ensures
            n == self@.remaining,
    {
        self.remaining
    }

    /// The scatterings so far.
    pub fn bounces(&self) -> (n: u16)
        ensures
            n == self@.bounces,
    {
        self.bounces
    }

    /// Whether the budget is spent, so that the walk ends absorbed whatever
    /// the scene holds. The scene need not be asked then.
    pub fn exhausted(&self) -> (b: bool)
        ensures
            b <==> self@.remaining <= 0,
    {
        self.remaining <= 0
    }

    /// Takes the walk one step further. `hit` says whether the current ray
    /// hits anything in the scene; it is not looked at when the budget is
    /// spent.
    pub fn step(self, hit: bool) -> (step: Step)
        ensures
            self@.remaining <= 0 ==> step == Step::Done(Outcome::Absorbed),
            self@.remaining > 0 && !hit ==> step == Step::Done(
                Outcome::Escaped { bounces: self@.bounces as u16 },
            ),
            self@.remaining > 0 && hit ==> step is Scatter && step->Scatter_0@ == (WalkView {
                remaining: self@.remaining - 1,
                bounces: self@.bounces + 1,
            }),
    {
        proof {
            use_type_invariant(&self);
        }
        if self.remaining <= 0 {
            Step::Done(Outcome::Absorbed)
        } else if !hit {
            Step::Done(Outcome::Escaped { bounces: self.bounces })
        } else {
            Step::Scatter(Walk { remaining: self.remaining - 1, bounces: self.bounces + 1 })
        }
    }
}

/// One step of a walk agrees with the recursive definition: a walk without
/// budget is absorbed, a miss ends it where it stands, and after a hit its
/// fate is that of the walk one unit poorer and one scattering richer.
pub proof fn lemma_walk_unfolds(walk: WalkView, hits: spec_fn(nat) -> bool, at: nat)
    ensures
        walk.remaining <= 0 ==> walk.fate(hits, at) is None,
        walk.remaining > 0 && !hits(at) ==> walk.fate(hits, at) == Some(walk.bounces),
        walk.remaining > 0 && hits(at) ==> walk.fate(hits, at) == (WalkView {
            remaining: walk.remaining - 1,
            bounces: walk.bounces + 1,
        }).fate(hits, at + 1),
{
}

/// A walk that has just begun ends where the recursive definition says a
/// path of its budget ends.
pub proof fn lemma_new_walk_follows_definition(depth: int, hits: spec_fn(nat) -> bool, at: nat)
    ensures
        (WalkView { remaining: depth, bounces: 0 }).fate(hits, at) == escape_depth(depth, hits, at),
{
}

/// With no budget the path is absorbed, whatever the scene and the ray.
pub proof fn lemma_no_budget_is_absorbed(depth: int, hits: spec_fn(nat) -> bool, at: nat)
    requires
        depth <= 0,
    ensures
        escape_depth(depth, hits, at) is None,
{
}

/// A path reaches the background after `k` scatterings exactly when `k` is
/// within its budget, its first `k` rays hit the scene and the next one
/// misses.
pub proof fn lemma_escape_depth_is_first_miss(
    depth: int,
    hits: spec_fn(nat) -> bool,
    at: nat,
    k: nat,
)
    ensures
        escape_depth(depth, hits, at) == Some(k) <==> {
            &&& k < depth
            &&& !hits(at + k)
            &&& forall|j: nat| j < k ==> #[trigger] hits(at + j)
        },
    decreases depth,
{
    if depth <= 0 {
    } else if !hits(at) {
        if k > 0 {
            assert(!hits(at + 0));
        }
    } else {
        if k == 0 {
        } else {
            lemma_escape_depth_is_first_miss(depth - 1, hits, at + 1, (k - 1) as nat);
            let rest = {
                &&& k - 1 < depth - 1
                &&& !hits(at + 1 + (k - 1) as nat)
                &&& forall|j: nat| j < (k - 1) as nat ==> #[trigger] hits(at + 1 + j)
            };
            let whole = {
                &&& k < depth
                &&& !hits(at + k)
                &&& forall|j: nat| j < k ==> #[trigger] hits(at + j)
            };
            assert(at + 1 + (k - 1) as nat == at + k);
            if rest {
                assert forall|j: nat| j < k implies #[trigger] hits(at + j) by {
                    if j > 0 {
                        assert(hits(at + 1 + (j - 1) as nat));
                        assert(at + 1 + (j - 1) as nat == at + j);
                    } else {
                        assert(at + 0 == at);
                    }
                }
            }
            if whole {
                assert forall|j: nat| j < (k - 1) as nat implies #[trigger] hits(at + 1 + j) by {
                    assert(hits(at + (j + 1) as nat));
                    assert(at + (j + 1) as nat == at + 1 + j);
                }
            }
        }
    }
}

/// A path is absorbed exactly when every ray its budget allows hits the
/// scene; it never scatters more often than its budget.
pub proof fn lemma_absorbed_iff_all_hit(depth: int, hits: spec_fn(nat) -> bool, at: nat)
    ensures
        escape_depth(depth, hits, at) is None <==> forall|j: nat|
            j < depth ==> #[trigger] hits(at + j),
        escape_depth(depth, hits, at) matches Some(k) ==> k < depth,
    decreases depth,
{
    if depth <= 0 {
    } else if !hits(at) {
        assert(!hits(at + 0));
    } else {
        lemma_absorbed_iff_all_hit(depth - 1, hits, at + 1);
        if escape_depth(depth - 1, hits, at + 1) is None {
            assert forall|j: nat| j < depth implies #[trigger] hits(at + j) by {
                if j > 0 {
                    assert(hits(at + 1 + (j - 1) as nat));
                    assert(at + 1 + (j - 1) as nat == at + j);
                } else {
                    assert(at + 0 == at);
                }
            }
        }
        if forall|j: nat| j < depth ==> #[trigger] hits(at + j) {
            assert forall|j: nat| j < depth - 1 implies #[trigger] hits(at + 1 + j) by {
                assert(hits(at + (j + 1) as nat));
                assert(at + (j + 1) as nat == at + 1 + j);
            }
        }
    }
}

} // verus!
