//! The decisions of a ray–sphere intersection test.
//!
//! The arithmetic of the test (the quadratic's coefficients, its roots, the
//! surface normal) is the caller's. What the caller learns from it is handed
//! over as [`Relation`]s, and this module decides from them whether the ray
//! hits, at which root, and which way the reported normal points.

use vstd::prelude::*;
use crate::relation::Relation;

verus! {

/// Where a parametric distance lies with respect to the window of distances
/// in which a hit counts.
#[derive(Clone, Copy, Debug, PartialEq, Eq, Structural)]
pub struct Placement {
    /// The distance compared with the window's lower bound.
    pub lower: Relation,
    /// The distance compared with the window's upper bound.
    pub upper: Relation,
}

impl Placement {
    /// The window is open at both ends: a distance equal to a bound is
    /// outside, and so is one that is not a number.
    pub open spec fn inside(self) -> bool {
        self.lower == Relation::Above && self.upper == Relation::Below
    }

    /// Whether the distance lies strictly between the window's bounds.
    pub fn is_inside(&self) -> (b: bool)
        ensures
            b == self.inside(),
    {
        self.lower.is_above() && self.upper.is_below()
    }
}

/// One of the two roots of the intersection quadratic.
#[derive(Clone, Copy, Debug, PartialEq, Eq, Structural)]
pub enum Root {
    /// The root nearer to the ray's origin along its direction.
    Smaller,
    /// The root farther along the ray.
    Larger,
}

/// A sphere can be crossed when its radius is positive and the quadratic has
/// two distinct real roots. `radius` and `discriminant` are each compared
/// with zero. A ray that only touches the sphere (discriminant zero) does
/// not cross it.
pub open spec fn crosses(radius: Relation, discriminant: Relation) -> bool {
    radius == Relation::Above && discriminant == Relation::Above
}

/// The root at which the ray is taken to hit: the smaller one if it lies
/// inside the window, else the larger one if that does, else none.
pub open spec fn accepted_root(
    radius: Relation,
    discriminant: Relation,
    smaller: Placement,
    larger: Placement,
) -> Option<Root> {
    if !crosses(radius, discriminant) {
        None
    } else if smaller.inside() {
        Some(Root::Smaller)
    } else if larger.inside() {
        Some(Root::Larger)
    } else {
        None
    }
}

/// Whether the quadratic is worth solving: the sphere is well formed and the
/// ray passes through it.
pub fn has_crossings(radius: Relation, discriminant: Relation) -> (b: bool)
    ensures
        b == crosses(radius, discriminant),
{
    radius.is_above() && discriminant.is_above()
}

/// Decides at which root, if any, the ray hits the sphere.
///
/// `radius` and `discriminant` are compared with zero; `smaller` and
/// `larger` place the two roots in the hit window. Roots of a quadratic that
/// has none place as `Unordered` and are never accepted.
pub fn select_root(
    radius: Relation,
    discriminant: Relation,
    smaller: Placement,
    larger: Placement,
) -> (choice: Option<Root>)
    ensures
        choice == accepted_root(radius, discriminant, smaller, larger),
        choice is Some <==> crosses(radius, discriminant) && (smaller.inside() || larger.inside()),
        choice == Some(Root::Smaller) ==> smaller.inside(),
        choice == Some(Root::Larger) ==> larger.inside() && !smaller.inside(),
        discriminant != Relation::Above ==> choice is None,
        radius != Relation::Above ==> choice is None,
{
    if !has_crossings(radius, discriminant) {
        None
    } else if smaller.is_inside() {
        Some(Root::Smaller)
    } else if larger.is_inside() {
        Some(Root::Larger)
    } else {
        None
    }
}

/// Which of the two normals at the hit point is reported.
#[derive(Clone, Copy, Debug, PartialEq, Eq, Structural)]
pub enum Normal {
    /// The normal pointing away from the sphere's centre.
    Outward,
    /// The outward normal negated.
    Reversed,
}

/// How a hit is oriented with respect to the incoming ray.
#[derive(Clone, Copy, Debug, PartialEq, Eq, Structural)]
pub struct Facing {
    /// The ray meets the surface from outside.
    pub front_face: bool,
    /// The normal to report, chosen to oppose the ray.
    pub normal: Normal,
}

impl Facing {
    /// The orientation that follows from `alignment`, the dot product of the
    /// ray's direction and the outward normal compared with zero.
    pub open spec fn of(alignment: Relation) -> Facing {
        if alignment == Relation::Below {
            Facing { front_face: true, normal: Normal::Outward }
        } else {
            Facing { front_face: false, normal: Normal::Reversed }
        }
    }

    /// The dot product of the ray's direction and the reported normal,
    /// compared with zero, when that of the direction and the outward normal
    /// is `alignment`. Negating a vector negates its dot products.
    pub open spec fn reported_alignment(self, alignment: Relation) -> Relation {
        match self.normal {
            Normal::Outward => alignment,
            Normal::Reversed => alignment.negated(),
        }
    }
}

/// Classifies a hit as front or back facing and picks the normal to report.
pub fn facing(alignment: Relation) -> (f: Facing)
    ensures
        f == Facing::of(alignment),
        f.front_face <==> alignment == Relation::Below,
        f.normal == Normal::Outward <==> f.front_face,
{
    if alignment.is_below() {
        Facing { front_face: true, normal: Normal::Outward }
    } else {
        Facing { front_face: false, normal: Normal::Reversed }
    }
}

/// The reported normal never points along the ray: whenever the dot product
/// of direction and outward normal is a number, that of direction and
/// reported normal is negative or zero.
pub proof fn lemma_reported_normal_opposes_ray(alignment: Relation)
    requires
        alignment != Relation::Unordered,
    ensures
        Facing::of(alignment).reported_alignment(alignment) == Relation::Below
            || Facing::of(alignment).reported_alignment(alignment) == Relation::Equal,
{
}

/// A ray that touches the sphere in one point, or passes it by, hits
/// nothing, wherever the window lies.
pub proof fn lemma_tangent_or_passing_ray_misses(
    radius: Relation,
    discriminant: Relation,
    smaller: Placement,
    larger: Placement,
)
    requires
        discriminant == Relation::Equal || discriminant == Relation::Below,
    ensures
        accepted_root(radius, discriminant, smaller, larger) is None,
{
}

/// A ray through a well-formed sphere hits it exactly when one of the two
/// roots lies inside the window, and the accepted root is such a root.
pub proof fn lemma_crossing_ray_hits_in_window(smaller: Placement, larger: Placement)
    ensures
        accepted_root(Relation::Above, Relation::Above, smaller, larger) is Some
            <==> smaller.inside() || larger.inside(),
        accepted_root(Relation::Above, Relation::Above, smaller, larger) == Some(Root::Smaller)
            ==> smaller.inside(),
        accepted_root(Relation::Above, Relation::Above, smaller, larger) == Some(Root::Larger)
            ==> larger.inside(),
{
}

} // verus!
