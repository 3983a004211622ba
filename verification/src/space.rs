//! The space that rays travel through: its obstacles, in the order in which
//! they are tested, and the layout of its connection coefficients.

use vstd::prelude::*;
use crate::obstacle::{CollisionPoint, Obstacle, Position};

verus! {

/// The closed forms that the connection coefficients of the exterior solution
/// take in the coordinates time, radius, polar angle, azimuth (numbered 0 to
/// 3). With `h` for one less the horizon radius over the radius, and `h'` for
/// its derivative along the radius:
#[derive(Clone, Copy, Debug, PartialEq, Eq, Structural)]
pub enum Coefficient {
    /// Vanishes everywhere.
    Zero,
    /// `h' / 2h`: time with time and radius.
    TimeRadial,
    /// `c^2 h h' / 2`: radius with time twice.
    RadialTime,
    /// `-h' / 2h`: radius with radius twice.
    RadialRadial,
    /// `-r h`: radius with polar angle twice.
    RadialPolar,
    /// `-r h sin^2`: radius with azimuth twice.
    RadialAzimuth,
    /// `1 / r`: an angle with itself and radius.
    InverseRadius,
    /// `-sin cos`: polar angle with azimuth twice.
    PolarAzimuth,
    /// `cos / sin`: azimuth with polar angle and azimuth.
    Cotangent,
}

/// A scene: the obstacles that every ray is tested against, first listed
/// first tested.
pub struct Space {
    pub obstacles: Vec<Obstacle>,
}

/// The outcome of the caller's test for obstacle `i`; an obstacle without an
/// outcome counts as one whose test failed.
pub open spec fn test_at(tests: Seq<bool>, i: int) -> bool {
    0 <= i < tests.len() && tests[i]
}

/// Whether, and where, obstacle `i` stops the segment.
pub open spec fn stops_at(
    obstacles: Seq<Obstacle>,
    from: Position,
    to: Position,
    tests: Seq<bool>,
    i: int,
) -> Option<crate::fraction::Fraction> {
    obstacles[i].contact(from, to).settled(test_at(tests, i))
}

/// The first obstacle from index `start` on that stops the segment.
pub open spec fn first_from(
    obstacles: Seq<Obstacle>,
    from: Position,
    to: Position,
    tests: Seq<bool>,
    start: int,
) -> Option<CollisionPoint>
    decreases obstacles.len() - start,
{
    if start < 0 || start >= obstacles.len() {
        None
    } else {
        match stops_at(obstacles, from, to, tests, start) {
            Some(at) => Some(CollisionPoint { obstacle: start as usize, at }),
            None => first_from(obstacles, from, to, tests, start + 1),
        }
    }
}

/// The coefficient with upper index `i` and lower indices `j` and `k`.
pub open spec fn coefficient_at(i: int, j: int, k: int) -> Coefficient {
    if i == 0 && ((j == 0 && k == 1) || (j == 1 && k == 0)) {
        Coefficient::TimeRadial
    } else if i == 1 && j == 0 && k == 0 {
        Coefficient::RadialTime
    } else if i == 1 && j == 1 && k == 1 {
        Coefficient::RadialRadial
    } else if i == 1 && j == 2 && k == 2 {
        Coefficient::RadialPolar
    } else if i == 1 && j == 3 && k == 3 {
        Coefficient::RadialAzimuth
    } else if i == 2 && ((j == 1 && k == 2) || (j == 2 && k == 1)) {
        Coefficient::InverseRadius
    } else if i == 2 && j == 3 && k == 3 {
        Coefficient::PolarAzimuth
    } else if i == 3 && ((j == 1 && k == 3) || (j == 3 && k == 1)) {
        Coefficient::InverseRadius
    } else if i == 3 && ((j == 2 && k == 3) || (j == 3 && k == 2)) {
        Coefficient::Cotangent
    } else {
        Coefficient::Zero
    }
}

impl Coefficient {
    /// The form depends on the polar angle, and not on the radius alone.
    pub open spec fn reads_polar(self) -> bool {
        self is RadialAzimuth || self is PolarAzimuth || self is Cotangent
    }

    /// The form grows without bound towards the horizon.
    pub open spec fn singular_at_horizon(self) -> bool {
        self is TimeRadial || self is RadialRadial
    }

    /// The form grows without bound towards the polar axis.
    pub open spec fn singular_at_axis(self) -> bool {
        self is Cotangent
    }

    /// Whether the form grows without bound towards the polar axis: a ray
    /// that comes close to the axis needs shorter steps.
    pub fn diverges_at_axis(&self) -> (d: bool)
        ensures
            d == self.singular_at_axis(),
    {
        match self {
            Coefficient::Cotangent => true,
            _ => false,
        }
    }

    /// Whether the form grows without bound towards the horizon.
    pub fn diverges_at_horizon(&self) -> (d: bool)
        ensures
            d == self.singular_at_horizon(),
    {
        match self {
            Coefficient::TimeRadial => true,
            Coefficient::RadialRadial => true,
            _ => false,
        }
    }
}

impl Space {
    /// The first obstacle of the scene, in the order of the list, that stops
    /// the segment from `from` to `to`, with the place where it does.
    pub open spec fn first_collision(self, from: Position, to: Position, tests: Seq<bool>) -> Option<
        CollisionPoint,
    > {
        first_from(self.obstacles@, from, to, tests, 0)
    }

    /// Tests the segment from `from` to `to` against every obstacle in the
    /// order of the list, and returns the first that stops it.
    ///
    /// `tests[i]` is the outcome of the test that obstacle `i` left to the
    /// caller; it is read only where the obstacle's contact needs one.
    pub fn collide(&self, from: &Position, to: &Position, tests: &Vec<bool>) -> (hit: Option<
        CollisionPoint,
    >)
        ensures
            hit == self.first_collision(*from, *to, tests@),
    {
        let mut i: usize = 0;
        while i < self.obstacles.len()
            invariant
                i <= self.obstacles.len(),
                self.first_collision(*from, *to, tests@) == first_from(
                    self.obstacles@,
                    *from,
                    *to,
                    tests@,
                    i as int,
                ),
            decreases self.obstacles.len() - i,
        {
            let contact = self.obstacles[i].collision(from, to);
            let test: bool = i < tests.len() && tests[i];
            match contact.settle(test) {
                Some(at) => {
                    return Some(CollisionPoint { obstacle: i, at });
                },
                None => {},
            }
            i = i + 1;
        }
        None
    }

    /// The closed form that an update of the connection writes at upper
    /// index `i` and lower indices `j` and `k`, each the number of a
    /// coordinate; `Zero` for an index that names no coordinate.
    pub fn update_christoffel(i: usize, j: usize, k: usize) -> (c: Coefficient)
        ensures
            c == coefficient_at(i as int, j as int, k as int),
    {
        if i == 0 && ((j == 0 && k == 1) || (j == 1 && k == 0)) {
            Coefficient::TimeRadial
        } else if i == 1 && j == k {
            if j == 0 {
                Coefficient::RadialTime
            } else if j == 1 {
                Coefficient::RadialRadial
            } else if j == 2 {
                Coefficient::RadialPolar
            } else if j == 3 {
                Coefficient::RadialAzimuth
            } else {
                Coefficient::Zero
            }
        } else if i == 2 {
            if (j == 1 && k == 2) || (j == 2 && k == 1) {
                Coefficient::InverseRadius
            } else if j == 3 && k == 3 {
                Coefficient::PolarAzimuth
            } else {
                Coefficient::Zero
            }
        } else if i == 3 {
            if (j == 1 && k == 3) || (j == 3 && k == 1) {
                Coefficient::InverseRadius
            } else if (j == 2 && k == 3) || (j == 3 && k == 2) {
                Coefficient::Cotangent
            } else {
                Coefficient::Zero
            }
        } else {
            Coefficient::Zero
        }
    }
}

/// The collision that `first_collision` reports is a collision, and no
/// obstacle listed before it stops the segment; where it reports none, no
/// obstacle of the scene stops the segment.
pub proof fn first_collision_is_first(space: Space, from: Position, to: Position, tests: Seq<bool>)
    ensures
        match space.first_collision(from, to, tests) {
            Some(p) => {
                &&& p.obstacle < space.obstacles@.len()
                &&& stops_at(space.obstacles@, from, to, tests, p.obstacle as int) == Some(p.at)
                &&& forall|j: int|
                    0 <= j < p.obstacle ==> stops_at(space.obstacles@, from, to, tests, j) is None
            },
            None => forall|j: int|
                0 <= j < space.obstacles@.len() ==> stops_at(space.obstacles@, from, to, tests, j)
                    is None,
        },
{
    assert(space.obstacles@.len() == space.obstacles.len());
    first_from_is_first(space.obstacles@, from, to, tests, 0);
}

proof fn first_from_is_first(
    obstacles: Seq<Obstacle>,
    from: Position,
    to: Position,
    tests: Seq<bool>,
    start: int,
)
    requires
        0 <= start <= obstacles.len() <= usize::MAX,
    ensures
        match first_from(obstacles, from, to, tests, start) {
            Some(p) => {
                &&& start <= p.obstacle < obstacles.len()
                &&& stops_at(obstacles, from, to, tests, p.obstacle as int) == Some(p.at)
                &&& forall|j: int|
                    start <= j < p.obstacle ==> stops_at(obstacles, from, to, tests, j) is None
            },
            None => forall|j: int|
                start <= j < obstacles.len() ==> stops_at(obstacles, from, to, tests, j) is None,
        },
    decreases obstacles.len() - start,
{
    if start < obstacles.len() {
        if stops_at(obstacles, from, to, tests, start) is None {
            first_from_is_first(obstacles, from, to, tests, start + 1);
        }
    }
}

/// An obstacle that stops the segment whatever the tests say makes the scene
/// report a collision, with that obstacle or with one listed before it.
pub proof fn stopping_obstacle_is_found(
    space: Space,
    from: Position,
    to: Position,
    tests: Seq<bool>,
    k: int,
)
    requires
        0 <= k < space.obstacles@.len(),
        stops_at(space.obstacles@, from, to, tests, k) is Some,
    ensures
        space.first_collision(from, to, tests) matches Some(p) && p.obstacle <= k,
{
    first_collision_is_first(space, from, to, tests);
}

/// A scene that holds a horizon reports a collision for every segment that
/// ends at or below the horizon's radius, and a scene that holds an outer
/// limit for every segment that ends at or beyond it: whatever else the
/// scene holds, and whatever the tests say.
pub proof fn horizon_and_limit_always_stop(
    space: Space,
    from: Position,
    to: Position,
    tests: Seq<bool>,
    k: int,
)
    requires
        0 <= k < space.obstacles@.len(),
    ensures
        space.obstacles@[k] matches Obstacle::BlackHole { r } && to.radius <= r
            ==> space.first_collision(from, to, tests) is Some,
        space.obstacles@[k] matches Obstacle::MaxDistance { r } && to.radius >= r
            ==> space.first_collision(from, to, tests) is Some,
{
    if stops_at(space.obstacles@, from, to, tests, k) is Some {
        stopping_obstacle_is_found(space, from, to, tests, k);
    }
}

/// The connection is symmetric in its two lower indices.
pub proof fn coefficient_symmetric(i: int, j: int, k: int)
    ensures
        coefficient_at(i, j, k) == coefficient_at(i, k, j),
{
}

/// No coefficient with the polar angle as upper index grows without bound
/// towards the horizon, and only coefficients with the azimuth as upper index
/// grow without bound towards the polar axis.
pub proof fn singular_coefficients(i: int, j: int, k: int)
    ensures
        coefficient_at(i, j, k).singular_at_horizon() ==> i == 0 || i == 1,
        coefficient_at(i, j, k).singular_at_axis() ==> i == 3,
        coefficient_at(i, j, k).reads_polar() ==> (j == 3 || k == 3),
{
}

} // verus!
