//! A ray and the course of its trace.
//!
//! The caller integrates the path; after every step it reports the new
//! position, and the ray decides how the trace goes on: it has collided with
//! an obstacle, it has diverged, it has used up its steps, or it travels on.

use vstd::prelude::*;
use crate::obstacle::{CollisionPoint, Obstacle, Position};
use crate::space::{horizon_and_limit_always_stop, Space};

verus! {

/// How far the trace of a ray has come.
#[derive(Clone, Copy, Debug, PartialEq, Eq, Structural)]
pub enum Status {
    /// The ray travels on, or has yet to start: it has met nothing so far.
    Stepping,
    /// The ray has met an obstacle.
    Collided(CollisionPoint),
    /// The ray has used up its steps without meeting anything.
    Escaped,
    /// A coordinate of the ray stopped being a finite number.
    Diverged,
}

/// A ray: its last position, the number of steps it has made, and how far its
/// trace has come.
#[derive(Clone, Copy, Debug, PartialEq, Eq, Structural)]
pub struct Ray {
    pub position: Position,
    pub steps: u32,
    pub status: Status,
}

/// One integration step, as the caller reports it.
pub struct Step {
    /// The position after the step; `None` where a coordinate is not finite.
    pub position: Option<Position>,
    /// For each obstacle of the scene, the outcome of the test that its
    /// contact with this step's segment leaves to the caller.
    pub tests: Vec<bool>,
}

impl Ray {
    /// The trace has ended: no step changes the ray any more.
    pub open spec fn is_terminal(self) -> bool {
        !(self.status is Stepping)
    }

    /// The collision that ended the trace, if one did.
    pub open spec fn collision(self) -> Option<CollisionPoint> {
        match self.status {
            Status::Collided(point) => Some(point),
            _ => None,
        }
    }

    /// The ray, escaped if it travels on with no step left of `number_steps`.
    pub open spec fn with_budget(self, number_steps: i32) -> Ray {
        if self.status is Stepping && self.steps >= number_steps {
            Ray { status: Status::Escaped, ..self }
        } else {
            self
        }
    }

    /// The ray after one reported step.
    ///
    /// A ray whose trace has ended, or that has no step left, makes none.
    /// Otherwise the step counts; a position that is not finite makes the ray
    /// diverge where it was; else the ray moves, and collides with the first
    /// obstacle that stops the segment just travelled; else it escapes if
    /// that was its last step.
    pub open spec fn stepped(
        self,
        space: Space,
        number_steps: i32,
        position: Option<Position>,
        tests: Seq<bool>,
    ) -> Ray {
        if self.is_terminal() || self.steps >= number_steps {
            self.with_budget(number_steps)
        } else {
            match position {
                None => Ray {
                    status: Status::Diverged,
                    steps: (self.steps + 1) as u32,
                    position: self.position,
                },
                Some(p) => match space.first_collision(self.position, p, tests) {
                    Some(point) => Ray {
                        position: p,
                        steps: (self.steps + 1) as u32,
                        status: Status::Collided(point),
                    },
                    None => (Ray {
                        position: p,
                        steps: (self.steps + 1) as u32,
                        status: Status::Stepping,
                    }).with_budget(number_steps),
                },
            }
        }
    }

    /// The ray after the steps of `path` from index `i` on, in order.
    pub open spec fn traced_from(self, space: Space, number_steps: i32, path: Seq<Step>, i: int) -> Ray
        decreases path.len() - i,
    {
        if i < 0 || i >= path.len() {
            self.with_budget(number_steps)
        } else {
            self.stepped(space, number_steps, path[i].position, path[i].tests@).traced_from(
                space,
                number_steps,
                path,
                i + 1,
            )
        }
    }

    /// The ray after all the steps of `path`, in order.
    pub open spec fn traced(self, space: Space, number_steps: i32, path: Seq<Step>) -> Ray {
        self.traced_from(space, number_steps, path, 0)
    }

    /// A ray at the origin of the coordinates that has made no step.
    pub fn new() -> (ray: Ray)
        ensures
            ray == (Ray {
                position: Position { radius: 0, polar: 0, altitude: 0 },
                steps: 0,
                status: Status::Stepping,
            }),
    {
        Ray {
            position: Position { radius: 0, polar: 0, altitude: 0 },
            steps: 0,
            status: Status::Stepping,
        }
    }

    /// A ray at `initial_position` that has made no step.
    pub fn new_i(initial_position: &Position) -> (ray: Ray)
        ensures
            ray == (Ray { position: *initial_position, steps: 0, status: Status::Stepping }),
    {
        Ray { position: *initial_position, steps: 0, status: Status::Stepping }
    }

    /// Whether the caller is to integrate another step: the trace has not
    /// ended and fewer than `number_steps` steps were made.
    pub fn wants_step(&self, number_steps: i32) -> (more: bool)
        ensures
            more == (!self.is_terminal() && self.steps < number_steps),
    {
        match self.status {
            Status::Stepping => (self.steps as i64) < (number_steps as i64),
            _ => false,
        }
    }

    /// Takes the report of one integration step, and returns the collision
    /// if the trace has ended on one.
    pub fn next_step(&mut self, space: &Space, number_steps: i32, step: &Step) -> (hit: Option<
        CollisionPoint,
    >)
        ensures
            *final(self) == old(self).stepped(
                *space,
                number_steps,
                step.position,
                step.tests@,
            ),
            hit == final(self).collision(),
    {
        if self.wants_step(number_steps) {
            self.steps = self.steps + 1;
            match step.position {
                None => {
                    self.status = Status::Diverged;
                },
                Some(p) => {
                    let found = space.collide(&self.position, &p, &step.tests);
                    self.position = p;
                    match found {
                        Some(point) => {
                            self.status = Status::Collided(point);
                        },
                        None => {},
                    }
                },
            }
        }
        self.settle_budget(number_steps)
    }

    /// Ends the trace of a ray that travels on with no step left, and returns
    /// the collision if the trace has ended on one.
    fn settle_budget(&mut self, number_steps: i32) -> (hit: Option<CollisionPoint>)
        ensures
            *final(self) == old(self).with_budget(number_steps),
            hit == final(self).collision(),
    {
        match self.status {
            Status::Stepping => {
                if (self.steps as i64) >= (number_steps as i64) {
                    self.status = Status::Escaped;
                }
                None
            },
            Status::Collided(point) => Some(point),
            _ => None,
        }
    }

    /// Traces the ray along `path`: takes its steps in order until the trace
    /// ends, with at most `number_steps` steps in all, and returns the
    /// collision if the trace has ended on one.
    pub fn trace(&mut self, space: &Space, number_steps: i32, path: &Vec<Step>) -> (hit: Option<
        CollisionPoint,
    >)
        ensures
            *final(self) == old(self).traced(*space, number_steps, path@),
            hit == final(self).collision(),
    {
        let mut i: usize = 0;
        while i < path.len() && self.wants_step(number_steps)
            invariant
                i <= path.len(),
                old(self).traced(*space, number_steps, path@) == self.traced_from(
                    *space,
                    number_steps,
                    path@,
                    i as int,
                ),
            decreases path.len() - i,
        {
            let _ = self.next_step(space, number_steps, &path[i]);
            i = i + 1;
        }
        proof {
            if i < path.len() {
                rest_after_end(*self, *space, number_steps, path@, i as int);
            }
        }
        self.settle_budget(number_steps)
    }
}

/// A ray that needs no further step is not changed by the rest of a path,
/// but for the escape of one that travels on with no step left.
proof fn rest_after_end(ray: Ray, space: Space, number_steps: i32, path: Seq<Step>, i: int)
    requires
        ray.is_terminal() || ray.steps >= number_steps,
        0 <= i,
    ensures
        ray.traced_from(space, number_steps, path, i) == ray.with_budget(number_steps),
    decreases path.len() - i,
{
    if i < path.len() {
        rest_after_end(ray.with_budget(number_steps), space, number_steps, path, i + 1);
    }
}

/// Each of the three ends of a trace is final: no step and no path changes a
/// ray that has collided, escaped or diverged.
pub proof fn terminal_is_final(ray: Ray, space: Space, number_steps: i32, path: Seq<Step>)
    requires
        ray.is_terminal(),
    ensures
        ray.traced(space, number_steps, path) == ray,
        forall|position: Option<Position>, tests: Seq<bool>|
            #[trigger] ray.stepped(space, number_steps, position, tests) == ray,
{
    rest_after_end(ray, space, number_steps, path, 0);
}

/// A step adds at most one to the count of steps, and only where the ray had
/// a step left; the position moves only with the count.
pub proof fn step_counts_once(
    ray: Ray,
    space: Space,
    number_steps: i32,
    position: Option<Position>,
    tests: Seq<bool>,
)
    ensures
        ({
            let next = ray.stepped(space, number_steps, position, tests);
            ||| next.steps == ray.steps && next.position == ray.position
            ||| next.steps == ray.steps + 1 && ray.steps < number_steps && !ray.is_terminal()
        }),
        ray.stepped(space, number_steps, position, tests).status is Escaped && !(ray.status
            is Escaped) ==> ray.stepped(space, number_steps, position, tests).steps
            >= number_steps,
{
}

/// Every trace ends: after a path that holds as many steps as the ray had
/// left of `number_steps`, the ray has collided, escaped or diverged, and it
/// has made no more than `number_steps` steps if it had made no more before.
pub proof fn trace_ends_within_budget(ray: Ray, space: Space, number_steps: i32, path: Seq<Step>)
    requires
        path.len() >= number_steps - ray.steps,
    ensures
        ray.traced(space, number_steps, path).is_terminal(),
        ray.steps <= number_steps ==> ray.traced(space, number_steps, path).steps <= number_steps,
{
    trace_ends_from(ray, space, number_steps, path, 0);
}

proof fn trace_ends_from(ray: Ray, space: Space, number_steps: i32, path: Seq<Step>, i: int)
    requires
        0 <= i,
        path.len() - i >= number_steps - ray.steps || ray.is_terminal(),
    ensures
        ray.traced_from(space, number_steps, path, i).is_terminal(),
        ray.steps <= number_steps ==> ray.traced_from(space, number_steps, path, i).steps
            <= number_steps,
    decreases path.len() - i,
{
    if i < path.len() {
        let next = ray.stepped(space, number_steps, path[i].position, path[i].tests@);
        trace_ends_from(next, space, number_steps, path, i + 1);
    }
}

/// No ray travels on from inside the horizon or from beyond the outer limit:
/// in a scene that holds a horizon, a step that ends at or below its radius
/// ends the trace of a travelling ray in a collision, and so does a step that
/// ends at or beyond the radius of an outer limit that the scene holds.
pub proof fn step_across_a_bound_collides(
    ray: Ray,
    space: Space,
    number_steps: i32,
    to: Position,
    tests: Seq<bool>,
    k: int,
)
    requires
        !ray.is_terminal(),
        ray.steps < number_steps,
        0 <= k < space.obstacles@.len(),
    ensures
        space.obstacles@[k] matches Obstacle::BlackHole { r } && to.radius <= r ==> ray.stepped(
            space,
            number_steps,
            Some(to),
            tests,
        ).status is Collided,
        space.obstacles@[k] matches Obstacle::MaxDistance { r } && to.radius >= r ==> ray.stepped(
            space,
            number_steps,
            Some(to),
            tests,
        ).status is Collided,
{
    horizon_and_limit_always_stop(space, ray.position, to, tests, k);
}

/// A ray collides only by a step, with an obstacle of the scene, and the
/// first one in the order of the list that stops the segment of that step.
pub proof fn collision_is_the_first_on_the_last_segment(
    ray: Ray,
    space: Space,
    number_steps: i32,
    position: Option<Position>,
    tests: Seq<bool>,
)
    requires
        !ray.is_terminal(),
    ensures
        ray.stepped(space, number_steps, position, tests).status matches Status::Collided(point)
            ==> position matches Some(to) && space.first_collision(ray.position, to, tests) == Some(
            point,
        ) && ray.stepped(space, number_steps, position, tests).position == to,
        ray.stepped(space, number_steps, position, tests).status is Diverged ==> position is None,
{
}

/// A trace reports a collision exactly where it ended on one, and a ray that
/// diverges or escapes reports none.
pub proof fn collision_iff_collided(ray: Ray)
    ensures
        ray.collision() is Some <==> ray.status is Collided,
        ray.status is Diverged || ray.status is Escaped ==> ray.collision() is None,
{
}

} // verus!
