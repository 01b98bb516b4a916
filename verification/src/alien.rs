//! The alien: it wanders along its lane from one drawn target to the next,
//! and fires whenever its firing plan runs out.
//!
//! Both plans are stamped with the instant they were made at, so where the
//! alien is and whether it fires depend only on the plans and on `now`.

use vstd::prelude::*;
use rand::rngs::StdRng;
use crate::bullet::{Bullet, BulletFactory};
use crate::random::{draw_in_range, draw_ratio};

verus! {

/// A move to a new target takes at least this many milliseconds.
pub const MOVE_MIN_MS: u64 = 300;

/// A move to a new target takes less than this many milliseconds.
pub const MOVE_MAX_MS: u64 = 2000;

/// Milliseconds from the alien's first update to its first shot.
pub const FIRST_DELAY_MS: u64 = 1000;

/// Every later shot comes at least this many milliseconds after the last.
pub const FIRE_MIN_MS: u64 = 200;

/// Every later shot comes less than this many milliseconds after the last.
pub const FIRE_MAX_MS: u64 = 700;

/// One shot in this many is drawn red. The first one never is.
pub const RED_ONE_IN: u32 = 5;

/// Where something is that set out from `start` towards `target`, after
/// `elapsed` of the `duration` the way takes. The part of the way covered
/// is rounded down to whole steps.
pub open spec fn tween(start: i64, target: i64, elapsed: int, duration: int) -> int {
    if target >= start {
        start + ((target - start) * elapsed) / duration
    } else {
        start - ((start - target) * elapsed) / duration
    }
}

/// `at` lies between `a` and `b`, whichever is the larger.
pub open spec fn between(a: int, at: int, b: int) -> bool {
    (a <= at <= b) || (b <= at <= a)
}

/// A tween starts at `start`, and never overshoots its target or turns back
/// behind its start.
pub proof fn lemma_tween_between(start: i64, target: i64, elapsed: int, duration: int)
    requires
        0 <= elapsed < duration,
    ensures
        between(start as int, tween(start, target, elapsed, duration), target as int),
        elapsed == 0 ==> tween(start, target, elapsed, duration) == start,
{
    let gap: int = if target >= start { target - start } else { start - target };
    let covered: int = (gap * elapsed) / duration;
    assert(0 <= covered <= gap && (elapsed == 0 ==> covered == 0)) by (nonlinear_arith)
        requires
            0 <= elapsed < duration,
            0 <= gap,
            covered == (gap * elapsed) / duration,
    ;
}

fn tween_to(start: i64, target: i64, elapsed: u64, duration: u64) -> (at: i64)
    requires
        elapsed < duration,
    ensures
        at == tween(start, target, elapsed as int, duration as int),
{
    proof {
        lemma_tween_between(start, target, elapsed as int, duration as int);
    }
    if target >= start {
        let gap: u128 = (target as i128 - start as i128) as u128;
        assert(gap * elapsed <= u64::MAX * u64::MAX) by (nonlinear_arith)
            requires
                gap <= u64::MAX,
                elapsed <= u64::MAX,
        ;
        let covered: u128 = gap * (elapsed as u128) / (duration as u128);
        (start as i128 + covered as i128) as i64
    } else {
        let gap: u128 = (start as i128 - target as i128) as u128;
        assert(gap * elapsed <= u64::MAX * u64::MAX) by (nonlinear_arith)
            requires
                gap <= u64::MAX,
                elapsed <= u64::MAX,
        ;
        let covered: u128 = gap * (elapsed as u128) / (duration as u128);
        (start as i128 - covered as i128) as i64
    }
}

/// One leg of the alien's wandering.
#[derive(Debug, Copy, Clone, PartialEq, Eq)]
pub struct MovementPlan {
    pub start_pos: (i64, i64),
    pub next_pos: (i64, i64),
    pub plan_made: u64,
    pub duration: u64,
}

impl MovementPlan {
    /// The plan has run its time.
    pub open spec fn over(self, now: u64) -> bool {
        now >= self.plan_made + self.duration
    }

    /// Where the plan puts the alien at `now`: on the straight way from the
    /// start to the target while the plan runs, on the target once it is
    /// over. From the instant the plan was made at, each tween lies between
    /// two coordinates and so is one itself.
    pub open spec fn position_at(self, now: u64) -> (i64, i64) {
        if self.over(now) {
            self.next_pos
        } else {
            (
                tween(
                    self.start_pos.0,
                    self.next_pos.0,
                    now - self.plan_made,
                    self.duration as int,
                ) as i64,
                tween(
                    self.start_pos.1,
                    self.next_pos.1,
                    now - self.plan_made,
                    self.duration as int,
                ) as i64,
            )
        }
    }

    /// Whether the plan has run its time at `now`.
    pub fn is_over(&self, now: u64) -> (over: bool)
        ensures
            over == self.over(now),
    {
        now as u128 >= self.plan_made as u128 + self.duration as u128
    }

    /// Where the plan puts the alien at `now`, an instant that is not
    /// before the plan was made.
    pub fn position(&self, now: u64) -> (pos: (i64, i64))
        requires
            self.plan_made <= now,
        ensures
            pos == self.position_at(now),
    {
        if self.is_over(now) {
            self.next_pos
        } else {
            let elapsed: u64 = now - self.plan_made;
            (
                tween_to(self.start_pos.0, self.next_pos.0, elapsed, self.duration),
                tween_to(self.start_pos.1, self.next_pos.1, elapsed, self.duration),
            )
        }
    }
}

/// When the next shot falls, and of which color it will be.
#[derive(Debug, Copy, Clone, PartialEq, Eq)]
pub struct FiringPlan {
    pub dangerous: bool,
    pub plan_made: u64,
    pub delay: u64,
}

impl FiringPlan {
    /// The delay has passed.
    pub open spec fn over(self, now: u64) -> bool {
        now >= self.plan_made + self.delay
    }

    /// Whether the delay has passed at `now`.
    pub fn is_over(&self, now: u64) -> (over: bool)
        ensures
            over == self.over(now),
    {
        now as u128 >= self.plan_made as u128 + self.delay as u128
    }
}

/// What is drawn for a new movement plan.
#[derive(Debug, Copy, Clone, PartialEq, Eq)]
pub struct MovementDraw {
    pub next_x: i64,
    pub duration: u64,
}

/// What is drawn for a new firing plan.
#[derive(Debug, Copy, Clone, PartialEq, Eq)]
pub struct FiringDraw {
    pub dangerous: bool,
    pub delay: u64,
}

/// The alien, with the plans it follows and the generator it draws its
/// next plans from.
#[derive(Debug)]
pub struct Alien {
    pub pos: (i64, i64),
    pub x_movement_range: (i64, i64),
    pub firing_plan: Option<FiringPlan>,
    pub movement_plan: Option<MovementPlan>,
    pub rng: StdRng,
}

impl Alien {
    /// The lane is not empty, and the target of the movement plan lies in
    /// it.
    pub open spec fn wf(&self) -> bool {
        &&& self.x_movement_range.0 < self.x_movement_range.1
        &&& self.movement_plan matches Some(plan) ==> self.x_movement_range.0 <= plan.next_pos.0
            < self.x_movement_range.1
    }

    /// No plan was made later than `now`.
    pub open spec fn planned_by(&self, now: u64) -> bool {
        &&& self.movement_plan matches Some(plan) ==> plan.plan_made <= now
        &&& self.firing_plan matches Some(plan) ==> plan.plan_made <= now
    }

    /// The alien is as an update at `now` leaves it: where its movement plan
    /// puts it at `now`, with neither plan run out.
    pub open spec fn settled_at(&self, now: u64) -> bool {
        &&& self.planned_by(now)
        &&& self.movement_plan matches Some(plan) ==> !plan.over(now) && self.pos
            == plan.position_at(now)
        &&& self.firing_plan matches Some(plan) ==> !plan.over(now)
    }

    /// The alien is inside its lane, and so is the start of its movement
    /// plan.
    pub open spec fn in_lane(&self) -> bool {
        &&& self.x_movement_range.0 <= self.pos.0 <= self.x_movement_range.1
        &&& self.movement_plan matches Some(plan) ==> self.x_movement_range.0 <= plan.start_pos.0
            <= self.x_movement_range.1
    }

    /// A movement plan has to be made at `now`: there is none yet, or it
    /// is over.
    pub open spec fn movement_due(&self, now: u64) -> bool {
        match self.movement_plan {
            None => true,
            Some(plan) => plan.over(now),
        }
    }

    /// The alien fires at `now`: it has a firing plan, and the delay has
    /// passed.
    pub open spec fn firing_due(&self, now: u64) -> bool {
        self.firing_plan matches Some(plan) && plan.over(now)
    }

    /// Where an update at `now` puts the alien.
    pub open spec fn position_at(&self, now: u64) -> (i64, i64) {
        match self.movement_plan {
            None => self.pos,
            Some(plan) => plan.position_at(now),
        }
    }

    /// The bullet that an update at `now` fires, if it fires one: it starts
    /// where the update puts the alien, and has the color that the firing
    /// plan fixed when it was made.
    pub open spec fn shot<F: BulletFactory>(&self, now: u64, bullet_factory: &F) -> Option<Bullet> {
        match self.firing_plan {
            Some(plan) if plan.over(now) => Some(
                if plan.dangerous {
                    bullet_factory.red(self.position_at(now))
                } else {
                    bullet_factory.green(self.position_at(now))
                },
            ),
            _ => None,
        }
    }

    /// The draws hold what an update at `now` needs, each within its range.
    pub open spec fn accepts(
        &self,
        now: u64,
        movement: Option<MovementDraw>,
        firing: Option<FiringDraw>,
    ) -> bool {
        &&& self.movement_due(now) ==> {
            &&& movement matches Some(draw)
            &&& self.x_movement_range.0 <= draw.next_x < self.x_movement_range.1
            &&& MOVE_MIN_MS <= draw.duration < MOVE_MAX_MS
        }
        &&& self.firing_due(now) ==> {
            &&& firing matches Some(draw)
            &&& FIRE_MIN_MS <= draw.delay < FIRE_MAX_MS
        }
    }

    /// The alien after an update at `now` that makes its new plans, where
    /// any are due, from the given draws.
    pub open spec fn stepped(
        self,
        now: u64,
        movement: Option<MovementDraw>,
        firing: Option<FiringDraw>,
    ) -> Alien {
        let pos = self.position_at(now);
        Alien {
            pos,
            movement_plan: if self.movement_due(now) {
                Some(
                    MovementPlan {
                        start_pos: pos,
                        next_pos: (movement->0.next_x, pos.1),
                        plan_made: now,
                        duration: movement->0.duration,
                    },
                )
            } else {
                self.movement_plan
            },
            firing_plan: match self.firing_plan {
                None => Some(
                    FiringPlan { dangerous: false, plan_made: now, delay: FIRST_DELAY_MS },
                ),
                Some(plan) => if plan.over(now) {
                    Some(
                        FiringPlan {
                            dangerous: firing->0.dangerous,
                            plan_made: now,
                            delay: firing->0.delay,
                        },
                    )
                } else {
                    Some(plan)
                },
            },
            ..self
        }
    }

    /// What holds of the alien after an update at `now`, whatever was
    /// drawn: where it is; that a movement plan which was due starts there
    /// at `now`, aims at a point of the lane at the same height and lasts
    /// from 300 to 2000 ms; that the first firing plan is green and lasts
    /// 1000 ms, and one which follows a shot lasts from 200 to 700 ms; and
    /// that a plan which was not due is kept.
    pub open spec fn updated(&self, after: &Alien, now: u64) -> bool {
        &&& after.pos == self.position_at(now)
        &&& after.x_movement_range == self.x_movement_range
        &&& if self.movement_due(now) {
            &&& after.movement_plan matches Some(plan)
            &&& plan.start_pos == after.pos
            &&& plan.next_pos.1 == after.pos.1
            &&& self.x_movement_range.0 <= plan.next_pos.0 < self.x_movement_range.1
            &&& plan.plan_made == now
            &&& MOVE_MIN_MS <= plan.duration < MOVE_MAX_MS
        } else {
            after.movement_plan == self.movement_plan
        }
        &&& match self.firing_plan {
            None => after.firing_plan == Some(
                FiringPlan { dangerous: false, plan_made: now, delay: FIRST_DELAY_MS },
            ),
            Some(plan) => if plan.over(now) {
                &&& after.firing_plan matches Some(next)
                &&& next.plan_made == now
                &&& FIRE_MIN_MS <= next.delay < FIRE_MAX_MS
            } else {
                after.firing_plan == self.firing_plan
            },
        }
    }

    /// Where the alien is.
    pub fn pos(&self) -> (pos: (i64, i64))
        ensures
            pos == self.pos,
    {
        self.pos
    }

    /// An alien at `pos` that has made no plan yet. It will wander between
    /// the two ends of `x_movement_range` and draw from `rng`.
    pub fn starting_at(pos: (i64, i64), x_movement_range: (i64, i64), rng: StdRng) -> (alien: Alien)
        requires
            x_movement_range.0 < x_movement_range.1,
        ensures
            alien.pos == pos,
            alien.x_movement_range == x_movement_range,
            alien.movement_plan is None,
            alien.firing_plan is None,
            alien.rng == rng,
            alien.wf(),
            forall|now: u64| alien.settled_at(now),
    {
        Alien { pos, x_movement_range, rng, movement_plan: None, firing_plan: None }
    }

    /// Whether the alien fires in an update at `now`: it has a firing plan,
    /// and the delay has passed.
    pub fn will_fire(&self, now: u64) -> (fires: bool)
        ensures
            fires == self.firing_due(now),
    {
        match self.firing_plan {
            Some(plan) => plan.is_over(now),
            None => false,
        }
    }

    /// Whether the shot that the alien plans falls within `lookahead`
    /// milliseconds of `now`. The plan is left as it is.
    pub fn about_to_fire(&self, now: u64, lookahead: u64) -> (fires: bool)
        ensures
            fires == (self.firing_plan matches Some(plan) && plan.plan_made + plan.delay <= now
                + lookahead),
    {
        match self.firing_plan {
            Some(plan) => plan.plan_made as u128 + plan.delay as u128 <= now as u128
                + lookahead as u128,
            None => false,
        }
    }

    /// Whether an update at `now` makes a new movement plan.
    pub fn is_movement_due(&self, now: u64) -> (due: bool)
        ensures
            due == self.movement_due(now),
    {
        match self.movement_plan {
            None => true,
            Some(plan) => plan.is_over(now),
        }
    }

    /// Whether the lane is not empty and holds the movement plan's target.
    pub fn is_wf(&self) -> (ok: bool)
        ensures
            ok == self.wf(),
    {
        let (min_x, max_x) = self.x_movement_range;
        min_x < max_x && match self.movement_plan {
            None => true,
            Some(plan) => min_x <= plan.next_pos.0 && plan.next_pos.0 < max_x,
        }
    }

    /// Whether the alien is as an update at `now` leaves it.
    pub fn is_settled_at(&self, now: u64) -> (ok: bool)
        ensures
            ok == self.settled_at(now),
    {
        let moving = match self.movement_plan {
            None => true,
            Some(plan) => {
                if plan.plan_made <= now && !plan.is_over(now) {
                    let pos = plan.position(now);
                    pos.0 == self.pos.0 && pos.1 == self.pos.1
                } else {
                    false
                }
            },
        };
        let firing = match self.firing_plan {
            None => true,
            Some(plan) => plan.plan_made <= now && !plan.is_over(now),
        };
        moving && firing
    }

    /// Whether the alien and the start of its movement plan are inside the
    /// lane.
    pub fn is_in_lane(&self) -> (ok: bool)
        ensures
            ok == self.in_lane(),
    {
        let (min_x, max_x) = self.x_movement_range;
        min_x <= self.pos.0 && self.pos.0 <= max_x && match self.movement_plan {
            None => true,
            Some(plan) => min_x <= plan.start_pos.0 && plan.start_pos.0 <= max_x,
        }
    }

    /// One update at `now`, with the draws handed in: moves the alien along
    /// its movement plan, makes the plans that are due, and fires if the
    /// firing plan has run out. A draw for a plan that is not due is
    /// ignored.
    pub fn step(
        &mut self,
        now: u64,
        movement: Option<MovementDraw>,
        firing: Option<FiringDraw>,
        bullet_factory: &mut impl BulletFactory,
    ) -> (fired: Option<Bullet>)
        requires
            old(self).wf(),
            old(self).planned_by(now),
            old(self).accepts(now, movement, firing),
        ensures
            *final(self) == old(self).stepped(now, movement, firing),
            fired == old(self).shot(now, old(bullet_factory)),
            fired is Some <==> old(self).firing_due(now),
            fired matches Some(bullet) ==> bullet.pos == final(self).pos && bullet.lethal()
                == old(self).firing_plan->0.dangerous,
            fired is None ==> *final(bullet_factory) == *old(bullet_factory),
            old(self).updated(final(self), now),
            final(self).wf(),
            final(self).settled_at(now),
            old(self).in_lane() ==> final(self).in_lane(),
            old(self).movement_plan is Some && old(self).movement_due(now) ==> final(self).in_lane(),
    {
        proof {
            let after = self.stepped(now, movement, firing);
            lemma_stepped_updates(*self, now, movement, firing);
            lemma_updated_settles(*self, after, now);
            if self.in_lane() || (self.movement_plan is Some && self.movement_due(now)) {
                lemma_updated_in_lane(*self, after, now);
            }
        }
        match self.movement_plan {
            None => {
                let draw = movement.unwrap();
                self.movement_plan = Some(
                    MovementPlan {
                        start_pos: self.pos,
                        next_pos: (draw.next_x, self.pos.1),
                        plan_made: now,
                        duration: draw.duration,
                    },
                );
            },
            Some(plan) => {
                if plan.is_over(now) {
                    let draw = movement.unwrap();
                    self.pos = plan.next_pos;
                    self.movement_plan = Some(
                        MovementPlan {
                            start_pos: self.pos,
                            next_pos: (draw.next_x, self.pos.1),
                            plan_made: now,
                            duration: draw.duration,
                        },
                    );
                } else {
                    self.pos = plan.position(now);
                }
            },
        }
        let mut fired: Option<Bullet> = None;
        match self.firing_plan {
            None => {
                self.firing_plan = Some(
                    FiringPlan { dangerous: false, plan_made: now, delay: FIRST_DELAY_MS },
                );
            },
            Some(plan) => {
                if plan.is_over(now) {
                    let draw = firing.unwrap();
                    if plan.dangerous {
                        fired = Some(bullet_factory.red_bullet(self.pos));
                    } else {
                        fired = Some(bullet_factory.green_bullet(self.pos));
                    }
                    self.firing_plan = Some(
                        FiringPlan { dangerous: draw.dangerous, plan_made: now, delay: draw.delay },
                    );
                }
            },
        }
        fired
    }

    /// One update at `now`: moves the alien along its movement plan, draws
    /// the plans that are due, and fires if the firing plan has run out.
    pub fn update(&mut self, now: u64, bullet_factory: &mut impl BulletFactory) -> (fired: Option<
        Bullet,
    >)
        requires
            old(self).wf(),
            old(self).planned_by(now),
        ensures
            old(self).updated(final(self), now),
            fired == old(self).shot(now, old(bullet_factory)),
            fired is Some <==> old(self).firing_due(now),
            fired matches Some(bullet) ==> bullet.pos == final(self).pos && bullet.lethal()
                == old(self).firing_plan->0.dangerous,
            fired is None ==> *final(bullet_factory) == *old(bullet_factory),
            final(self).wf(),
            final(self).settled_at(now),
            old(self).in_lane() ==> final(self).in_lane(),
            old(self).movement_plan is Some && old(self).movement_due(now) ==> final(self).in_lane(),
    {
        let (min_x, max_x) = self.x_movement_range;
        let movement = if self.is_movement_due(now) {
            let next_x = draw_in_range(&mut self.rng, min_x, max_x);
            let duration = draw_in_range(&mut self.rng, MOVE_MIN_MS as i64, MOVE_MAX_MS as i64);
            Some(MovementDraw { next_x, duration: duration as u64 })
        } else {
            None
        };
        let firing = if self.will_fire(now) {
            let dangerous = draw_ratio(&mut self.rng, 1, RED_ONE_IN);
            let delay = draw_in_range(&mut self.rng, FIRE_MIN_MS as i64, FIRE_MAX_MS as i64);
            Some(FiringDraw { dangerous, delay: delay as u64 })
        } else {
            None
        };
        self.step(now, movement, firing, bullet_factory)
    }
}

/// An update with draws that it accepts ends as `updated` says.
pub proof fn lemma_stepped_updates(
    alien: Alien,
    now: u64,
    movement: Option<MovementDraw>,
    firing: Option<FiringDraw>,
)
    requires
        alien.accepts(now, movement, firing),
    ensures
        alien.updated(&alien.stepped(now, movement, firing), now),
{
}

/// After an update at `now` the alien is settled at `now`: it is where its
/// movement plan puts it, and neither plan has run out. So a second update
/// at the same instant finds nothing to do.
pub proof fn lemma_updated_settles(before: Alien, after: Alien, now: u64)
    requires
        before.wf(),
        before.planned_by(now),
        before.updated(&after, now),
    ensures
        after.wf(),
        after.settled_at(now),
        after.position_at(now) == after.pos,
        !after.movement_due(now),
        !after.firing_due(now),
{
    let plan = after.movement_plan->0;
    if before.movement_due(now) {
        lemma_tween_between(plan.start_pos.0, plan.next_pos.0, 0, plan.duration as int);
        lemma_tween_between(plan.start_pos.1, plan.next_pos.1, 0, plan.duration as int);
    }
}

/// Once a movement plan has run out, the alien is inside its lane, and every
/// later update keeps it there: a plan never takes it past its target, and
/// every target is drawn from the lane.
pub proof fn lemma_updated_in_lane(before: Alien, after: Alien, now: u64)
    requires
        before.wf(),
        before.planned_by(now),
        before.updated(&after, now),
        before.in_lane() || (before.movement_plan is Some && before.movement_due(now)),
    ensures
        after.in_lane(),
        after.x_movement_range.0 <= after.pos.0 <= after.x_movement_range.1,
{
    if let Some(plan) = before.movement_plan {
        if !plan.over(now) {
            lemma_tween_between(
                plan.start_pos.0,
                plan.next_pos.0,
                now - plan.plan_made,
                plan.duration as int,
            );
        }
    }
}

} // verus!
