//! The whole simulation and its tick.
//!
//! A tick moves the bullets, lets the alien move and fire, settles which
//! bullets reached the player, moves the player, and drops the bullets that
//! have left the play area, in that order. So a bullet is judged against
//! where the player stood before this tick's move.

use vstd::prelude::*;
use rand::rngs::StdRng;
use crate::alien::Alien;
use crate::bullet::{Bullet, BulletFactoryImpl};
use crate::player::{Player, PlayerIntent};
use crate::simple_collision::{are_colliding, overlap, CollisionRect};
use crate::sprite::Footprint;
use crate::units::STEPS_PER_UNIT;

verus! {

/// The sprites that the simulation needs the size of.
#[derive(Debug, Copy, Clone, PartialEq, Eq)]
pub struct SpriteData {
    pub player: Footprint,
    pub red_bullet: Footprint,
    pub green_bullet: Footprint,
}

/// Which of the two arrow keys are down.
#[derive(Debug, Default, Copy, Clone, PartialEq, Eq)]
pub struct KeysPressed {
    pub left: bool,
    pub right: bool,
}

/// A key, as far as the game tells keys apart.
#[derive(Debug, Copy, Clone, PartialEq, Eq)]
pub enum Key {
    Left,
    Right,
    Escape,
    Other,
}

/// Why a tick was refused.
#[derive(Debug, Copy, Clone, PartialEq, Eq)]
pub enum TickError {
    /// The clock cannot hold the instant that the tick would end at.
    ClockOverflow,
}

/// The bullets that reached the player during one tick.
#[derive(Debug, Copy, Clone, PartialEq, Eq)]
pub struct Hits {
    /// Green bullets caught. Each one scores.
    pub caught: usize,
    /// Red bullets caught. Any one ends the game.
    pub struck: usize,
}

/// Everything that a tick reads and changes.
#[derive(Debug)]
pub struct Game {
    pub alien: Alien,
    pub player: Player,
    pub bullets: Vec<Bullet>,
    pub last_tick: u64,
    pub score: u32,
    pub game_over: bool,
    pub screen_size: (u32, u32),
    pub keys_pressed: KeysPressed,
    pub sprites: SpriteData,
}

/// How far from the origin the play area reaches, in steps: as many
/// distance units as the screen's width times its height.
pub open spec fn reach(screen_size: (u32, u32)) -> int {
    STEPS_PER_UNIT * screen_size.0 * screen_size.1
}

/// The point is no farther from the origin than the play area reaches.
pub open spec fn in_bounds(pos: (i64, i64), screen_size: (u32, u32)) -> bool {
    pos.0 * pos.0 + pos.1 * pos.1 <= reach(screen_size) * reach(screen_size)
}

/// The bullets that are in bounds.
pub open spec fn within(screen_size: (u32, u32)) -> spec_fn(Bullet) -> bool {
    |bullet: Bullet| in_bounds(bullet.pos, screen_size)
}

/// The bullets that do not touch the player.
pub open spec fn missing(player: Player) -> spec_fn(Bullet) -> bool {
    |bullet: Bullet| !overlap(player.rect(), bullet.rect())
}

/// The green bullets that touch the player.
pub open spec fn catching(player: Player) -> spec_fn(Bullet) -> bool {
    |bullet: Bullet| overlap(player.rect(), bullet.rect()) && !bullet.lethal()
}

/// The red bullets that touch the player.
pub open spec fn striking(player: Player) -> spec_fn(Bullet) -> bool {
    |bullet: Bullet| overlap(player.rect(), bullet.rect()) && bullet.lethal()
}

/// Every bullet after falling for `dt` milliseconds.
pub open spec fn advanced(bullets: Seq<Bullet>, dt: u64) -> Seq<Bullet> {
    Seq::new(bullets.len(), |i: int| bullets[i].moved_down(dt))
}

/// The score after `caught` more catches. It stops at the largest score.
pub open spec fn raised(score: u32, caught: nat) -> u32 {
    if score + caught > u32::MAX {
        u32::MAX
    } else {
        (score + caught) as u32
    }
}

/// A filter that every item passes changes nothing.
proof fn lemma_filter_keeps_all<A>(s: Seq<A>, pred: spec_fn(A) -> bool)
    requires
        forall|i: int| 0 <= i < s.len() ==> pred(#[trigger] s[i]),
    ensures
        s.filter(pred) == s,
    decreases s.len(),
{
    reveal(Seq::filter);
    if s.len() > 0 {
        lemma_filter_keeps_all(s.drop_last(), pred);
        assert(s.drop_last().push(s.last()) == s);
    }
}

/// A filter that no item passes leaves nothing.
proof fn lemma_filter_keeps_none<A>(s: Seq<A>, pred: spec_fn(A) -> bool)
    requires
        forall|i: int| 0 <= i < s.len() ==> !pred(#[trigger] s[i]),
    ensures
        s.filter(pred).len() == 0,
    decreases s.len(),
{
    reveal(Seq::filter);
    if s.len() > 0 {
        lemma_filter_keeps_none(s.drop_last(), pred);
    }
}

/// The square of the distance between `pos` and the origin.
pub fn distance_squared(pos: &(i64, i64)) -> (d: u128)
    ensures
        d == pos.0 * pos.0 + pos.1 * pos.1,
        d <= 0x8000_0000_0000_0000_0000_0000_0000_0000,
{
    let x: i128 = pos.0 as i128;
    let y: i128 = pos.1 as i128;
    assert(0 <= x * x <= 0x4000_0000_0000_0000_0000_0000_0000_0000) by (nonlinear_arith)
        requires
            -0x8000_0000_0000_0000 <= x <= 0x7fff_ffff_ffff_ffff,
    ;
    assert(0 <= y * y <= 0x4000_0000_0000_0000_0000_0000_0000_0000) by (nonlinear_arith)
        requires
            -0x8000_0000_0000_0000 <= y <= 0x7fff_ffff_ffff_ffff,
    ;
    (x * x) as u128 + (y * y) as u128
}

/// Whether a bullet at `pos` is still tracked on a screen of this size.
pub fn is_in_bounds(pos: &(i64, i64), screen_size: (u32, u32)) -> (inside: bool)
    ensures
        inside == in_bounds(*pos, screen_size),
{
    let width: u128 = screen_size.0 as u128;
    let height: u128 = screen_size.1 as u128;
    assert(width * height <= 0xffff_ffff * 0xffff_ffff) by (nonlinear_arith)
        requires
            width <= 0xffff_ffff,
            height <= 0xffff_ffff,
    ;
    let limit: u128 = STEPS_PER_UNIT as u128 * (width * height);
    assert(limit == reach(screen_size)) by (nonlinear_arith)
        requires
            limit == 1000 * (width * height),
            reach(screen_size) == 1000 * screen_size.0 * screen_size.1,
            width == screen_size.0,
            height == screen_size.1,
    ;
    let d = distance_squared(pos);
    if limit > u64::MAX as u128 {
        assert(limit * limit >= 0x1_0000_0000_0000_0000 * 0x1_0000_0000_0000_0000)
            by (nonlinear_arith)
            requires
                limit >= 0x1_0000_0000_0000_0000,
        ;
        true
    } else {
        assert(limit * limit <= 0xffff_ffff_ffff_ffff * 0xffff_ffff_ffff_ffff)
            by (nonlinear_arith)
            requires
                limit <= 0xffff_ffff_ffff_ffff,
        ;
        d <= limit * limit
    }
}

/// Drops the bullets that are out of bounds.
pub fn clean_up_out_of_bounds_bullets(game: &mut Game)
    ensures
        final(game).bullets@ == old(game).bullets@.filter(within(old(game).screen_size)),
        forall|i: int|
            0 <= i < final(game).bullets@.len() ==> in_bounds(
                (#[trigger] final(game).bullets@[i]).pos,
                old(game).screen_size,
            ),
        *final(game) == (Game { bullets: final(game).bullets, ..*old(game) }),
{
    let ghost start: Seq<Bullet> = game.bullets@;
    let ghost kept_here = within(game.screen_size);
    let screen_size = game.screen_size;
    let n: usize = game.bullets.len();
    let mut kept: Vec<Bullet> = Vec::new();
    let mut i: usize = 0;
    while i < n
        invariant
            i <= n,
            n == start.len(),
            game.bullets@ == start,
            kept_here == within(screen_size),
            kept@ == start.take(i as int).filter(kept_here),
        decreases n - i,
    {
        let bullet: Bullet = game.bullets[i];
        proof {
            start.lemma_take_succ_push(i as int);
            start.take(i as int).lemma_filter_push(start[i as int], kept_here);
        }
        if is_in_bounds(&bullet.pos, screen_size) {
            kept.push(bullet);
        }
        i += 1;
    }
    proof {
        assert(start.take(n as int) == start);
        assert forall|i: int| 0 <= i < kept@.len() implies in_bounds(
            (#[trigger] kept@[i]).pos,
            screen_size,
        ) by {
            start.lemma_filter_pred(kept_here, i);
        }
    }
    game.bullets = kept;
}

/// Lets every bullet fall for `dt` milliseconds.
pub fn advance_bullets(bullets: &mut Vec<Bullet>, dt: u64)
    ensures
        final(bullets)@ == advanced(old(bullets)@, dt),
{
    let n: usize = bullets.len();
    let mut i: usize = 0;
    while i < n
        invariant
            i <= n,
            n == old(bullets)@.len(),
            bullets@.len() == n,
            forall|j: int| 0 <= j < i ==> bullets@[j] == old(bullets)@[j].moved_down(dt),
            forall|j: int| i <= j < n ==> bullets@[j] == old(bullets)@[j],
        decreases n - i,
    {
        bullets[i].move_down(dt);
        i += 1;
    }
    assert(bullets@ =~= advanced(old(bullets)@, dt));
}

/// `score` after `caught` more catches.
fn raise_score(score: u32, caught: usize) -> (total: u32)
    ensures
        total == raised(score, caught as nat),
{
    if caught as u128 > (u32::MAX - score) as u128 {
        u32::MAX
    } else {
        score + caught as u32
    }
}

/// Settles every bullet that touches the player: a green one scores, a red
/// one ends the game, and either way the bullet is gone. All of them count,
/// whatever the others did.
pub fn resolve_hits(game: &mut Game) -> (hits: Hits)
    ensures
        hits.caught == old(game).bullets@.filter(catching(old(game).player)).len(),
        hits.struck == old(game).bullets@.filter(striking(old(game).player)).len(),
        final(game).bullets@ == old(game).bullets@.filter(missing(old(game).player)),
        final(game).score == raised(old(game).score, hits.caught as nat),
        final(game).game_over == (old(game).game_over || hits.struck > 0),
        *final(game) == (Game {
            bullets: final(game).bullets,
            score: final(game).score,
            game_over: final(game).game_over,
            ..*old(game)
        }),
{
    let ghost start: Seq<Bullet> = game.bullets@;
    let player: Player = game.player;
    let ghost missed = missing(player);
    let ghost green = catching(player);
    let ghost red = striking(player);
    let n: usize = game.bullets.len();
    let mut kept: Vec<Bullet> = Vec::new();
    let mut hits = Hits { caught: 0, struck: 0 };
    let mut i: usize = 0;
    while i < n
        invariant
            i <= n,
            n == start.len(),
            game.bullets@ == start,
            missed == missing(player),
            green == catching(player),
            red == striking(player),
            kept@ == start.take(i as int).filter(missed),
            hits.caught == start.take(i as int).filter(green).len(),
            hits.struck == start.take(i as int).filter(red).len(),
            hits.caught <= i,
            hits.struck <= i,
        decreases n - i,
    {
        let bullet: Bullet = game.bullets[i];
        proof {
            start.lemma_take_succ_push(i as int);
            start.take(i as int).lemma_filter_push(start[i as int], missed);
            start.take(i as int).lemma_filter_push(start[i as int], green);
            start.take(i as int).lemma_filter_push(start[i as int], red);
        }
        if are_colliding(&player, &bullet) {
            if bullet.deadly() {
                hits.struck += 1;
            } else {
                hits.caught += 1;
            }
        } else {
            kept.push(bullet);
        }
        i += 1;
    }
    assert(start.take(n as int) == start);
    game.bullets = kept;
    game.score = raise_score(game.score, hits.caught);
    game.game_over = game.game_over || hits.struck > 0;
    hits
}

impl Game {
    /// The alien has a lane and is as its last update, at the last tick,
    /// left it.
    pub open spec fn wf(&self) -> bool {
        &&& self.alien.wf()
        &&& self.alien.settled_at(self.last_tick)
    }

    /// The factory that the alien's bullets come from.
    pub open spec fn factory(&self) -> BulletFactoryImpl {
        BulletFactoryImpl {
            red_sprite: self.sprites.red_bullet,
            green_sprite: self.sprites.green_bullet,
        }
    }

    /// What the keys ask for: a move to one side if only that key is down.
    pub open spec fn intent(&self) -> PlayerIntent {
        if self.keys_pressed.left && !self.keys_pressed.right {
            PlayerIntent::MoveLeft
        } else if self.keys_pressed.right && !self.keys_pressed.left {
            PlayerIntent::MoveRight
        } else {
            PlayerIntent::StayStill
        }
    }

    /// The bullets in the air in a tick of `dt` milliseconds, before any of
    /// them is settled: those there were, each fallen for `dt`, and behind
    /// them the one that the alien fires in this tick, if it fires.
    pub open spec fn in_flight(&self, dt: u64) -> Seq<Bullet> {
        let moved = advanced(self.bullets@, dt);
        match self.alien.shot((self.last_tick + dt) as u64, &self.factory()) {
            Some(bullet) => moved.push(bullet),
            None => moved,
        }
    }

    /// A tick of `dt` milliseconds that reports `hits` takes this game to
    /// `after`.
    pub open spec fn ticks_to(&self, after: &Game, dt: u64, hits: Hits) -> bool {
        &&& after.last_tick == self.last_tick + dt
        &&& self.alien.updated(&after.alien, after.last_tick)
        &&& hits.caught == self.in_flight(dt).filter(catching(self.player)).len()
        &&& hits.struck == self.in_flight(dt).filter(striking(self.player)).len()
        &&& after.score == raised(self.score, hits.caught as nat)
        &&& after.game_over == (self.game_over || hits.struck > 0)
        &&& after.bullets@ == self.in_flight(dt).filter(missing(self.player)).filter(
            within(self.screen_size),
        )
        &&& after.player == self.player.moved(self.intent(), dt)
        &&& after.screen_size == self.screen_size
        &&& after.keys_pressed == self.keys_pressed
        &&& after.sprites == self.sprites
    }

    /// A new game at the instant `now`: the alien near the top left, the
    /// player below it, no bullet in the air. The alien's lane is as wide as
    /// the screen.
    pub fn starting(screen_size: (u32, u32), sprites: SpriteData, rng: StdRng, now: u64) -> (game:
        Game)
        requires
            screen_size.0 > 0,
        ensures
            game.alien.pos == (50_000i64, 50_000i64),
            game.alien.x_movement_range == (0i64, (STEPS_PER_UNIT * screen_size.0) as i64),
            game.alien.movement_plan is None,
            game.alien.firing_plan is None,
            game.alien.rng == rng,
            game.player == (Player { pos: (50_000i64, 550_000i64), sprite: sprites.player }),
            game.bullets@.len() == 0,
            game.last_tick == now,
            game.score == 0,
            !game.game_over,
            game.screen_size == screen_size,
            game.keys_pressed == (KeysPressed { left: false, right: false }),
            game.sprites == sprites,
            game.wf(),
    {
        Game {
            alien: Alien::starting_at(
                (50_000, 50_000),
                (0, STEPS_PER_UNIT as i64 * screen_size.0 as i64),
                rng,
            ),
            player: Player::starting_at((50_000, 550_000), sprites.player),
            bullets: Vec::new(),
            last_tick: now,
            score: 0,
            game_over: false,
            screen_size,
            keys_pressed: KeysPressed { left: false, right: false },
            sprites,
        }
    }

    /// Whether the alien has a lane and is as an update at the last tick
    /// leaves it.
    pub fn is_wf(&self) -> (ok: bool)
        ensures
            ok == self.wf(),
    {
        self.alien.is_wf() && self.alien.is_settled_at(self.last_tick)
    }

    /// What the keys ask for. Both keys down ask for nothing, as neither
    /// does.
    pub fn player_intent(&self) -> (intent: PlayerIntent)
        ensures
            intent == self.intent(),
    {
        if self.keys_pressed.left && self.keys_pressed.right {
            PlayerIntent::StayStill
        } else if self.keys_pressed.left {
            PlayerIntent::MoveLeft
        } else if self.keys_pressed.right {
            PlayerIntent::MoveRight
        } else {
            PlayerIntent::StayStill
        }
    }

    /// A key went down. Returns whether the player asked to quit.
    pub fn key_down_event(&mut self, key: Key) -> (quit: bool)
        ensures
            quit == (key == Key::Escape),
            final(self).keys_pressed.left == (old(self).keys_pressed.left || key == Key::Left),
            final(self).keys_pressed.right == (old(self).keys_pressed.right || key == Key::Right),
            *final(self) == (Game { keys_pressed: final(self).keys_pressed, ..*old(self) }),
    {
        match key {
            Key::Escape => true,
            Key::Left => {
                self.keys_pressed.left = true;
                false
            },
            Key::Right => {
                self.keys_pressed.right = true;
                false
            },
            Key::Other => false,
        }
    }

    /// A key came up.
    pub fn key_up_event(&mut self, key: Key)
        ensures
            final(self).keys_pressed.left == (old(self).keys_pressed.left && key != Key::Left),
            final(self).keys_pressed.right == (old(self).keys_pressed.right && key != Key::Right),
            *final(self) == (Game { keys_pressed: final(self).keys_pressed, ..*old(self) }),
    {
        match key {
            Key::Left => {
                self.keys_pressed.left = false;
            },
            Key::Right => {
                self.keys_pressed.right = false;
            },
            _ => {},
        }
    }

    /// The window has a new size.
    pub fn resize_event(&mut self, width: u32, height: u32)
        ensures
            *final(self) == (Game { screen_size: (width, height), ..*old(self) }),
    {
        self.screen_size = (width, height);
    }
}

/// One tick of `dt` milliseconds. A tick that would take the clock past its
/// last instant is refused and changes nothing.
pub fn tick(game: &mut Game, dt: u64) -> (result: Result<Hits, TickError>)
    requires
        old(game).wf(),
    ensures
        match result {
            Ok(hits) => {
                &&& old(game).last_tick + dt <= u64::MAX
                &&& old(game).ticks_to(final(game), dt, hits)
                &&& forall|i: int|
                    0 <= i < final(game).bullets@.len() ==> in_bounds(
                        (#[trigger] final(game).bullets@[i]).pos,
                        old(game).screen_size,
                    )
            },
            Err(error) => {
                &&& error == TickError::ClockOverflow
                &&& old(game).last_tick + dt > u64::MAX
                &&& *final(game) == *old(game)
            },
        },
        final(game).wf(),
        final(game).bullets@.len() <= old(game).bullets@.len() + 1,
        old(game).game_over ==> final(game).game_over,
        final(game).score >= old(game).score,
        old(game).alien.in_lane() ==> final(game).alien.in_lane(),
        result is Ok && old(game).alien.movement_plan is Some && old(game).alien.movement_due(
            final(game).last_tick,
        ) ==> final(game).alien.in_lane(),
{
    let now: u64 = match game.last_tick.checked_add(dt) {
        Some(now) => now,
        None => {
            return Err(TickError::ClockOverflow);
        },
    };
    advance_bullets(&mut game.bullets, dt);
    let mut bullet_factory = BulletFactoryImpl {
        red_sprite: game.sprites.red_bullet,
        green_sprite: game.sprites.green_bullet,
    };
    if let Some(new_bullet) = game.alien.update(now, &mut bullet_factory) {
        game.bullets.push(new_bullet);
    }
    let hits = resolve_hits(game);
    let intent = game.player_intent();
    game.player.execute_intent(&intent, dt);
    clean_up_out_of_bounds_bullets(game);
    game.last_tick = now;
    Ok(hits)
}

/// A tick of no time changes nothing but what was already due: where no
/// bullet touches the player, the alien and the player stay where they are,
/// the alien keeps the plans it has, the score and the game-over flag stay
/// as they are, and the bullets that are in bounds stay in the air where
/// they are.
pub proof fn lemma_idle_tick(before: Game, after: Game, hits: Hits)
    requires
        before.wf(),
        before.ticks_to(&after, 0, hits),
        forall|i: int|
            0 <= i < before.bullets@.len() ==> !overlap(
                before.player.rect(),
                (#[trigger] before.bullets@[i]).rect(),
            ),
    ensures
        after.last_tick == before.last_tick,
        after.alien.pos == before.alien.pos,
        before.alien.movement_plan is Some ==> after.alien.movement_plan
            == before.alien.movement_plan,
        before.alien.firing_plan is Some ==> after.alien.firing_plan == before.alien.firing_plan,
        after.player == before.player,
        after.score == before.score,
        after.game_over == before.game_over,
        hits == (Hits { caught: 0, struck: 0 }),
        after.bullets@ == before.bullets@.filter(within(before.screen_size)),
        (forall|i: int|
            0 <= i < before.bullets@.len() ==> in_bounds(
                (#[trigger] before.bullets@[i]).pos,
                before.screen_size,
            )) ==> after.bullets@ == before.bullets@,
{
    let flying = before.in_flight(0);
    assert(flying =~= before.bullets@);
    lemma_filter_keeps_all(flying, missing(before.player));
    lemma_filter_keeps_none(flying, catching(before.player));
    lemma_filter_keeps_none(flying, striking(before.player));
    if forall|i: int|
        0 <= i < before.bullets@.len() ==> in_bounds(
            (#[trigger] before.bullets@[i]).pos,
            before.screen_size,
        ) {
        lemma_filter_keeps_all(flying, within(before.screen_size));
    }
}

} // verus!
