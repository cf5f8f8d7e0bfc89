//! The simulation state and its per-frame step.
use vstd::prelude::*;
use crate::bullet::Bullet;
use crate::collision::{
    collides, collision_outcome, first_hit, process_collisions, resolve, unspent, Destruction,
};
use crate::constants::{
    ENEMY_DROP, ENEMY_SPEED_INCREMENT, INITIAL_ENEMY_SPEED, LEFT_MARGIN, PLAYER_Y, RIGHT_EDGE,
};
use crate::enemy::{saturate, saturate_i128, travel, Enemy};
use crate::player::Player;
use crate::wave::{generate_wave, wave_layout};

verus! {

/// Whether the game is running or has ended.
#[derive(Debug, Clone, Copy, PartialEq, Eq, Structural)]
pub enum GameState {
    Playing,
    GameOver,
}

/// The keys of one frame: movement held, fire and reset pressed.
#[derive(Debug, Clone, Copy, PartialEq, Eq, Structural)]
pub struct Input {
    pub left: bool,
    pub right: bool,
    pub fire: bool,
    pub reset: bool,
}

/// What a frame reports to the collaborators around the core.
pub struct TickReport {
    /// A bullet was fired.
    pub shot_fired: bool,
    /// Enemies destroyed this frame, as (x, y, points), in order.
    pub destroyed: Vec<Destruction>,
    /// The final score, on the frame the game ends.
    pub game_over: Option<u64>,
}

/// The mathematical content of a [`TickReport`].
pub struct Report {
    pub shot_fired: bool,
    pub destroyed: Seq<Destruction>,
    pub game_over: Option<u64>,
}

impl View for TickReport {
    type V = Report;

    open spec fn view(&self) -> Report {
        Report { shot_fired: self.shot_fired, destroyed: self.destroyed@, game_over: self.game_over }
    }
}

/// The whole state of one game session.
pub struct Simulation {
    pub player: Player,
    /// Live enemies.
    pub enemies: Vec<Enemy>,
    /// Live bullets.
    pub bullets: Vec<Bullet>,
    /// Direction shared by the formation: 1 is right, -1 is left.
    pub direction: i64,
    /// Base enemy speed, in pixels per second.
    pub enemy_speed: u32,
    /// Current wave, from 1.
    pub wave: u32,
    pub score: u64,
    pub state: GameState,
}

/// The mathematical content of a [`Simulation`].
pub struct World {
    pub player: Player,
    pub enemies: Seq<Enemy>,
    pub bullets: Seq<Bullet>,
    pub direction: i64,
    pub enemy_speed: u32,
    pub wave: u32,
    pub score: u64,
    pub state: GameState,
}

impl View for Simulation {
    type V = World;

    open spec fn view(&self) -> World {
        World {
            player: self.player,
            enemies: self.enemies@,
            bullets: self.bullets@,
            direction: self.direction,
            enemy_speed: self.enemy_speed,
            wave: self.wave,
            score: self.score,
            state: self.state,
        }
    }
}

impl World {
    /// The invariant of a session: the player inside its range, a unit
    /// direction shared by every enemy, only live enemies in the collection,
    /// and a wave number from one on.
    pub open spec fn wf(self) -> bool {
        &&& self.player.in_range()
        &&& (self.direction == 1 || self.direction == -1)
        &&& live_formation(self.enemies, self.direction)
        &&& self.wave >= 1
    }
}

/// Every enemy has health left and heads in `dir`.
pub open spec fn live_formation(es: Seq<Enemy>, dir: i64) -> bool {
    forall|k: int| 0 <= k < es.len() ==> (#[trigger] es[k]).health > 0 && es[k].direction == dir
}

/// The state a session starts in, and returns to on reset.
pub open spec fn initial_world() -> World {
    World {
        player: Player::spec_start(),
        enemies: wave_layout(1),
        bullets: seq![],
        direction: 1,
        enemy_speed: INITIAL_ENEMY_SPEED,
        wave: 1,
        score: 0,
        state: GameState::Playing,
    }
}

/// A frame in which nothing is fired, destroyed or ended.
pub open spec fn quiet_report() -> Report {
    Report { shot_fired: false, destroyed: seq![], game_over: None }
}

/// Every enemy moved for `dt` milliseconds at base speed `speed`.
pub open spec fn moved_enemies(es: Seq<Enemy>, speed: u32, dt: u32) -> Seq<Enemy> {
    Seq::new(es.len(), |k: int| es[k].moved(speed, dt))
}

/// The enemy lies outside the region the formation may occupy.
pub open spec fn off_edge(e: Enemy) -> bool {
    e.x < LEFT_MARGIN || e.x > RIGHT_EDGE
}

/// Some enemy lies outside the formation's region.
pub open spec fn any_off_edge(es: Seq<Enemy>) -> bool {
    exists|k: int| 0 <= k < es.len() && off_edge(#[trigger] es[k])
}

/// The reverse of a direction.
pub open spec fn reversed(d: i64) -> i64 {
    if d > 0 {
        -1i64
    } else {
        1i64
    }
}

/// Every enemy one drop lower, heading in `dir`.
pub open spec fn dropped(es: Seq<Enemy>, dir: i64) -> Seq<Enemy> {
    Seq::new(es.len(), |k: int| Enemy { y: saturate(es[k].y + ENEMY_DROP), direction: dir, ..es[k] })
}

/// Every bullet moved for `dt` milliseconds.
pub open spec fn moved_bullets(bs: Seq<Bullet>, dt: u32) -> Seq<Bullet> {
    Seq::new(bs.len(), |k: int| bs[k].moved(dt))
}

/// The first `n` bullets that are still inside the field, in order.
pub open spec fn in_field(bs: Seq<Bullet>, n: nat) -> Seq<Bullet>
    decreases n,
{
    if n == 0 {
        seq![]
    } else {
        let rest = in_field(bs, (n - 1) as nat);
        if bs[n - 1].y < 0 {
            rest
        } else {
            rest.push(bs[n - 1])
        }
    }
}

/// Some enemy is below the defender line.
pub open spec fn any_breached(es: Seq<Enemy>) -> bool {
    exists|k: int| 0 <= k < es.len() && (#[trigger] es[k]).breached()
}

/// Sum of the points of the events.
pub open spec fn total_points(evs: Seq<Destruction>) -> nat
    decreases evs.len(),
{
    if evs.len() == 0 {
        0
    } else {
        total_points(evs.drop_last()) + evs.last().2 as nat
    }
}

/// The score after adding the events' points, capped at the largest `u64`.
pub open spec fn scored(score: u64, evs: Seq<Destruction>) -> u64 {
    if score + total_points(evs) > u64::MAX {
        u64::MAX
    } else {
        (score + total_points(evs)) as u64
    }
}

/// The following wave number, held at the largest `u32`.
pub open spec fn next_wave(wave: u32) -> u32 {
    if wave < u32::MAX {
        (wave + 1) as u32
    } else {
        wave
    }
}

/// The base speed after a cleared wave, held at the largest `u32`.
pub open spec fn faster(speed: u32) -> u32 {
    if speed + ENEMY_SPEED_INCREMENT > u32::MAX {
        u32::MAX
    } else {
        (speed + ENEMY_SPEED_INCREMENT) as u32
    }
}

/// One frame of play, in the fixed order: input, player, enemies, edge
/// reversal and drop, bullets, culling, collisions and score, then the
/// defender-line check, which wins over the wave-clear check.
pub open spec fn playing_step(w: World, input: Input, dt: u32) -> (World, Report) {
    let bullets0 = if input.fire {
        w.bullets.push(Bullet { x: w.player.x, y: PLAYER_Y })
    } else {
        w.bullets
    };
    let player = w.player.moved(input.left, input.right, dt);
    let es1 = moved_enemies(w.enemies, w.enemy_speed, dt);
    let edge = any_off_edge(es1);
    let dir = if edge { reversed(w.direction) } else { w.direction };
    let es2 = if edge { dropped(es1, dir) } else { es1 };
    let bs1 = moved_bullets(bullets0, dt);
    let bs2 = in_field(bs1, bs1.len());
    let out = collision_outcome(es2, bs2);
    let score = scored(w.score, out.2);
    let mid = World {
        player,
        enemies: out.0,
        bullets: out.1,
        direction: dir,
        score,
        ..w
    };
    if any_breached(out.0) {
        (
            World { state: GameState::GameOver, ..mid },
            Report { shot_fired: input.fire, destroyed: out.2, game_over: Some(score) },
        )
    } else if out.0.len() == 0 {
        let wave = next_wave(w.wave);
        (
            World {
                enemies: wave_layout(wave),
                wave,
                enemy_speed: faster(w.enemy_speed),
                direction: 1,
                ..mid
            },
            Report { shot_fired: input.fire, destroyed: out.2, game_over: None },
        )
    } else {
        (mid, Report { shot_fired: input.fire, destroyed: out.2, game_over: None })
    }
}

/// One frame: a reset restarts the session; after the game has ended
/// nothing else changes; otherwise play advances by `dt` milliseconds.
pub open spec fn tick_world(w: World, input: Input, dt: u32) -> (World, Report) {
    if input.reset {
        (initial_world(), quiet_report())
    } else if w.state == GameState::GameOver {
        (w, quiet_report())
    } else {
        playing_step(w, input, dt)
    }
}

fn move_enemies(enemies: &mut Vec<Enemy>, speed: u32, dt: u32)
    ensures
        final(enemies)@ == moved_enemies(old(enemies)@, speed, dt),
{
    let ghost es = enemies@;
    let n = enemies.len();
    let mut i: usize = 0;
    while i < n
        invariant
            i <= n,
            n == es.len(),
            enemies@.len() == n,
            forall|k: int| 0 <= k < i ==> enemies@[k] == es[k].moved(speed, dt),
            forall|k: int| i <= k < n ==> enemies@[k] == es[k],
        decreases n - i,
    {
        let mut e = enemies[i];
        e.update(speed, dt);
        enemies.set(i, e);
        i = i + 1;
    }
    assert(enemies@ =~= moved_enemies(es, speed, dt));
}

fn find_off_edge(enemies: &Vec<Enemy>) -> (r: bool)
    ensures
        r == any_off_edge(enemies@),
{
    let mut i: usize = 0;
    while i < enemies.len()
        invariant
            i <= enemies@.len(),
            forall|k: int| 0 <= k < i ==> !off_edge(#[trigger] enemies@[k]),
        decreases enemies@.len() - i,
    {
        if enemies[i].x < LEFT_MARGIN || enemies[i].x > RIGHT_EDGE {
            return true;
        }
        i = i + 1;
    }
    false
}

fn drop_formation(enemies: &mut Vec<Enemy>, dir: i64)
    ensures
        final(enemies)@ == dropped(old(enemies)@, dir),
{
    let ghost es = enemies@;
    let n = enemies.len();
    let mut i: usize = 0;
    while i < n
        invariant
            i <= n,
            n == es.len(),
            enemies@.len() == n,
            forall|k: int| 0 <= k < i ==> enemies@[k] == (Enemy { y: saturate(es[k].y + ENEMY_DROP), direction: dir, ..es[k] }),
            forall|k: int| i <= k < n ==> enemies@[k] == es[k],
        decreases n - i,
    {
        let mut e = enemies[i];
        e.y = saturate_i128(e.y as i128 + ENEMY_DROP as i128);
        e.direction = dir;
        enemies.set(i, e);
        i = i + 1;
    }
    assert(enemies@ =~= dropped(es, dir));
}

fn move_bullets(bullets: &mut Vec<Bullet>, dt: u32)
    ensures
        final(bullets)@ == moved_bullets(old(bullets)@, dt),
{
    let ghost bs = bullets@;
    let n = bullets.len();
    let mut i: usize = 0;
    while i < n
        invariant
            i <= n,
            n == bs.len(),
            bullets@.len() == n,
            forall|k: int| 0 <= k < i ==> bullets@[k] == bs[k].moved(dt),
            forall|k: int| i <= k < n ==> bullets@[k] == bs[k],
        decreases n - i,
    {
        let mut b = bullets[i];
        b.update(dt);
        bullets.set(i, b);
        i = i + 1;
    }
    assert(bullets@ =~= moved_bullets(bs, dt));
}

fn cull_bullets(bullets: &mut Vec<Bullet>)
    ensures
        final(bullets)@ == in_field(old(bullets)@, old(bullets)@.len()),
{
    let ghost bs = bullets@;
    let mut kept: Vec<Bullet> = Vec::new();
    let mut i: usize = 0;
    while i < bullets.len()
        invariant
            i <= bs.len(),
            bullets@ == bs,
            kept@ == in_field(bs, i as nat),
        decreases bs.len() - i,
    {
        if !bullets[i].is_out_of_bounds() {
            kept.push(bullets[i]);
        }
        i = i + 1;
    }
    *bullets = kept;
}

fn find_breach(enemies: &Vec<Enemy>) -> (r: bool)
    ensures
        r == any_breached(enemies@),
{
    let mut i: usize = 0;
    while i < enemies.len()
        invariant
            i <= enemies@.len(),
            forall|k: int| 0 <= k < i ==> !(#[trigger] enemies@[k]).breached(),
        decreases enemies@.len() - i,
    {
        if enemies[i].has_breached_defender_line() {
            return true;
        }
        i = i + 1;
    }
    false
}

fn add_points(score: u64, events: &Vec<Destruction>) -> (r: u64)
    ensures
        r == scored(score, events@),
{
    let ghost evs = events@;
    let mut acc: u64 = score;
    let mut i: usize = 0;
    while i < events.len()
        invariant
            i <= evs.len(),
            events@ == evs,
            acc == scored(score, evs.take(i as int)),
            forall|k: int| 0 <= k < evs.len() ==> 0 <= (#[trigger] evs[k]).2,
        decreases evs.len() - i,
    {
        let p = events[i].2;
        assert(evs.take(i + 1).drop_last() =~= evs.take(i as int));
        assert(total_points(evs.take(i + 1)) == total_points(evs.take(i as int)) + p);
        if acc > u64::MAX - p as u64 {
            acc = u64::MAX;
        } else {
            acc = acc + p as u64;
        }
        i = i + 1;
    }
    assert(evs.take(evs.len() as int) =~= evs);
    acc
}

impl Simulation {
    /// A fresh session at wave one.
    pub fn new() -> (r: Simulation)
        ensures
            r@ == initial_world(),
    {
        Simulation {
            player: Player::new(),
            enemies: generate_wave(1),
            bullets: Vec::new(),
            direction: 1,
            enemy_speed: INITIAL_ENEMY_SPEED,
            wave: 1,
            score: 0,
            state: GameState::Playing,
        }
    }

    /// Restarts the session: wave one, no score, a fresh grid, no bullets.
    pub fn reset(&mut self)
        ensures
            final(self)@ == initial_world(),
    {
        *self = Simulation::new();
    }

    /// Fires a bullet from the player's position, while the game is running.
    /// Returns whether a bullet was fired.
    pub fn fire(&mut self) -> (r: bool)
        ensures
            r == (old(self).state == GameState::Playing),
            final(self)@ == (if r {
                World { bullets: old(self)@.bullets.push(Bullet { x: old(self).player.x, y: PLAYER_Y }), ..old(self)@ }
            } else {
                old(self)@
            }),
    {
        if self.state == GameState::Playing {
            self.bullets.push(Bullet::new(self.player.x, PLAYER_Y));
            true
        } else {
            false
        }
    }

    /// Advances the session by one frame of `dt` milliseconds.
    pub fn tick(&mut self, input: Input, dt: u32) -> (r: TickReport)
        ensures
            (final(self)@, r@) == tick_world(old(self)@, input, dt),
    {
        if input.reset {
            self.reset();
            return TickReport { shot_fired: false, destroyed: Vec::new(), game_over: None };
        }
        if self.state == GameState::GameOver {
            return TickReport { shot_fired: false, destroyed: Vec::new(), game_over: None };
        }
        let mut shot_fired = false;
        if input.fire {
            shot_fired = self.fire();
        }
        self.player.update(input.left, input.right, dt);
        move_enemies(&mut self.enemies, self.enemy_speed, dt);
        if find_off_edge(&self.enemies) {
            let dir: i64 = if self.direction > 0 { -1 } else { 1 };
            self.direction = dir;
            drop_formation(&mut self.enemies, dir);
        }
        move_bullets(&mut self.bullets, dt);
        cull_bullets(&mut self.bullets);
        let destroyed = process_collisions(&mut self.enemies, &mut self.bullets);
        self.score = add_points(self.score, &destroyed);
        let mut game_over: Option<u64> = None;
        if find_breach(&self.enemies) {
            self.state = GameState::GameOver;
            game_over = Some(self.score);
        } else if self.enemies.len() == 0 {
            if self.wave < u32::MAX {
                self.wave = self.wave + 1;
            }
            self.enemies = generate_wave(self.wave);
            self.enemy_speed = if self.enemy_speed > u32::MAX - ENEMY_SPEED_INCREMENT {
                u32::MAX
            } else {
                self.enemy_speed + ENEMY_SPEED_INCREMENT
            };
            self.direction = 1;
        }
        TickReport { shot_fired, destroyed, game_over }
    }
}

proof fn lemma_resolve_keeps_live(es: Seq<Enemy>, bs: Seq<Bullet>, k: nat, dir: i64)
    requires
        k <= es.len(),
        live_formation(es, dir),
    ensures
        live_formation(resolve(es, bs, k).survivors, dir),
    decreases k,
{
    if k > 0 {
        lemma_resolve_keeps_live(es, bs, (k - 1) as nat, dir);
        let e = es[k - 1];
        assert(e.health > 0 && e.direction == dir);
    }
}

/// A session starts, and stays, well formed.
pub proof fn tick_keeps_well_formed(w: World, input: Input, dt: u32)
    ensures
        initial_world().wf(),
        w.wf() ==> tick_world(w, input, dt).0.wf(),
{
    assert(live_formation(wave_layout(1), 1));
    if w.wf() && !input.reset && w.state == GameState::Playing {
        let bullets0 = if input.fire {
            w.bullets.push(Bullet { x: w.player.x, y: PLAYER_Y })
        } else {
            w.bullets
        };
        let es1 = moved_enemies(w.enemies, w.enemy_speed, dt);
        let edge = any_off_edge(es1);
        let dir = if edge { reversed(w.direction) } else { w.direction };
        let es2 = if edge { dropped(es1, dir) } else { es1 };
        let bs1 = moved_bullets(bullets0, dt);
        let bs2 = in_field(bs1, bs1.len());
        assert(live_formation(es2, dir));
        lemma_resolve_keeps_live(es2, bs2, es2.len(), dir);
        assert(live_formation(wave_layout(next_wave(w.wave)), 1));
    }
}

/// Resetting after the game has ended restores wave one, a zero score, the
/// first wave's grid, no bullets and the playing state.
pub proof fn reset_after_game_over_restores_start(w: World, input: Input, dt: u32)
    requires
        w.state == GameState::GameOver,
        input.reset,
    ensures
        tick_world(w, input, dt).0 == initial_world(),
        tick_world(w, input, dt).0.wave == 1,
        tick_world(w, input, dt).0.score == 0,
        tick_world(w, input, dt).0.enemies == wave_layout(1),
        tick_world(w, input, dt).0.bullets.len() == 0,
        tick_world(w, input, dt).0.state == GameState::Playing,
{
}

proof fn lemma_in_field_all(bs: Seq<Bullet>, n: nat)
    requires
        n <= bs.len(),
        forall|k: int| 0 <= k < bs.len() ==> (#[trigger] bs[k]).y >= 0,
    ensures
        in_field(bs, n) == bs.take(n as int),
    decreases n,
{
    if n > 0 {
        lemma_in_field_all(bs, (n - 1) as nat);
        assert(bs.take(n as int) =~= bs.take(n - 1).push(bs[n - 1]));
    } else {
        assert(bs.take(0) =~= seq![]);
    }
}

proof fn lemma_no_hit(e: Enemy, bs: Seq<Bullet>, spent: Seq<bool>, j: int)
    requires
        0 <= j,
        forall|k: int| 0 <= k < bs.len() ==> !collides(#[trigger] bs[k], e),
    ensures
        first_hit(e, bs, spent, j) == None::<int>,
    decreases bs.len() - j,
{
    if j < bs.len() {
        lemma_no_hit(e, bs, spent, j + 1);
    }
}

proof fn lemma_resolve_quiet(es: Seq<Enemy>, bs: Seq<Bullet>, k: nat)
    requires
        k <= es.len(),
        forall|a: int, b: int|
            0 <= a < es.len() && 0 <= b < bs.len() ==> !collides(#[trigger] bs[b], #[trigger] es[a]),
    ensures
        resolve(es, bs, k).survivors == es.take(k as int),
        resolve(es, bs, k).spent == Seq::new(bs.len(), |_i: int| false),
        resolve(es, bs, k).events.len() == 0,
    decreases k,
{
    if k == 0 {
        assert(es.take(0) =~= seq![]);
    } else {
        lemma_resolve_quiet(es, bs, (k - 1) as nat);
        let e = es[k - 1];
        assert forall|b: int| 0 <= b < bs.len() implies !collides(#[trigger] bs[b], e) by {
            assert(!collides(bs[b], es[k - 1]));
        }
        lemma_no_hit(e, bs, resolve(es, bs, (k - 1) as nat).spent, 0);
        assert(es.take(k as int) =~= es.take(k - 1).push(e));
    }
}

proof fn lemma_unspent_none(bs: Seq<Bullet>, spent: Seq<bool>, n: nat)
    requires
        n <= bs.len(),
        spent == Seq::new(bs.len(), |_i: int| false),
    ensures
        unspent(bs, spent, n) == bs.take(n as int),
    decreases n,
{
    if n > 0 {
        lemma_unspent_none(bs, spent, (n - 1) as nat);
        assert(bs.take(n as int) =~= bs.take(n - 1).push(bs[n - 1]));
    } else {
        assert(bs.take(0) =~= seq![]);
    }
}

/// A frame of zero length changes nothing: no enemy, bullet or player moves,
/// nothing is hit and the game state stays. This holds of a settled frame:
/// the game running, no key pressed, the player in its range, the formation
/// non-empty, inside its edges and above the defender line, every bullet
/// inside the field, and no bullet within reach of an enemy.
pub proof fn zero_length_tick_is_idle(w: World, input: Input)
    requires
        w.state == GameState::Playing,
        !input.fire,
        !input.reset,
        w.player.in_range(),
        w.enemies.len() > 0,
        forall|a: int| 0 <= a < w.enemies.len() ==> !off_edge(#[trigger] w.enemies[a]),
        forall|a: int| 0 <= a < w.enemies.len() ==> !(#[trigger] w.enemies[a]).breached(),
        forall|b: int| 0 <= b < w.bullets.len() ==> (#[trigger] w.bullets[b]).y >= 0,
        forall|a: int, b: int|
            0 <= a < w.enemies.len() && 0 <= b < w.bullets.len() ==> !collides(
                #[trigger] w.bullets[b],
                #[trigger] w.enemies[a],
            ),
    ensures
        tick_world(w, input, 0) == (w, quiet_report()),
{
    let es = w.enemies;
    let bs = w.bullets;
    assert forall|k: int| 0 <= k < es.len() implies #[trigger] es[k].moved(w.enemy_speed, 0) == es[k] by {
        assert(travel(w.enemy_speed as int, es[k].enemy_type.spec_speed_multiplier() as int, 0) == 0)
            by (nonlinear_arith);
    }
    assert(moved_enemies(es, w.enemy_speed, 0) =~= es);
    assert(!any_off_edge(es));
    assert(moved_bullets(bs, 0) =~= bs);
    lemma_in_field_all(bs, bs.len());
    assert(bs.take(bs.len() as int) =~= bs);
    lemma_resolve_quiet(es, bs, es.len());
    lemma_unspent_none(bs, resolve(es, bs, es.len()).spent, bs.len());
    assert(es.take(es.len() as int) =~= es);
    assert(resolve(es, bs, es.len()).events =~= seq![]);
    assert(w.player.moved(input.left, input.right, 0) == w.player);
    assert(!any_breached(es));
    let r = tick_world(w, input, 0);
    assert(r.0 =~= w);
    assert(r.1 =~= quiet_report());
}

} // verus!
