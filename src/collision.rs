//! Bullet/enemy collision detection and resolution.
use vstd::prelude::*;
use crate::bullet::Bullet;
use crate::constants::COLLISION_RADIUS;
use crate::enemy::Enemy;

verus! {

/// What a destroyed enemy reports: its position and its point value.
pub type Destruction = (i64, i64, u32);

/// The centres of the two are closer than the collision radius.
pub open spec fn collides(b: Bullet, e: Enemy) -> bool {
    (e.x - b.x) * (e.x - b.x) + (e.y - b.y) * (e.y - b.y) < COLLISION_RADIUS * COLLISION_RADIUS
}

/// Index of the first bullet, from `j` on, that is not spent and hits `e`.
pub open spec fn first_hit(e: Enemy, bs: Seq<Bullet>, spent: Seq<bool>, j: int) -> Option<int>
    decreases bs.len() - j,
{
    if 0 <= j < bs.len() {
        if !spent[j] && collides(bs[j], e) {
            Some(j)
        } else {
            first_hit(e, bs, spent, j + 1)
        }
    } else {
        None
    }
}

/// State of a collision pass after some prefix of the enemies.
pub struct Resolution {
    pub survivors: Seq<Enemy>,
    pub spent: Seq<bool>,
    pub events: Seq<Destruction>,
}

/// The collision pass over the first `k` enemies: each takes the first free
/// bullet in range, if any, which is then spent.
pub open spec fn resolve(es: Seq<Enemy>, bs: Seq<Bullet>, k: nat) -> Resolution
    decreases k,
{
    if k == 0 {
        Resolution { survivors: seq![], spent: Seq::new(bs.len(), |_i: int| false), events: seq![] }
    } else {
        let prev = resolve(es, bs, (k - 1) as nat);
        let e = es[k - 1];
        match first_hit(e, bs, prev.spent, 0) {
            None => Resolution { survivors: prev.survivors.push(e), ..prev },
            Some(j) => {
                let d = e.damaged();
                if d.health == 0 {
                    Resolution {
                        spent: prev.spent.update(j, true),
                        events: prev.events.push((e.x, e.y, e.enemy_type.spec_points())),
                        ..prev
                    }
                } else {
                    Resolution {
                        survivors: prev.survivors.push(d),
                        spent: prev.spent.update(j, true),
                        ..prev
                    }
                }
            },
        }
    }
}

/// The first `n` bullets that are not spent, in order.
pub open spec fn unspent(bs: Seq<Bullet>, spent: Seq<bool>, n: nat) -> Seq<Bullet>
    decreases n,
{
    if n == 0 {
        seq![]
    } else {
        let rest = unspent(bs, spent, (n - 1) as nat);
        if spent[n - 1] {
            rest
        } else {
            rest.push(bs[n - 1])
        }
    }
}

/// The whole pass: surviving enemies, remaining bullets, destruction events.
pub open spec fn collision_outcome(es: Seq<Enemy>, bs: Seq<Bullet>) -> (
    Seq<Enemy>,
    Seq<Bullet>,
    Seq<Destruction>,
) {
    let r = resolve(es, bs, es.len());
    (r.survivors, unspent(bs, r.spent, bs.len()), r.events)
}

/// Whether the bullet is within the collision radius of the enemy.
pub fn check_collision(bullet: &Bullet, enemy: &Enemy) -> (r: bool)
    ensures
        r == collides(*bullet, *enemy),
{
    let dx: i128 = enemy.x as i128 - bullet.x as i128;
    let dy: i128 = enemy.y as i128 - bullet.y as i128;
    let radius: i128 = COLLISION_RADIUS as i128;
    if dx >= radius || dx <= -radius || dy >= radius || dy <= -radius {
        assert(dx * dx + dy * dy >= radius * radius) by (nonlinear_arith)
            requires
                radius > 0,
                dx >= radius || dx <= -radius || dy >= radius || dy <= -radius,
        ;
        false
    } else {
        assert(0 <= dx * dx <= radius * radius) by (nonlinear_arith)
            requires
                -radius < dx < radius,
        ;
        assert(0 <= dy * dy <= radius * radius) by (nonlinear_arith)
            requires
                -radius < dy < radius,
        ;
        let sx: i128 = dx * dx;
        let sy: i128 = dy * dy;
        sx + sy < radius * radius
    }
}

/// Resolves this frame's hits. Each enemy, in order, is hit by the first
/// bullet in range that no earlier enemy spent; a hit costs the enemy one
/// health and spends the bullet. Enemies whose health reaches zero leave the
/// collection and are reported, in order, as (x, y, points); spent bullets
/// leave theirs. The order of what remains is kept.
pub fn process_collisions(enemies: &mut Vec<Enemy>, bullets: &mut Vec<Bullet>) -> (r: Vec<Destruction>)
    ensures
        final(enemies)@ == collision_outcome(old(enemies)@, old(bullets)@).0,
        final(bullets)@ == collision_outcome(old(enemies)@, old(bullets)@).1,
        r@ == collision_outcome(old(enemies)@, old(bullets)@).2,
{
    let ghost es = enemies@;
    let ghost bs = bullets@;
    let n = enemies.len();
    let m = bullets.len();
    let mut spent: Vec<bool> = Vec::new();
    let mut t: usize = 0;
    while t < m
        invariant
            t <= m,
            spent@ == Seq::new(t as nat, |_i: int| false),
        decreases m - t,
    {
        spent.push(false);
        t = t + 1;
    }
    assert(spent@ =~= resolve(es, bs, 0).spent);
    let mut survivors: Vec<Enemy> = Vec::new();
    let mut events: Vec<Destruction> = Vec::new();
    let mut i: usize = 0;
    while i < n
        invariant
            i <= n,
            n == es.len(),
            m == bs.len(),
            enemies@ == es,
            bullets@ == bs,
            spent@.len() == m,
            survivors@ == resolve(es, bs, i as nat).survivors,
            spent@ == resolve(es, bs, i as nat).spent,
            events@ == resolve(es, bs, i as nat).events,
        decreases n - i,
    {
        let e = enemies[i];
        let mut j: usize = 0;
        let mut found = false;
        while j < m && !found
            invariant
                j <= m,
                m == bs.len(),
                bullets@ == bs,
                spent@.len() == m,
                found ==> j < m && first_hit(e, bs, spent@, 0) == Some(j as int),
                !found ==> first_hit(e, bs, spent@, 0) == first_hit(e, bs, spent@, j as int),
            decreases m - j + (if found { 0int } else { 1int }),
        {
            if !spent[j] && check_collision(&bullets[j], &e) {
                found = true;
            } else {
                j = j + 1;
            }
        }
        if found {
            spent.set(j, true);
            let mut d = e;
            let destroyed = d.take_damage();
            if destroyed {
                events.push((e.x, e.y, e.enemy_type.points()));
            } else {
                survivors.push(d);
            }
        } else {
            survivors.push(e);
        }
        i = i + 1;
    }
    let mut kept: Vec<Bullet> = Vec::new();
    let mut k: usize = 0;
    while k < m
        invariant
            k <= m,
            m == bs.len(),
            bullets@ == bs,
            spent@.len() == m,
            kept@ == unspent(bs, spent@, k as nat),
        decreases m - k,
    {
        if !spent[k] {
            kept.push(bullets[k]);
        }
        k = k + 1;
    }
    *enemies = survivors;
    *bullets = kept;
    events
}

/// Number of spent marks among the first `n`.
pub open spec fn spent_count(spent: Seq<bool>, n: nat) -> nat
    decreases n,
{
    if n == 0 {
        0
    } else {
        spent_count(spent, (n - 1) as nat) + if spent[n - 1] { 1nat } else { 0nat }
    }
}

proof fn lemma_unspent_len(bs: Seq<Bullet>, spent: Seq<bool>, n: nat)
    ensures
        unspent(bs, spent, n).len() + spent_count(spent, n) == n,
    decreases n,
{
    if n > 0 {
        lemma_unspent_len(bs, spent, (n - 1) as nat);
    }
}

proof fn lemma_first_hit_is_free(e: Enemy, bs: Seq<Bullet>, spent: Seq<bool>, j: int)
    ensures
        first_hit(e, bs, spent, j) matches Some(h) ==> j <= h < bs.len() && !spent[h],
    decreases bs.len() - j,
{
    if 0 <= j < bs.len() {
        lemma_first_hit_is_free(e, bs, spent, j + 1);
    }
}

proof fn lemma_count_mark(spent: Seq<bool>, h: int, n: nat)
    requires
        n <= spent.len(),
        0 <= h < spent.len(),
        !spent[h],
    ensures
        spent_count(spent.update(h, true), n) == spent_count(spent, n) + if h < n { 1nat } else { 0nat },
    decreases n,
{
    if n > 0 {
        lemma_count_mark(spent, h, (n - 1) as nat);
    }
}

proof fn lemma_resolve_spends_at_most_one_each(es: Seq<Enemy>, bs: Seq<Bullet>, k: nat)
    requires
        k <= es.len(),
    ensures
        resolve(es, bs, k).spent.len() == bs.len(),
        spent_count(resolve(es, bs, k).spent, bs.len()) <= k,
    decreases k,
{
    if k == 0 {
        let none = Seq::new(bs.len(), |_i: int| false);
        assert forall|n: nat| n <= bs.len() implies spent_count(none, n) == 0 by {
            lemma_count_none(none, n);
        }
    } else {
        lemma_resolve_spends_at_most_one_each(es, bs, (k - 1) as nat);
        let prev = resolve(es, bs, (k - 1) as nat);
        lemma_first_hit_is_free(es[k - 1], bs, prev.spent, 0);
        if let Some(h) = first_hit(es[k - 1], bs, prev.spent, 0) {
            lemma_count_mark(prev.spent, h, bs.len());
        }
    }
}

proof fn lemma_count_none(spent: Seq<bool>, n: nat)
    requires
        n <= spent.len(),
        forall|k: int| 0 <= k < spent.len() ==> !spent[k],
    ensures
        spent_count(spent, n) == 0,
    decreases n,
{
    if n > 0 {
        lemma_count_none(spent, (n - 1) as nat);
    }
}

proof fn lemma_resolve_accounts_for_all(es: Seq<Enemy>, bs: Seq<Bullet>, k: nat)
    requires
        k <= es.len(),
    ensures
        resolve(es, bs, k).survivors.len() + resolve(es, bs, k).events.len() == k,
    decreases k,
{
    if k > 0 {
        lemma_resolve_accounts_for_all(es, bs, (k - 1) as nat);
    }
}

/// A collision pass spends at most one bullet per enemy: the bullets it
/// removes never outnumber the enemies. Every enemy it removes is reported
/// as destroyed.
pub proof fn at_most_one_bullet_per_enemy(es: Seq<Enemy>, bs: Seq<Bullet>)
    ensures
        bs.len() - collision_outcome(es, bs).1.len() <= es.len(),
        collision_outcome(es, bs).1.len() <= bs.len(),
        collision_outcome(es, bs).0.len() + collision_outcome(es, bs).2.len() == es.len(),
{
    lemma_resolve_accounts_for_all(es, bs, es.len());
    lemma_resolve_spends_at_most_one_each(es, bs, es.len());
    let r = resolve(es, bs, es.len());
    lemma_unspent_len(bs, r.spent, bs.len());
}

} // verus!
