use crate::angle::cos_of;
use crate::angle::dir_from_mrad;
use crate::angle::sin_of;
use crate::asteroid::Asteroid;
use crate::bullet::Bullet;
use crate::bullet::bullet_live_spec;
use crate::fixed::lemma_scale_trunc_bounded;
use crate::fixed::mul_frac;
use crate::fixed::scale_trunc;
use crate::geom::COORD_LIMIT;
use crate::geom::Rect;
use crate::geom::Vec2;
use crate::geom::overlaps_spec;
use crate::geom::rect_bounded;
use crate::geom::vec2_bounded;
use vstd::pervasive::VecAdditionalExecFns;
use vstd::prelude::*;

verus! {

// ---------------------------------------------------------------------------
// The one outside dependency of the policy: uniform sampling.
// ---------------------------------------------------------------------------
#[verifier::external_type_specification]
#[verifier::external_body]
pub struct ExThreadRng(rand::rngs::ThreadRng);

/// Relies on rand::Rng::gen_range over the inclusive range `lo..=hi`, which
/// returns a value inside that range and panics only when the range is
/// empty; nothing more is assumed of which value comes back.
#[verifier::external_body]
fn gen_range_i64(rng: &mut rand::rngs::ThreadRng, lo: i64, hi: i64) -> (r: i64)
    requires
        lo <= hi,
    ensures
        lo <= r <= hi,
{
    rand::Rng::gen_range(rng, lo..=hi)
}

// ---------------------------------------------------------------------------
// Hit predicates over the frame's entity sequences.
// ---------------------------------------------------------------------------
/// The asteroid overlaps one of the first `n` bullets.
pub open spec fn hit_by_upto(a: Asteroid, buls: Seq<Bullet>, n: int) -> bool {
    exists|j: int| 0 <= j < n && overlaps_spec(a.rect, buls[j].rect)
}

/// The asteroid overlaps some bullet of the frame.
pub open spec fn asteroid_hit(a: Asteroid, buls: Seq<Bullet>) -> bool {
    hit_by_upto(a, buls, buls.len() as int)
}

/// The bullet overlaps one of the first `n` asteroids.
pub open spec fn hits_upto(b: Bullet, asts: Seq<Asteroid>, n: int) -> bool {
    exists|i: int| 0 <= i < n && overlaps_spec(asts[i].rect, b.rect)
}

/// The bullet overlaps some asteroid of the frame.
pub open spec fn bullet_hit(b: Bullet, asts: Seq<Asteroid>) -> bool {
    hits_upto(b, asts, asts.len() as int)
}

/// The asteroid with only its removal mark set to `c`.
pub open spec fn with_mark_a(a: Asteroid, c: bool) -> Asteroid {
    Asteroid {
        position: a.position,
        velocity: a.velocity,
        rotation: a.rotation,
        rect: a.rect,
        collided: c,
        large: a.large,
    }
}

/// The bullet with only its removal mark set to `c`.
pub open spec fn with_mark_b(b: Bullet, c: bool) -> Bullet {
    Bullet {
        position: b.position,
        velocity: b.velocity,
        rect: b.rect,
        created_at: b.created_at,
        collided: c,
    }
}

// ---------------------------------------------------------------------------
// Counting the overlapping (large asteroid, bullet) pairs of a frame.
// ---------------------------------------------------------------------------
/// Overlaps between one asteroid and the first `n` bullets, counted only
/// when the asteroid is large (those are the pairs that spawn children).
pub open spec fn row_pairs_upto(a: Asteroid, buls: Seq<Bullet>, n: int) -> int
    decreases n,
{
    if n <= 0 {
        0
    } else {
        row_pairs_upto(a, buls, n - 1) + if a.large && overlaps_spec(a.rect, buls[n - 1].rect) {
            1int
        } else {
            0int
        }
    }
}

pub open spec fn row_pairs(a: Asteroid, buls: Seq<Bullet>) -> int {
    row_pairs_upto(a, buls, buls.len() as int)
}

/// Overlapping (large asteroid, bullet) pairs among the first `n` asteroids.
pub open spec fn large_pairs_upto(asts: Seq<Asteroid>, buls: Seq<Bullet>, n: int) -> int
    decreases n,
{
    if n <= 0 {
        0
    } else {
        large_pairs_upto(asts, buls, n - 1) + row_pairs(asts[n - 1], buls)
    }
}

/// All overlapping (large asteroid, bullet) pairs of the frame.
pub open spec fn large_pairs(asts: Seq<Asteroid>, buls: Seq<Bullet>) -> int {
    large_pairs_upto(asts, buls, asts.len() as int)
}

pub proof fn lemma_row_pairs_nonneg(a: Asteroid, buls: Seq<Bullet>, n: int)
    ensures
        0 <= row_pairs_upto(a, buls, n),
    decreases n,
{
    if n > 0 {
        lemma_row_pairs_nonneg(a, buls, n - 1);
    }
}

pub proof fn lemma_large_pairs_nonneg(asts: Seq<Asteroid>, buls: Seq<Bullet>, n: int)
    ensures
        0 <= large_pairs_upto(asts, buls, n),
    decreases n,
{
    if n > 0 {
        lemma_large_pairs_nonneg(asts, buls, n - 1);
        lemma_row_pairs_nonneg(asts[n - 1], buls, buls.len() as int);
    }
}

// ---------------------------------------------------------------------------
// Children of a split.
// ---------------------------------------------------------------------------
/// The shape of every child of a split at `parent_pos`: spawned at the
/// parent's last position, small, unmarked, with a heading sampled in
/// `[-10, 10]` radians (milliradians here) mapped through the unit circle
/// and scaled by a speed in `[0.1, 1.0]` units per frame.
pub open spec fn child_shape(c: Asteroid, parent_pos: Vec2, extent: Vec2) -> bool {
    &&& c.position == parent_pos
    &&& !c.large
    &&& !c.collided
    &&& -10_000 <= c.rotation <= 10_000
    &&& vec2_bounded(c.velocity, 1000)
    &&& c.rect == (Rect { x: parent_pos.x, y: parent_pos.y, w: extent.x, h: extent.y })
    &&& (exists|sp: int|
        100 <= sp <= 1000 && c.velocity.x == scale_trunc(cos_of(c.rotation as int), sp, 1000)
            && c.velocity.y == scale_trunc(sin_of(c.rotation as int), sp, 1000))
}

/// One child, with freshly sampled heading and speed.
fn sample_child(parent_pos: Vec2, extent: Vec2, rng: &mut rand::rngs::ThreadRng) -> (c: Asteroid)
    ensures
        child_shape(c, parent_pos, extent),
{
    let heading = gen_range_i64(rng, -10_000, 10_000);
    let speed = gen_range_i64(rng, 100, 1000);
    let d = dir_from_mrad(heading);
    proof {
        lemma_scale_trunc_bounded(d.x as int, speed as int, 1000, 1000);
        lemma_scale_trunc_bounded(d.y as int, speed as int, 1000, 1000);
    }
    let vx = mul_frac(d.x, speed, 1000);
    let vy = mul_frac(d.y, speed, 1000);
    Asteroid {
        position: parent_pos,
        velocity: Vec2 { x: vx, y: vy },
        rotation: heading,
        rect: Rect { x: parent_pos.x, y: parent_pos.y, w: extent.x, h: extent.y },
        collided: false,
        large: false,
    }
}

/// One split: first sample `n` in `[3, 8]`, then spawn one child for each
/// step of `2..n`, so a split always appends between 1 and 6 children.
pub fn spawn_children(
    parent_pos: Vec2,
    extent: Vec2,
    rng: &mut rand::rngs::ThreadRng,
    out: &mut Vec<Asteroid>,
)
    ensures
        old(out)@.len() + 1 <= final(out)@.len() <= old(out)@.len() + 6,
        forall|k: int| #![auto] 0 <= k < old(out)@.len() ==> final(out)@[k] == old(out)@[k],
        forall|k: int| #![auto]
            old(out)@.len() <= k < final(out)@.len() ==> child_shape(
                final(out)@[k],
                parent_pos,
                extent,
            ),
{
    let n = gen_range_i64(rng, 3, 8);
    let mut t: i64 = 2;
    while t < n
        invariant
            2 <= t <= n,
            3 <= n <= 8,
            out@.len() == old(out)@.len() + (t - 2),
            forall|k: int| #![auto] 0 <= k < old(out)@.len() ==> out@[k] == old(out)@[k],
            forall|k: int| #![auto]
                old(out)@.len() <= k < out@.len() ==> child_shape(out@[k], parent_pos, extent),
        decreases n - t,
    {
        let c = sample_child(parent_pos, extent, rng);
        out.push(c);
        t = t + 1;
    }
}




/// A freshly launched large asteroid: a random position on the screen, a
/// heading sampled in `[-10, 10]` radians mapped through the unit circle,
/// and a speed in `[0.1, 1.0]` units per frame, kept constant thereafter.
pub fn spawn_large(
    width: i64,
    height: i64,
    extent: Vec2,
    rng: &mut rand::rngs::ThreadRng,
) -> (a: Asteroid)
    requires
        0 <= width <= COORD_LIMIT,
        0 <= height <= COORD_LIMIT,
    ensures
        a.large,
        !a.collided,
        0 <= a.position.x <= width,
        0 <= a.position.y <= height,
        -10_000 <= a.rotation <= 10_000,
        vec2_bounded(a.velocity, 1000),
        a.rect == (Rect { x: a.position.x, y: a.position.y, w: extent.x, h: extent.y }),
        (exists|sp: int|
            100 <= sp <= 1000 && a.velocity.x == scale_trunc(cos_of(a.rotation as int), sp, 1000)
                && a.velocity.y == scale_trunc(sin_of(a.rotation as int), sp, 1000)),
{
    let x = gen_range_i64(rng, 0, width);
    let y = gen_range_i64(rng, 0, height);
    let mut a = sample_child(Vec2 { x, y }, extent, rng);
    a.large = true;
    a
}

// ---------------------------------------------------------------------------
// The pairwise scan.
// ---------------------------------------------------------------------------
/// The child is shaped by `child_shape` at the position of some large
/// asteroid of the frame that a bullet hit.
pub open spec fn child_of_hit_parent(
    c: Asteroid,
    asts: Seq<Asteroid>,
    buls: Seq<Bullet>,
    extent: Vec2,
) -> bool {
    exists|k: int|
        #![trigger asts[k]]
        0 <= k < asts.len() && asts[k].large && asteroid_hit(asts[k], buls) && child_shape(
            c,
            asts[k].position,
            extent,
        )
}

/// Some spawned child sits at `pos`.
pub open spec fn has_child_at(children: Seq<Asteroid>, pos: Vec2) -> bool {
    exists|c: int|
        #![trigger children[c]]
        0 <= c < children.len() && children[c].position == pos
}

/// Extending the child list never loses a child already present.
pub proof fn lemma_has_child_at_extends(s1: Seq<Asteroid>, s2: Seq<Asteroid>, pos: Vec2)
    requires
        s1.len() <= s2.len(),
        forall|k: int| #![trigger s2[k]] 0 <= k < s1.len() ==> s2[k] == s1[k],
        has_child_at(s1, pos),
    ensures
        has_child_at(s2, pos),
{
    let c = choose|c: int| #![trigger s1[c]] 0 <= c < s1.len() && s1[c].position == pos;
    assert(s2[c].position == pos);
}

/// What one pairwise scan of a frame leaves behind: every asteroid and
/// bullet carries its old mark or-ed with whether it overlaps something on
/// the other side (the scan does not short-circuit, so one bullet can mark
/// many asteroids and one asteroid many bullets in the same frame); each
/// overlapping (large asteroid, bullet) pair appends between 1 and 6
/// children, all shaped by `child_shape` at a hit parent's last position,
/// and every hit large asteroid leaves at least one child behind.
pub open spec fn scan_rel(
    asts: Seq<Asteroid>,
    buls: Seq<Bullet>,
    m_asts: Seq<Asteroid>,
    m_buls: Seq<Bullet>,
    children: Seq<Asteroid>,
    extent: Vec2,
) -> bool {
    &&& m_asts.len() == asts.len()
    &&& (forall|i: int| #![auto]
        0 <= i < asts.len() ==> m_asts[i] == with_mark_a(
            asts[i],
            asts[i].collided || asteroid_hit(asts[i], buls),
        ))
    &&& m_buls.len() == buls.len()
    &&& (forall|j: int| #![auto]
        0 <= j < buls.len() ==> m_buls[j] == with_mark_b(
            buls[j],
            buls[j].collided || bullet_hit(buls[j], asts),
        ))
    &&& large_pairs(asts, buls) <= children.len() <= 6 * large_pairs(asts, buls)
    &&& (forall|c: int| #![trigger children[c]]
        0 <= c < children.len() ==> child_of_hit_parent(children[c], asts, buls, extent))
    &&& (forall|k: int| #![trigger asts[k]]
        0 <= k < asts.len() && asts[k].large && asteroid_hit(asts[k], buls) ==> has_child_at(
            children,
            asts[k].position,
        ))
}

/// The frame's pairwise collision pass: test every (asteroid, bullet) pair
/// for bounding-box overlap, mark both sides of each overlap, and collect
/// the children of every large asteroid's split. Children are returned
/// apart and appended only after the scan, so they are never tested against
/// this frame's bullets.
#[verifier::loop_isolation(false)]
pub fn collision_scan(
    asteroids: &mut Vec<Asteroid>,
    bullets: &mut Vec<Bullet>,
    child_extent: Vec2,
    rng: &mut rand::rngs::ThreadRng,
) -> (children: Vec<Asteroid>)
    requires
        forall|i: int| #![auto]
            0 <= i < old(asteroids)@.len() ==> rect_bounded(old(asteroids)@[i].rect),
        forall|j: int| #![auto] 0 <= j < old(bullets)@.len() ==> rect_bounded(old(bullets)@[j].rect),
    ensures
        scan_rel(
            old(asteroids)@,
            old(bullets)@,
            final(asteroids)@,
            final(bullets)@,
            children@,
            child_extent,
        ),
{
    let mut children: Vec<Asteroid> = Vec::new();
    let mut i: usize = 0;
    proof {
        lemma_large_pairs_nonneg(old(asteroids)@, old(bullets)@, old(asteroids)@.len() as int);
    }
    while i < asteroids.len()
        invariant
            0 <= i <= asteroids@.len(),
            asteroids@.len() == old(asteroids)@.len(),
            bullets@.len() == old(bullets)@.len(),
            forall|k: int| #![auto]
                0 <= k < asteroids@.len() ==> asteroids@[k] == with_mark_a(
                    old(asteroids)@[k],
                    asteroids@[k].collided,
                ),
            forall|k: int| #![auto]
                0 <= k < i ==> asteroids@[k].collided == (old(asteroids)@[k].collided
                    || asteroid_hit(old(asteroids)@[k], old(bullets)@)),
            forall|k: int| #![auto]
                i <= k < asteroids@.len() ==> asteroids@[k].collided == old(
                    asteroids,
                )@[k].collided,
            forall|jj: int| #![auto]
                0 <= jj < bullets@.len() ==> bullets@[jj] == with_mark_b(
                    old(bullets)@[jj],
                    bullets@[jj].collided,
                ),
            forall|jj: int| #![auto]
                0 <= jj < bullets@.len() ==> bullets@[jj].collided == (old(bullets)@[jj].collided
                    || hits_upto(old(bullets)@[jj], old(asteroids)@, i as int)),
            large_pairs_upto(old(asteroids)@, old(bullets)@, i as int) <= children@.len() <= 6
                * large_pairs_upto(old(asteroids)@, old(bullets)@, i as int),
            forall|c: int| #![trigger children@[c]]
                0 <= c < children@.len() ==> child_of_hit_parent(
                    children@[c],
                    old(asteroids)@,
                    old(bullets)@,
                    child_extent,
                ),
            forall|k: int| #![trigger old(asteroids)@[k]]
                0 <= k < i && old(asteroids)@[k].large && asteroid_hit(
                    old(asteroids)@[k],
                    old(bullets)@,
                ) ==> has_child_at(children@, old(asteroids)@[k].position),
        decreases asteroids@.len() - i,
    {
        let mut j: usize = 0;
        while j < bullets.len()
            invariant
                0 <= i < asteroids@.len(),
                0 <= j <= bullets@.len(),
                asteroids@.len() == old(asteroids)@.len(),
                bullets@.len() == old(bullets)@.len(),
                forall|k: int| #![auto]
                    0 <= k < asteroids@.len() ==> asteroids@[k] == with_mark_a(
                        old(asteroids)@[k],
                        asteroids@[k].collided,
                    ),
                forall|k: int| #![auto]
                    0 <= k < i ==> asteroids@[k].collided == (old(asteroids)@[k].collided
                        || asteroid_hit(old(asteroids)@[k], old(bullets)@)),
                asteroids@[i as int].collided == (old(asteroids)@[i as int].collided
                    || hit_by_upto(old(asteroids)@[i as int], old(bullets)@, j as int)),
                forall|k: int| #![auto]
                    i < k < asteroids@.len() ==> asteroids@[k].collided == old(
                        asteroids,
                    )@[k].collided,
                forall|jj: int| #![auto]
                    0 <= jj < bullets@.len() ==> bullets@[jj] == with_mark_b(
                        old(bullets)@[jj],
                        bullets@[jj].collided,
                    ),
                forall|jj: int| #![auto]
                    0 <= jj < bullets@.len() ==> bullets@[jj].collided == (old(
                        bullets,
                    )@[jj].collided || hits_upto(old(bullets)@[jj], old(asteroids)@, i as int) || (
                    jj < j && overlaps_spec(old(asteroids)@[i as int].rect, old(bullets)@[jj].rect))),
                large_pairs_upto(old(asteroids)@, old(bullets)@, i as int) + row_pairs_upto(
                    old(asteroids)@[i as int],
                    old(bullets)@,
                    j as int,
                ) <= children@.len() <= 6 * (large_pairs_upto(
                    old(asteroids)@,
                    old(bullets)@,
                    i as int,
                ) + row_pairs_upto(old(asteroids)@[i as int], old(bullets)@, j as int)),
                forall|c: int| #![trigger children@[c]]
                    0 <= c < children@.len() ==> child_of_hit_parent(
                        children@[c],
                        old(asteroids)@,
                        old(bullets)@,
                        child_extent,
                    ),
                forall|k: int| #![trigger old(asteroids)@[k]]
                    0 <= k < i && old(asteroids)@[k].large && asteroid_hit(
                        old(asteroids)@[k],
                        old(bullets)@,
                    ) ==> has_child_at(children@, old(asteroids)@[k].position),
                old(asteroids)@[i as int].large && hit_by_upto(
                    old(asteroids)@[i as int],
                    old(bullets)@,
                    j as int,
                ) ==> has_child_at(children@, old(asteroids)@[i as int].position),
            decreases bullets@.len() - j,
        {
            let a = asteroids[i];
            let b = bullets[j];
            if a.rect.overlaps(&b.rect) {
                proof {
                    lemma_row_pairs_nonneg(old(asteroids)@[i as int], old(bullets)@, j as int);
                    lemma_large_pairs_nonneg(old(asteroids)@, old(bullets)@, i as int);
                    assert(overlaps_spec(
                        old(asteroids)@[i as int].rect,
                        old(bullets)@[j as int].rect,
                    ));
                }
                let mut ma = a;
                ma.collided = true;
                asteroids.set(i, ma);
                let mut mb = b;
                mb.collided = true;
                bullets.set(j, mb);
                if ma.large {
                    let ghost prev = children@;
                    proof {
                        assert(old(asteroids)@[i as int].large);
                        assert(asteroid_hit(old(asteroids)@[i as int], old(bullets)@));
                    }
                    spawn_children(ma.position, child_extent, rng, &mut children);
                    proof {
                        assert forall|c: int| #![trigger children@[c]]
                            0 <= c < children@.len() implies child_of_hit_parent(
                            children@[c],
                            old(asteroids)@,
                            old(bullets)@,
                            child_extent,
                        ) by {
                            if c < prev.len() {
                                assert(children@[c] == prev[c]);
                                assert(child_of_hit_parent(
                                    prev[c],
                                    old(asteroids)@,
                                    old(bullets)@,
                                    child_extent,
                                ));
                            } else {
                                assert(child_shape(
                                    children@[c],
                                    old(asteroids)@[i as int].position,
                                    child_extent,
                                ));
                            }
                        }
                        assert(children@[prev.len() as int].position == old(
                            asteroids,
                        )@[i as int].position);
                        assert(has_child_at(children@, old(asteroids)@[i as int].position));
                        assert forall|k: int| #![trigger old(asteroids)@[k]]
                            0 <= k < i && old(asteroids)@[k].large && asteroid_hit(
                            old(asteroids)@[k],
                            old(bullets)@,
                        ) implies has_child_at(children@, old(asteroids)@[k].position) by {
                            lemma_has_child_at_extends(
                                prev,
                                children@,
                                old(asteroids)@[k].position,
                            );
                        }
                    }
                }
            }
            j = j + 1;
        }
        i = i + 1;
    }
    children
}


// ---------------------------------------------------------------------------
// The culling pass.
// ---------------------------------------------------------------------------
/// The unmarked asteroids among the first `n`, in order.
pub open spec fn kept_upto(s: Seq<Asteroid>, n: int) -> Seq<Asteroid>
    decreases n,
{
    if n <= 0 {
        Seq::empty()
    } else {
        let r = kept_upto(s, n - 1);
        if s[n - 1].collided {
            r
        } else {
            r.push(s[n - 1])
        }
    }
}

/// The asteroids that survive a frame's culling: the unmarked ones, in order.
pub open spec fn survivors(s: Seq<Asteroid>) -> Seq<Asteroid> {
    kept_upto(s, s.len() as int)
}

/// The live bullets among the first `n`, in order.
pub open spec fn live_upto(s: Seq<Bullet>, now_ms: int, n: int) -> Seq<Bullet>
    decreases n,
{
    if n <= 0 {
        Seq::empty()
    } else {
        let r = live_upto(s, now_ms, n - 1);
        if bullet_live_spec(s[n - 1], now_ms) {
            r.push(s[n - 1])
        } else {
            r
        }
    }
}

/// The bullets that survive a frame's culling: neither collided nor past
/// their time-to-live, in order.
pub open spec fn live_bullets(s: Seq<Bullet>, now_ms: int) -> Seq<Bullet> {
    live_upto(s, now_ms, s.len() as int)
}

/// How many of the first `n` asteroids are marked for removal.
pub open spec fn num_collided_upto(s: Seq<Asteroid>, n: int) -> int
    decreases n,
{
    if n <= 0 {
        0
    } else {
        num_collided_upto(s, n - 1) + if s[n - 1].collided {
            1int
        } else {
            0int
        }
    }
}

pub open spec fn num_collided(s: Seq<Asteroid>) -> int {
    num_collided_upto(s, s.len() as int)
}

/// Culling removes exactly the marked asteroids, no more and no fewer.
pub proof fn lemma_survivors_len(s: Seq<Asteroid>, n: int)
    requires
        0 <= n <= s.len(),
    ensures
        kept_upto(s, n).len() == n - num_collided_upto(s, n),
        0 <= num_collided_upto(s, n) <= n,
    decreases n,
{
    if n > 0 {
        lemma_survivors_len(s, n - 1);
    }
}

/// After the pairwise scan, the frame's culling pass: drop the marked
/// asteroids, drop the collided or expired bullets, and only then append
/// the children spawned this frame, so they are never tested against the
/// bullets of the frame that created them.
#[verifier::loop_isolation(false)]
pub fn cull_and_append(
    asteroids: &mut Vec<Asteroid>,
    bullets: &mut Vec<Bullet>,
    children: Vec<Asteroid>,
    now_ms: i64,
)
    requires
        -COORD_LIMIT <= now_ms <= COORD_LIMIT,
        forall|j: int| #![trigger old(bullets)@[j]]
            0 <= j < old(bullets)@.len() ==> -COORD_LIMIT <= old(bullets)@[j].created_at
                <= COORD_LIMIT,
    ensures
        final(asteroids)@ == survivors(old(asteroids)@) + children@,
        final(bullets)@ == live_bullets(old(bullets)@, now_ms as int),
{
    let mut kept: Vec<Asteroid> = Vec::new();
    let mut i: usize = 0;
    while i < asteroids.len()
        invariant
            0 <= i <= asteroids@.len(),
            kept@ == kept_upto(asteroids@, i as int),
        decreases asteroids@.len() - i,
    {
        let a = asteroids[i];
        if !a.collided {
            kept.push(a);
        }
        i = i + 1;
    }
    let mut c: usize = 0;
    while c < children.len()
        invariant
            0 <= c <= children@.len(),
            kept@ == survivors(asteroids@) + children@.subrange(0, c as int),
        decreases children@.len() - c,
    {
        proof {
            assert(children@.subrange(0, c as int).push(children@[c as int]) =~= children@.subrange(
                0,
                c + 1 as int,
            ));
        }
        kept.push(children[c]);
        c = c + 1;
    }
    proof {
        assert(children@.subrange(0, children@.len() as int) =~= children@);
        assert(survivors(asteroids@) + children@.subrange(0, 0) =~= survivors(asteroids@));
    }
    *asteroids = kept;
    let mut live: Vec<Bullet> = Vec::new();
    let mut j: usize = 0;
    while j < bullets.len()
        invariant
            0 <= j <= bullets@.len(),
            live@ == live_upto(bullets@, now_ms as int, j as int),
        decreases bullets@.len() - j,
    {
        let b = bullets[j];
        if b.is_live(now_ms) {
            live.push(b);
        }
        j = j + 1;
    }
    *bullets = live;
}

// ---------------------------------------------------------------------------
// Frame laws.
// ---------------------------------------------------------------------------
/// The pairwise scan does not short-circuit: one bullet whose box overlaps
/// two distinct large asteroids' boxes marks both in the same frame, and
/// each of the two splits leaves at least one child at its parent's
/// position.
pub proof fn lemma_nonexclusive_collision(
    asts: Seq<Asteroid>,
    buls: Seq<Bullet>,
    m_asts: Seq<Asteroid>,
    m_buls: Seq<Bullet>,
    children: Seq<Asteroid>,
    extent: Vec2,
    i1: int,
    i2: int,
    j: int,
)
    requires
        scan_rel(asts, buls, m_asts, m_buls, children, extent),
        0 <= i1 < asts.len(),
        0 <= i2 < asts.len(),
        i1 != i2,
        0 <= j < buls.len(),
        asts[i1].large,
        asts[i2].large,
        overlaps_spec(asts[i1].rect, buls[j].rect),
        overlaps_spec(asts[i2].rect, buls[j].rect),
    ensures
        m_asts[i1].collided,
        m_asts[i2].collided,
        has_child_at(children, asts[i1].position),
        has_child_at(children, asts[i2].position),
{
    assert(asteroid_hit(asts[i1], buls));
    assert(asteroid_hit(asts[i2], buls));
}

/// One collision event in a frame: when the scan leaves exactly one
/// asteroid marked, the culled-and-appended population holds the old count
/// minus one plus however many children the split sampled.
pub proof fn lemma_single_collision_census(marked: Seq<Asteroid>, children: Seq<Asteroid>)
    requires
        num_collided(marked) == 1,
    ensures
        (survivors(marked) + children).len() == marked.len() - 1 + children.len(),
{
    lemma_survivors_len(marked, marked.len() as int);
}

} // verus!
