//! Pairing bullets off against what they strike.
//!
//! Bullets are taken in order. Each strikes the first target it touches, if any; both
//! then leave, so a later bullet cannot strike a target that an earlier one struck, and
//! no bullet strikes twice.

use crate::body::{bodies_of, is_near, near, touching, Body, Mobile};
use crate::bullet::{bullet_bodies, Bullet};
use crate::scale::valid_block_size;
use vstd::prelude::*;

verus! {

/// How many blocks apart vertically a bullet and its target may be and still touch.
pub const STRIKE_HEIGHT: i64 = 2;

/// How many blocks apart vertically the player and what kills it may be and still touch.
pub const FATAL_HEIGHT: i64 = 1;

/// The index of the first target from `from` on that the bullet touches.
pub open spec fn first_touch(b: Body, targets: Seq<Body>, bs: int, from: int) -> Option<int>
    decreases targets.len() - from,
{
    if from < 0 || from >= targets.len() {
        None
    } else if touching(b, targets[from], bs, STRIKE_HEIGHT as int) {
        Some(from)
    } else {
        first_touch(b, targets, bs, from + 1)
    }
}

/// The body is less than a block away from the point `(x, y)` horizontally and less
/// than `FATAL_HEIGHT` blocks vertically.
pub open spec fn reaches(b: Body, x: int, y: int, bs: int) -> bool {
    near(x, y, b.x, b.y, bs, FATAL_HEIGHT * bs)
}

/// Some body of the sequence reaches the point `(x, y)`.
pub open spec fn any_reaches(others: Seq<Body>, x: int, y: int, bs: int) -> bool {
    exists|i: int| 0 <= i < others.len() && reaches(#[trigger] others[i], x, y, bs)
}

/// What is left when bullets have been paired off against targets.
pub struct Outcome {
    /// The bullets that struck nothing, in order.
    pub bullets: Seq<Body>,
    /// The targets that no bullet struck, in order.
    pub targets: Seq<Body>,
    /// The targets that were struck, in the order of the bullets that struck them.
    pub struck: Seq<Body>,
}

/// Pairs the bullets off against the targets.
pub open spec fn pair_off(bullets: Seq<Body>, targets: Seq<Body>, bs: int) -> Outcome
    decreases bullets.len(),
{
    if bullets.len() == 0 {
        Outcome { bullets: Seq::empty(), targets, struck: Seq::empty() }
    } else {
        match first_touch(bullets.first(), targets, bs, 0) {
            Some(k) => {
                let rest = pair_off(bullets.drop_first(), targets.remove(k), bs);
                Outcome { struck: seq![targets[k]] + rest.struck, ..rest }
            },
            None => {
                let rest = pair_off(bullets.drop_first(), targets, bs);
                Outcome { bullets: seq![bullets.first()] + rest.bullets, ..rest }
            },
        }
    }
}

/// Pairing off loses nothing and invents nothing: every target is either left or
/// struck, and every bullet is either left or has struck exactly one target.
pub proof fn lemma_pair_off_counts(bullets: Seq<Body>, targets: Seq<Body>, bs: int)
    ensures
        pair_off(bullets, targets, bs).targets.len() + pair_off(bullets, targets, bs).struck.len()
            == targets.len(),
        pair_off(bullets, targets, bs).bullets.len() + pair_off(bullets, targets, bs).struck.len()
            == bullets.len(),
    decreases bullets.len(),
{
    if bullets.len() > 0 {
        lemma_first_touch(bullets.first(), targets, bs, 0);
        match first_touch(bullets.first(), targets, bs, 0) {
            Some(k) => {
                lemma_pair_off_counts(bullets.drop_first(), targets.remove(k), bs);
            },
            None => {
                lemma_pair_off_counts(bullets.drop_first(), targets, bs);
            },
        }
    }
}

/// The first touch, where there is one, is a target that the bullet touches, and the
/// bullet touches none before it; where there is none, the bullet touches no target
/// from `from` on.
pub proof fn lemma_first_touch(b: Body, targets: Seq<Body>, bs: int, from: int)
    requires
        0 <= from,
    ensures
        match first_touch(b, targets, bs, from) {
            Some(k) => from <= k < targets.len() && touching(
                b,
                targets[k],
                bs,
                STRIKE_HEIGHT as int,
            ) && forall|j: int| from <= j < k ==> !touching(b, #[trigger] targets[j], bs, STRIKE_HEIGHT as int),
            None => forall|j: int|
                from <= j < targets.len() ==> !touching(
                    b,
                    #[trigger] targets[j],
                    bs,
                    STRIKE_HEIGHT as int,
                ),
        },
    decreases targets.len() - from,
{
    if from < targets.len() && !touching(b, targets[from], bs, STRIKE_HEIGHT as int) {
        lemma_first_touch(b, targets, bs, from + 1);
    }
}

/// Finds the first target that the bullet touches.
pub fn find_first_touch<T: Mobile>(bullet: &Bullet, targets: &Vec<T>, block_size: i64) -> (found:
    Option<usize>)
    requires
        valid_block_size(block_size as int),
    ensures
        found.is_some() == first_touch(bullet@, bodies_of(targets@), block_size as int, 0).is_some(),
        found.is_some() ==> found.unwrap() as int == first_touch(
            bullet@,
            bodies_of(targets@),
            block_size as int,
            0,
        ).unwrap(),
{
    let ghost bodies = bodies_of(targets@);
    let mut k: usize = 0;
    while k < targets.len()
        invariant
            k <= targets@.len(),
            bodies == bodies_of(targets@),
            valid_block_size(block_size as int),
            first_touch(bullet@, bodies, block_size as int, 0) == first_touch(
                bullet@,
                bodies,
                block_size as int,
                k as int,
            ),
        decreases targets@.len() - k,
    {
        let pos = targets[k].position();
        assert(bodies[k as int] == targets@[k as int]@);
        if is_near(bullet.pos, pos, block_size, STRIKE_HEIGHT * block_size) {
            return Some(k);
        }
        k += 1;
    }
    None
}

/// Tells whether some target reaches the point `at`.
pub fn any_touches<T: Mobile>(at: (i64, i64), targets: &Vec<T>, block_size: i64) -> (hit: bool)
    requires
        valid_block_size(block_size as int),
    ensures
        hit == any_reaches(bodies_of(targets@), at.0 as int, at.1 as int, block_size as int),
{
    let ghost bodies = bodies_of(targets@);
    let mut k: usize = 0;
    while k < targets.len()
        invariant
            k <= targets@.len(),
            bodies == bodies_of(targets@),
            valid_block_size(block_size as int),
            forall|i: int|
                0 <= i < k ==> !reaches(
                    #[trigger] bodies[i],
                    at.0 as int,
                    at.1 as int,
                    block_size as int,
                ),
        decreases targets@.len() - k,
    {
        let pos = targets[k].position();
        assert(bodies[k as int] == targets@[k as int]@);
        if is_near(at, pos, block_size, FATAL_HEIGHT * block_size) {
            return true;
        }
        k += 1;
    }
    false
}

/// Pairs the bullets off against the targets. The targets that were struck are taken
/// out of `targets`; the bullets that struck nothing and the targets that were struck
/// are returned.
pub fn strike<T: Mobile>(bullets: &Vec<Bullet>, targets: &mut Vec<T>, block_size: i64) -> (left: (
    Vec<Bullet>,
    Vec<T>,
))
    requires
        valid_block_size(block_size as int),
    ensures
        bullet_bodies(left.0@) == pair_off(
            bullet_bodies(bullets@),
            bodies_of(old(targets)@),
            block_size as int,
        ).bullets,
        bodies_of(final(targets)@) == pair_off(
            bullet_bodies(bullets@),
            bodies_of(old(targets)@),
            block_size as int,
        ).targets,
        bodies_of(left.1@) == pair_off(
            bullet_bodies(bullets@),
            bodies_of(old(targets)@),
            block_size as int,
        ).struck,
{
    let ghost all = bullet_bodies(bullets@);
    let ghost bs = block_size as int;
    let ghost goal = pair_off(all, bodies_of(targets@), bs);
    let mut kept: Vec<Bullet> = Vec::new();
    let mut struck: Vec<T> = Vec::new();
    let mut i: usize = 0;
    proof {
        assert(all.skip(0) =~= all);
        assert(bullet_bodies(kept@) =~= Seq::empty());
        assert(bodies_of(struck@) =~= Seq::empty());
        assert(Seq::<Body>::empty() + goal.bullets =~= goal.bullets);
        assert(Seq::<Body>::empty() + goal.struck =~= goal.struck);
    }
    while i < bullets.len()
        invariant
            i <= bullets@.len(),
            all == bullet_bodies(bullets@),
            bs == block_size as int,
            valid_block_size(bs),
            goal.bullets == bullet_bodies(kept@) + pair_off(
                all.skip(i as int),
                bodies_of(targets@),
                bs,
            ).bullets,
            goal.targets == pair_off(all.skip(i as int), bodies_of(targets@), bs).targets,
            goal.struck == bodies_of(struck@) + pair_off(
                all.skip(i as int),
                bodies_of(targets@),
                bs,
            ).struck,
        decreases bullets@.len() - i,
    {
        let bullet = bullets[i];
        let ghost here = bodies_of(targets@);
        let ghost rest = all.skip(i as int);
        proof {
            assert(rest.first() == bullet@);
            assert(rest.drop_first() =~= all.skip(i + 1));
            lemma_first_touch(bullet@, here, bs, 0);
        }
        match find_first_touch(&bullet, targets, block_size) {
            Some(k) => {
                let ghost before = targets@;
                let ghost taken = struck@;
                let target = targets.remove(k);
                struck.push(target);
                proof {
                    let after = pair_off(all.skip(i + 1), here.remove(k as int), bs);
                    assert(bodies_of(targets@) =~= here.remove(k as int));
                    assert(bodies_of(struck@) =~= bodies_of(taken).push(here[k as int]));
                    assert(bodies_of(taken) + (seq![here[k as int]] + after.struck) =~= bodies_of(
                        taken,
                    ).push(here[k as int]) + after.struck);
                }
            },
            None => {
                let ghost shorter = kept@;
                kept.push(bullet);
                proof {
                    let after = pair_off(all.skip(i + 1), here, bs);
                    assert(bullet_bodies(kept@) =~= bullet_bodies(shorter).push(bullet@));
                    assert(bullet_bodies(shorter) + (seq![bullet@] + after.bullets)
                        =~= bullet_bodies(shorter).push(bullet@) + after.bullets);
                }
            },
        }
        i += 1;
    }
    proof {
        assert(bullet_bodies(kept@) + Seq::<Body>::empty() =~= bullet_bodies(kept@));
        assert(bodies_of(struck@) + Seq::<Body>::empty() =~= bodies_of(struck@));
    }
    (kept, struck)
}

} // verus!
