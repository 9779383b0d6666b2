//! Frame-scoped hitboxes, hit testing and occlusion.
//!
//! A hitbox is a rectangle registered during prepaint, identified by a
//! frame-local id. Hit testing walks the registered hitboxes from the most
//! recently inserted (painted on top) downward, collecting every hitbox
//! that contains the pointer and stopping below the first opaque one: an
//! opaque hitbox blocks hover delivery to everything registered before it.

use crate::geometry::{Bounds, Point};
use vstd::prelude::*;

verus! {

/// A screen region that can be hit-tested this frame.
#[derive(Clone, Copy, Debug, PartialEq, Eq, Structural)]
pub struct Hitbox {
    /// Frame-local identity, unique within one frame.
    pub id: u64,
    /// The rectangle the hitbox covers.
    pub bounds: Bounds,
    /// Whether this hitbox blocks hover and hit delivery to hitboxes
    /// registered before it.
    pub opaque: bool,
}

impl Hitbox {
    /// Geometrically well formed.
    pub open spec fn wf(self) -> bool {
        self.bounds.wf()
    }
}

/// The ids collected by walking hitboxes from the top of the registration
/// order downward: every hitbox containing the pointer, stopping at (and
/// including) the first opaque one that contains it.
pub open spec fn spec_hit_test(hbs: Seq<Hitbox>, pos: Point) -> Seq<u64>
    decreases hbs.len(),
{
    if hbs.len() == 0 {
        Seq::empty()
    } else {
        let topmost = hbs.last();
        let rest = hbs.drop_last();
        if topmost.bounds.spec_contains(pos) {
            if topmost.opaque {
                seq![topmost.id]
            } else {
                seq![topmost.id] + spec_hit_test(rest, pos)
            }
        } else {
            spec_hit_test(rest, pos)
        }
    }
}

/// Whether some opaque hitbox registered after position `i` contains the
/// pointer, occluding whatever sits at `i`.
pub open spec fn spec_occluded_above(hbs: Seq<Hitbox>, pos: Point, i: int) -> bool {
    exists|j: int|
        i < j < hbs.len() && #[trigger] hbs[j].opaque && hbs[j].bounds.spec_contains(pos)
}

/// Whether the hitbox with the given id is hovered: the pointer lies in
/// its bounds and no opaque hitbox registered above it contains the
/// pointer.
pub open spec fn spec_hovered(hbs: Seq<Hitbox>, pos: Point, id: u64) -> bool {
    exists|i: int|
        0 <= i < hbs.len() && #[trigger] hbs[i].id == id && hbs[i].bounds.spec_contains(pos)
            && !spec_occluded_above(hbs, pos, i)
}

/// Hover is exactly "inside the bounds and not behind a closer opaque
/// hitbox that contains the pointer": an id is in the hit test result if
/// and only if it is hovered.
pub proof fn lemma_hit_test_characterizes_hover(hbs: Seq<Hitbox>, pos: Point, id: u64)
    ensures
        spec_hit_test(hbs, pos).contains(id) == spec_hovered(hbs, pos, id),
    decreases hbs.len(),
{
    if hbs.len() == 0 {
        assert(!spec_hit_test(hbs, pos).contains(id));
    } else {
        let topmost = hbs.last();
        let rest = hbs.drop_last();
        let n = hbs.len() - 1;
        lemma_hit_test_characterizes_hover(rest, pos, id);
        assert(forall|k: int| 0 <= k < n ==> rest[k] == hbs[k]);
        if topmost.bounds.spec_contains(pos) {
            if topmost.opaque {
                assert(spec_hit_test(hbs, pos) == seq![topmost.id]);
                if spec_hit_test(hbs, pos).contains(id) {
                    assert(spec_hit_test(hbs, pos)[0] == topmost.id);
                    assert(id == topmost.id);
                    assert(hbs[n].id == id && hbs[n].bounds.spec_contains(pos)
                        && !spec_occluded_above(hbs, pos, n));
                }
                if spec_hovered(hbs, pos, id) {
                    let i = choose|i: int|
                        0 <= i < hbs.len() && #[trigger] hbs[i].id == id
                            && hbs[i].bounds.spec_contains(pos) && !spec_occluded_above(
                            hbs,
                            pos,
                            i,
                        );
                    if i < n {
                        assert(hbs[n].opaque && hbs[n].bounds.spec_contains(pos));
                        assert(spec_occluded_above(hbs, pos, i));
                    }
                    assert(id == topmost.id);
                    assert(spec_hit_test(hbs, pos)[0] == id);
                }
            } else {
                assert(spec_hit_test(hbs, pos) == seq![topmost.id] + spec_hit_test(rest, pos));
                // Membership in a cons cell: either the head or in the tail.
                assert(spec_hit_test(hbs, pos).contains(id) == (id == topmost.id || spec_hit_test(
                    rest,
                    pos,
                ).contains(id))) by {
                    let s = seq![topmost.id] + spec_hit_test(rest, pos);
                    if id == topmost.id {
                        assert(s[0] == id);
                    }
                    if spec_hit_test(rest, pos).contains(id) {
                        let k = choose|k: int|
                            0 <= k < spec_hit_test(rest, pos).len() && spec_hit_test(rest, pos)[k]
                                == id;
                        assert(s[k + 1] == id);
                    }
                    if s.contains(id) {
                        let k = choose|k: int| 0 <= k < s.len() && s[k] == id;
                        if k > 0 {
                            assert(spec_hit_test(rest, pos)[k - 1] == id);
                        }
                    }
                }
                // The topmost hitbox is transparent, so occlusion below it is
                // unchanged, and the topmost itself is never occluded.
                assert forall|i: int| 0 <= i < n implies spec_occluded_above(rest, pos, i)
                    == spec_occluded_above(hbs, pos, i) by {
                    if spec_occluded_above(rest, pos, i) {
                        let j = choose|j: int|
                            i < j < rest.len() && #[trigger] rest[j].opaque
                                && rest[j].bounds.spec_contains(pos);
                        assert(hbs[j].opaque && hbs[j].bounds.spec_contains(pos));
                    }
                    if spec_occluded_above(hbs, pos, i) {
                        let j = choose|j: int|
                            i < j < hbs.len() && #[trigger] hbs[j].opaque
                                && hbs[j].bounds.spec_contains(pos);
                        assert(j != n);
                        assert(rest[j].opaque && rest[j].bounds.spec_contains(pos));
                    }
                }
                if spec_hovered(rest, pos, id) {
                    let i = choose|i: int|
                        0 <= i < rest.len() && #[trigger] rest[i].id == id
                            && rest[i].bounds.spec_contains(pos) && !spec_occluded_above(
                            rest,
                            pos,
                            i,
                        );
                    assert(hbs[i].id == id && hbs[i].bounds.spec_contains(pos)
                        && !spec_occluded_above(hbs, pos, i));
                }
                if id == topmost.id {
                    assert(hbs[n].id == id && hbs[n].bounds.spec_contains(pos)
                        && !spec_occluded_above(hbs, pos, n));
                }
                if spec_hovered(hbs, pos, id) && id != topmost.id {
                    let i = choose|i: int|
                        0 <= i < hbs.len() && #[trigger] hbs[i].id == id
                            && hbs[i].bounds.spec_contains(pos) && !spec_occluded_above(
                            hbs,
                            pos,
                            i,
                        );
                    assert(i < n);
                    assert(rest[i].id == id && rest[i].bounds.spec_contains(pos)
                        && !spec_occluded_above(rest, pos, i));
                }
            }
        } else {
            assert(spec_hit_test(hbs, pos) == spec_hit_test(rest, pos));
            assert forall|i: int| 0 <= i < n implies spec_occluded_above(rest, pos, i)
                == spec_occluded_above(hbs, pos, i) by {
                if spec_occluded_above(rest, pos, i) {
                    let j = choose|j: int|
                        i < j < rest.len() && #[trigger] rest[j].opaque
                            && rest[j].bounds.spec_contains(pos);
                    assert(hbs[j].opaque && hbs[j].bounds.spec_contains(pos));
                }
                if spec_occluded_above(hbs, pos, i) {
                    let j = choose|j: int|
                        i < j < hbs.len() && #[trigger] hbs[j].opaque
                            && hbs[j].bounds.spec_contains(pos);
                    assert(j != n);
                    assert(rest[j].opaque && rest[j].bounds.spec_contains(pos));
                }
            }
            if spec_hovered(rest, pos, id) {
                let i = choose|i: int|
                    0 <= i < rest.len() && #[trigger] rest[i].id == id
                        && rest[i].bounds.spec_contains(pos) && !spec_occluded_above(rest, pos, i);
                assert(hbs[i].id == id && hbs[i].bounds.spec_contains(pos) && !spec_occluded_above(
                    hbs,
                    pos,
                    i,
                ));
            }
            if spec_hovered(hbs, pos, id) {
                let i = choose|i: int|
                    0 <= i < hbs.len() && #[trigger] hbs[i].id == id && hbs[i].bounds.spec_contains(
                        pos,
                    ) && !spec_occluded_above(hbs, pos, i);
                assert(i != n);
                assert(rest[i].id == id && rest[i].bounds.spec_contains(pos)
                    && !spec_occluded_above(rest, pos, i));
            }
        }
    }
}

/// Compute the hit test for the given pointer position: the ids of all
/// hitboxes under the pointer, topmost first, cut off below the first
/// opaque one.
pub fn hit_test(hitboxes: &Vec<Hitbox>, pos: &Point) -> (r: Vec<u64>)
    requires
        forall|i: int| 0 <= i < hitboxes@.len() ==> (#[trigger] hitboxes@[i]).wf(),
        pos.wf(),
    ensures
        r@ == spec_hit_test(hitboxes@, *pos),
{
    let ghost full = hitboxes@;
    let mut r: Vec<u64> = Vec::new();
    let mut i: usize = hitboxes.len();
    proof {
        assert(full.take(i as int) =~= full);
        assert(r@ + spec_hit_test(full, *pos) =~= spec_hit_test(full, *pos));
    }
    while i > 0
        invariant_except_break
            i <= hitboxes@.len(),
            hitboxes@ == full,
            forall|k: int| 0 <= k < hitboxes@.len() ==> (#[trigger] hitboxes@[k]).wf(),
            pos.wf(),
            spec_hit_test(full, *pos) == r@ + spec_hit_test(full.take(i as int), *pos),
        ensures
            r@ == spec_hit_test(full, *pos),
        decreases i,
    {
        i = i - 1;
        let ghost upto = full.take(i as int + 1);
        proof {
            assert(upto.drop_last() =~= full.take(i as int));
            assert(upto.last() == full[i as int]);
        }
        let hb = &hitboxes[i];
        if hb.bounds.contains(pos) {
            r.push(hb.id);
            if hb.opaque {
                proof {
                    assert(spec_hit_test(upto, *pos) =~= seq![hb.id]);
                    assert(r@ =~= spec_hit_test(full, *pos));
                }
                break ;
            }
            proof {
                assert(spec_hit_test(upto, *pos) =~= seq![hb.id] + spec_hit_test(
                    full.take(i as int),
                    *pos,
                ));
                assert(r@ + spec_hit_test(full.take(i as int), *pos) =~= spec_hit_test(
                    full,
                    *pos,
                ));
            }
        } else {
            proof {
                assert(spec_hit_test(upto, *pos) == spec_hit_test(full.take(i as int), *pos));
            }
        }
        if i == 0 {
            proof {
                assert(full.take(0) =~= Seq::<Hitbox>::empty());
                assert(r@ =~= spec_hit_test(full, *pos));
            }
            break ;
        }
    }
    r
}

/// Whether an id appears in a hit test result.
pub fn hit_test_contains(hit: &Vec<u64>, id: u64) -> (r: bool)
    ensures
        r == hit@.contains(id),
{
    let mut j: usize = 0;
    while j < hit.len()
        invariant
            j <= hit@.len(),
            forall|k: int| 0 <= k < j ==> hit@[k] != id,
        decreases hit@.len() - j,
    {
        if hit[j] == id {
            return true;
        }
        j = j + 1;
    }
    false
}

} // verus!
