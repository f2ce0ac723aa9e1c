//! The immutable per-search level snapshot: collidable solids, deadly
//! hitboxes, moving hazards (projectiles) with their per-tick velocities,
//! and environment modifier regions.

use vstd::prelude::*;
use crate::env_modifier::EnvModifier;
use crate::geometry::{abs, Hitbox, Pointf, COORD_LIMIT, VEL_LIMIT};
use crate::objects::ObjectType;

verus! {

/// One level's static geometry, fixed for the lifetime of a search.
#[derive(Clone, Debug)]
pub struct StaticState {
    /// Collidable solid objects with their kinds.
    pub objects: Vec<(Hitbox, ObjectType)>,
    /// Hitboxes whose contact kills the player.
    pub deadly: Vec<Hitbox>,
    /// Moving hazard hitboxes; contact also kills.
    pub proj: Vec<Hitbox>,
    /// Per-tick velocity of each moving hazard, in position steps.
    pub proj_v: Vec<Pointf>,
    /// Environment modifier regions (the detection stub never reports one
    /// active, but the records travel with the level).
    pub environments: Vec<EnvModifier>,
}

/// The solid objects among the first `n` input records, in input order.
pub open spec fn solids_prefix(input: Seq<(Hitbox, ObjectType, Pointf)>, n: int) -> Seq<
    (Hitbox, ObjectType),
>
    decreases n,
{
    if n <= 0 {
        Seq::empty()
    } else {
        let rest = solids_prefix(input, n - 1);
        let t = input[n - 1];
        if !t.1.is_deadly_spec() && !t.1.is_projectile_spec() {
            rest.push((t.0, t.1))
        } else {
            rest
        }
    }
}

/// The deadly hitboxes among the first `n` input records, in input order.
pub open spec fn deadly_prefix(input: Seq<(Hitbox, ObjectType, Pointf)>, n: int) -> Seq<Hitbox>
    decreases n,
{
    if n <= 0 {
        Seq::empty()
    } else {
        let rest = deadly_prefix(input, n - 1);
        let t = input[n - 1];
        if t.1.is_deadly_spec() {
            rest.push(t.0)
        } else {
            rest
        }
    }
}

/// The projectile hitboxes among the first `n` input records.
pub open spec fn proj_prefix(input: Seq<(Hitbox, ObjectType, Pointf)>, n: int) -> Seq<Hitbox>
    decreases n,
{
    if n <= 0 {
        Seq::empty()
    } else {
        let rest = proj_prefix(input, n - 1);
        let t = input[n - 1];
        if t.1.is_projectile_spec() {
            rest.push(t.0)
        } else {
            rest
        }
    }
}

/// The projectile velocities among the first `n` input records.
pub open spec fn proj_v_prefix(input: Seq<(Hitbox, ObjectType, Pointf)>, n: int) -> Seq<Pointf>
    decreases n,
{
    if n <= 0 {
        Seq::empty()
    } else {
        let rest = proj_v_prefix(input, n - 1);
        let t = input[n - 1];
        if t.1.is_projectile_spec() {
            rest.push(t.2)
        } else {
            rest
        }
    }
}

/// One tick of a moving hazard: the hitbox translated by its velocity, or
/// left in place when the translation would cross the world bound.
pub open spec fn step_box(b: Hitbox, v: Pointf) -> Hitbox {
    let moved = b.offset_spec(v.x as int, v.y as int);
    if moved.wf() {
        moved
    } else {
        b
    }
}

impl StaticState {
    /// Every hitbox well formed, every hazard velocity bounded, one
    /// velocity per moving hazard.
    pub open spec fn wf(self) -> bool {
        &&& forall|i: int| 0 <= i < self.objects@.len() ==> (#[trigger] self.objects@[i]).0.wf()
        &&& forall|i: int| 0 <= i < self.deadly@.len() ==> (#[trigger] self.deadly@[i]).wf()
        &&& forall|i: int| 0 <= i < self.proj@.len() ==> (#[trigger] self.proj@[i]).wf()
        &&& self.proj@.len() == self.proj_v@.len()
        &&& forall|i: int|
            0 <= i < self.proj_v@.len() ==> abs((#[trigger] self.proj_v@[i]).x as int) <= VEL_LIMIT
                && abs(self.proj_v@[i].y as int) <= VEL_LIMIT
    }

    /// Partition a raw object list by kind: lethal kinds join the deadly
    /// set, projectiles keep their velocities, the rest are solids.
    pub fn new(objects: Vec<(Hitbox, ObjectType, Pointf)>, environments: Vec<EnvModifier>) -> (r:
        StaticState)
        requires
            forall|i: int| 0 <= i < objects@.len() ==> (#[trigger] objects@[i]).0.wf(),
            forall|i: int|
                0 <= i < objects@.len() ==> abs((#[trigger] objects@[i]).2.x as int) <= VEL_LIMIT
                    && abs(objects@[i].2.y as int) <= VEL_LIMIT,
        ensures
            r.objects@ == solids_prefix(objects@, objects@.len() as int),
            r.deadly@ == deadly_prefix(objects@, objects@.len() as int),
            r.proj@ == proj_prefix(objects@, objects@.len() as int),
            r.proj_v@ == proj_v_prefix(objects@, objects@.len() as int),
            r.environments@ == environments@,
            r.wf(),
    {
        let mut deadly: Vec<Hitbox> = Vec::new();
        let mut proj: Vec<Hitbox> = Vec::new();
        let mut proj_v: Vec<Pointf> = Vec::new();
        let mut other_objects: Vec<(Hitbox, ObjectType)> = Vec::new();
        let mut i: usize = 0;
        while i < objects.len()
            invariant
                i <= objects@.len(),
                forall|j: int| 0 <= j < objects@.len() ==> (#[trigger] objects@[j]).0.wf(),
                forall|j: int|
                    0 <= j < objects@.len() ==> abs((#[trigger] objects@[j]).2.x as int)
                        <= VEL_LIMIT && abs(objects@[j].2.y as int) <= VEL_LIMIT,
                other_objects@ == solids_prefix(objects@, i as int),
                deadly@ == deadly_prefix(objects@, i as int),
                proj@ == proj_prefix(objects@, i as int),
                proj_v@ == proj_v_prefix(objects@, i as int),
            decreases objects@.len() - i,
        {
            let (hitbox, t, v) = objects[i];
            if t.is_deadly() {
                deadly.push(hitbox);
            } else if t.is_projectile() {
                proj.push(hitbox);
                proj_v.push(v);
            } else {
                other_objects.push((hitbox, t));
            }
            i = i + 1;
        }
        let r = StaticState { objects: other_objects, deadly, proj, proj_v, environments };
        proof {
            lemma_partition_wf(objects@, objects@.len() as int);
        }
        r
    }

    /// Advance every moving hazard by one tick and return the new
    /// snapshot; all other geometry is unchanged.
    pub fn step_deadly(&self) -> (r: StaticState)
        requires
            self.wf(),
        ensures
            r.objects@ == self.objects@,
            r.deadly@ == self.deadly@,
            r.environments@ == self.environments@,
            r.proj_v@ == self.proj_v@,
            r.proj@.len() == self.proj@.len(),
            forall|i: int|
                0 <= i < self.proj@.len() ==> r.proj@[i] == step_box(
                    #[trigger] self.proj@[i],
                    self.proj_v@[i],
                ),
            r.wf(),
    {
        let mut objects: Vec<(Hitbox, ObjectType)> = Vec::new();
        let mut i: usize = 0;
        while i < self.objects.len()
            invariant
                i <= self.objects@.len(),
                objects@ == self.objects@.subrange(0, i as int),
            decreases self.objects@.len() - i,
        {
            objects.push(self.objects[i]);
            i = i + 1;
        }
        let mut deadly: Vec<Hitbox> = Vec::new();
        let mut i: usize = 0;
        while i < self.deadly.len()
            invariant
                i <= self.deadly@.len(),
                deadly@ == self.deadly@.subrange(0, i as int),
            decreases self.deadly@.len() - i,
        {
            deadly.push(self.deadly[i]);
            i = i + 1;
        }
        let mut proj_v: Vec<Pointf> = Vec::new();
        let mut i: usize = 0;
        while i < self.proj_v.len()
            invariant
                i <= self.proj_v@.len(),
                proj_v@ == self.proj_v@.subrange(0, i as int),
            decreases self.proj_v@.len() - i,
        {
            proj_v.push(self.proj_v[i]);
            i = i + 1;
        }
        let mut environments: Vec<EnvModifier> = Vec::new();
        let mut i: usize = 0;
        while i < self.environments.len()
            invariant
                i <= self.environments@.len(),
                environments@ == self.environments@.subrange(0, i as int),
            decreases self.environments@.len() - i,
        {
            environments.push(self.environments[i]);
            i = i + 1;
        }
        let mut proj: Vec<Hitbox> = Vec::new();
        let mut i: usize = 0;
        while i < self.proj.len()
            invariant
                self.wf(),
                i <= self.proj@.len(),
                proj@.len() == i,
                forall|j: int|
                    0 <= j < i ==> proj@[j] == step_box(
                        #[trigger] self.proj@[j],
                        self.proj_v@[j],
                    ),
                forall|j: int| 0 <= j < i ==> (#[trigger] proj@[j]).wf(),
            decreases self.proj@.len() - i,
        {
            let b = self.proj[i];
            let v = self.proj_v[i];
            let moved = b.offset(v.x, v.y);
            let in_world = -COORD_LIMIT <= moved.x1 && moved.x2 <= COORD_LIMIT && -COORD_LIMIT
                <= moved.y1 && moved.y2 <= COORD_LIMIT;
            if in_world {
                proj.push(moved);
            } else {
                proj.push(b);
            }
            i = i + 1;
        }
        StaticState { objects, deadly, proj, proj_v, environments }
    }
}

/// The partition of a well-formed input list is itself well formed.
proof fn lemma_partition_wf(input: Seq<(Hitbox, ObjectType, Pointf)>, n: int)
    requires
        n <= input.len(),
        forall|i: int| 0 <= i < input.len() ==> (#[trigger] input[i]).0.wf(),
        forall|i: int|
            0 <= i < input.len() ==> abs((#[trigger] input[i]).2.x as int) <= VEL_LIMIT && abs(
                input[i].2.y as int,
            ) <= VEL_LIMIT,
    ensures
        forall|i: int| 0 <= i < solids_prefix(input, n).len() ==> (#[trigger] solids_prefix(
            input,
            n,
        )[i]).0.wf(),
        forall|i: int| 0 <= i < deadly_prefix(input, n).len() ==> (#[trigger] deadly_prefix(
            input,
            n,
        )[i]).wf(),
        forall|i: int| 0 <= i < proj_prefix(input, n).len() ==> (#[trigger] proj_prefix(
            input,
            n,
        )[i]).wf(),
        proj_prefix(input, n).len() == proj_v_prefix(input, n).len(),
        forall|i: int|
            0 <= i < proj_v_prefix(input, n).len() ==> abs(
                (#[trigger] proj_v_prefix(input, n)[i]).x as int,
            ) <= VEL_LIMIT && abs(proj_v_prefix(input, n)[i].y as int) <= VEL_LIMIT,
    decreases n,
{
    if n > 0 {
        lemma_partition_wf(input, n - 1);
        let t = input[n - 1];
        assert(t.0.wf());
        assert(abs(t.2.x as int) <= VEL_LIMIT && abs(t.2.y as int) <= VEL_LIMIT);
        if !t.1.is_deadly_spec() && !t.1.is_projectile_spec() {
            assert(solids_prefix(input, n) == solids_prefix(input, n - 1).push((t.0, t.1)));
            assert(forall|i: int|
                0 <= i < solids_prefix(input, n).len() - 1 ==> solids_prefix(input, n)[i]
                    == solids_prefix(input, n - 1)[i]);
        }
        if t.1.is_deadly_spec() {
            assert(deadly_prefix(input, n) == deadly_prefix(input, n - 1).push(t.0));
            assert(forall|i: int|
                0 <= i < deadly_prefix(input, n).len() - 1 ==> deadly_prefix(input, n)[i]
                    == deadly_prefix(input, n - 1)[i]);
        }
        if t.1.is_projectile_spec() {
            assert(proj_prefix(input, n) == proj_prefix(input, n - 1).push(t.0));
            assert(proj_v_prefix(input, n) == proj_v_prefix(input, n - 1).push(t.2));
            assert(forall|i: int|
                0 <= i < proj_prefix(input, n).len() - 1 ==> proj_prefix(input, n)[i]
                    == proj_prefix(input, n - 1)[i]);
            assert(forall|i: int|
                0 <= i < proj_v_prefix(input, n).len() - 1 ==> proj_v_prefix(input, n)[i]
                    == proj_v_prefix(input, n - 1)[i]);
        }
    }
}

} // verus!
