use tickroute::env_modifier::EnvModifier;
use tickroute::geometry::{Hitbox, Pointf};
use tickroute::objects::ObjectType;
use tickroute::state_map::{new_state_map, record_best};
use tickroute::static_state::StaticState;

fn hb(x1: i64, y1: i64, x2: i64, y2: i64) -> Hitbox {
    Hitbox { x1, y1, x2, y2 }
}

// Construction partitions the raw object list by kind: lethal kinds join
// the deadly set, projectiles keep their velocities, the rest stay
// collidable solids, all in input order.
#[test]
fn partition_by_kind() {
    let v0 = Pointf { x: 0, y: 0 };
    let objects = vec![
        (hb(0, 0, 600, 600), ObjectType::Wall, v0),
        (hb(600, 0, 1200, 600), ObjectType::Ouch, v0),
        (hb(1200, 0, 1800, 600), ObjectType::Projectile, Pointf { x: 10, y: -5 }),
        (hb(1800, 0, 2400, 600), ObjectType::Spike, v0),
        (hb(2400, 0, 3000, 600), ObjectType::Portal, v0),
        (hb(3000, 0, 3600, 600), ObjectType::Warp, v0),
        (hb(3600, 0, 4200, 600), ObjectType::SpikeOuch, v0),
    ];
    let env = EnvModifier::new(hb(0, 0, 600, 600), 3200, 2400, 1600, 2400, 1, false);
    let s = StaticState::new(objects, vec![env]);
    assert_eq!(s.objects.len(), 2); // Wall and Spike stay solid
    assert_eq!(s.objects[0].1, ObjectType::Wall);
    assert_eq!(s.objects[1].1, ObjectType::Spike);
    assert_eq!(s.deadly.len(), 4); // Ouch, Portal, Warp, SpikeOuch
    assert_eq!(s.proj.len(), 1);
    assert_eq!(s.proj_v.len(), 1);
    assert_eq!(s.proj_v[0], Pointf { x: 10, y: -5 });
    assert_eq!(s.environments.len(), 1);
}

// One hazard step moves every projectile by its per-tick velocity and
// leaves everything else alone.
#[test]
fn step_deadly_moves_projectiles() {
    let v0 = Pointf { x: 0, y: 0 };
    let objects = vec![
        (hb(0, 0, 600, 600), ObjectType::Wall, v0),
        (hb(1200, 0, 1800, 600), ObjectType::Projectile, Pointf { x: 10, y: -5 }),
    ];
    let s = StaticState::new(objects, Vec::new());
    let stepped = s.step_deadly();
    assert_eq!(stepped.proj[0], hb(1210, -5, 1810, 595));
    assert_eq!(stepped.objects.len(), s.objects.len());
    assert_eq!(stepped.deadly.len(), 0);
    assert_eq!(stepped.proj_v[0], Pointf { x: 10, y: -5 });
    // The original snapshot is unchanged.
    assert_eq!(s.proj[0], hb(1200, 0, 1800, 600));
}

// Overlap is strict: touching edges do not collide; the minimum
// penetration vector pushes along the axis of least penetration.
#[test]
fn hitbox_overlap_and_mpv() {
    let a = hb(0, 0, 600, 600);
    let touching = hb(600, 0, 1200, 600);
    assert!(!a.collides(&touching));
    let deep = hb(500, -600, 1200, 1200);
    assert!(a.collides(&deep) && deep.collides(&a));
    // Pushing the player box out of `deep`: 100 steps left beats any
    // vertical escape.
    let mpv = deep.get_mpv(&a);
    assert_eq!(mpv, Pointf { x: -100, y: 0 });
    // A shallow vertical overlap resolves vertically.
    let below = hb(-600, -600, 1200, 30);
    let mpv = below.get_mpv(&a);
    assert_eq!(mpv, Pointf { x: 0, y: 30 });
}

// Best-known tick counts only ever decrease per key: a worse or equal
// value is rejected, a strictly better one replaces the entry.
#[test]
fn best_known_ticks_monotone() {
    let mut m = new_state_map();
    let k = (1, 2, 3);
    assert!(record_best(&mut m, k, 7));
    assert_eq!(m.get(k), Some(7));
    assert!(!record_best(&mut m, k, 7));
    assert!(!record_best(&mut m, k, 9));
    assert_eq!(m.get(k), Some(7));
    assert!(record_best(&mut m, k, 4));
    assert_eq!(m.get(k), Some(4));
    assert_eq!(m.get((0, 0, 0)), None);
}
