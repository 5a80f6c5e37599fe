use joint_chain::chain::{BodyKind, Capsule, Chain, capsule_joint};
use joint_chain::inspect::{JointHandle, MultibodyStore, Ray, inspect_tick};
use joint_chain::jointspec::{Axis, AxisMask, JointSpec};
use joint_chain::multibody::Multibody;
use joint_chain::units::{Rotation, Vec3Fixed};

fn scenario_chain() -> Chain {
    let torso_shape = Capsule { half_length: 450, radius: 50 };
    let seg_shape = Capsule { half_length: 250, radius: 50 };
    let mut chain = Chain::new(BodyKind::Dynamic);
    let torso = chain
        .attach(0, BodyKind::Dynamic, torso_shape, JointSpec::new(AxisMask::locked_fixed()))
        .unwrap();
    let shoulder = capsule_joint(&torso_shape, &seg_shape, AxisMask::locked_spherical())
        .limits(Axis::AngZ, 15, 165)
        .unwrap();
    chain.attach(torso, BodyKind::Dynamic, seg_shape, shoulder).unwrap();
    chain
}

fn scrambled(mb: &Multibody) -> Multibody {
    let mut out = mb.clone();
    out.links[1].joint.local_frame_parent.rotation = Rotation { x: 250, y: 0, z: 500, w: 800 };
    out.links[1].joint.local_frame_child.rotation = Rotation { x: 0, y: 433, z: 0, w: 901 };
    out.links[1].world_translation = Vec3Fixed { x: 100, y: 2000, z: -300 };
    out
}

#[test]
fn scenario_three_links_two_joints() {
    let chain = scenario_chain();
    assert_eq!(chain.num_links(), 3);
    assert_eq!(chain.num_joints(), 2);
    let shoulder = &chain.joints[1].joint_spec;
    assert_eq!(shoulder.anchor_on_parent, Vec3Fixed { x: 0, y: 500, z: 0 });
    assert_eq!(shoulder.anchor_on_child, Vec3Fixed { x: 0, y: 300, z: 0 });
    assert_eq!(shoulder.limits[0].min_deg, 15);
    assert_eq!(shoulder.limits[0].max_deg, 165);
    let mb = Multibody::resolve(&chain);
    assert_eq!(mb.num_links(), 3);
    assert_eq!(mb.links[2].joint.local_frame_parent.anchor, Vec3Fixed { x: 0, y: 500, z: 0 });
    assert_eq!(mb.links[2].joint.local_frame_child.anchor, Vec3Fixed { x: 0, y: 300, z: 0 });
}

#[test]
fn scenario_two_link_inspection_is_a_noop() {
    let torso_shape = Capsule { half_length: 450, radius: 50 };
    let mut chain = Chain::new(BodyKind::Dynamic);
    chain
        .attach(0, BodyKind::Dynamic, torso_shape, JointSpec::new(AxisMask::locked_fixed()))
        .unwrap();
    let mut mb = Multibody::resolve(&chain);
    let before = mb.clone();
    inspect_tick(&mut mb);
    assert_eq!(mb, before);
}

#[test]
fn scenario_three_link_inspection_resets_and_emits_one_ray() {
    let chain = scenario_chain();
    let mut mb = scrambled(&Multibody::resolve(&chain));
    let rays = [inspect_tick(&mut mb), inspect_tick(&mut mb)];
    for ray in rays {
        let ray = ray.expect("a structure of three links emits one ray per tick");
        assert_eq!(ray.origin, Vec3Fixed { x: 100, y: 2000, z: -300 });
        assert_eq!(ray.direction, Vec3Fixed { x: 1000, y: 0, z: 0 });
    }
    let identity = Rotation { x: 0, y: 0, z: 0, w: 1000 };
    assert_eq!(mb.links[1].joint.local_frame_parent.rotation, identity);
    assert_eq!(mb.links[1].joint.local_frame_child.rotation, identity);
}

#[test]
fn reset_is_idempotent() {
    let chain = scenario_chain();
    let mut once = scrambled(&Multibody::resolve(&chain));
    inspect_tick(&mut once);
    let mut twice = once.clone();
    inspect_tick(&mut twice);
    assert_eq!(twice, once);
}

#[test]
fn reset_keeps_anchors_and_transforms() {
    let chain = scenario_chain();
    let mut mb = scrambled(&Multibody::resolve(&chain));
    let before = mb.clone();
    inspect_tick(&mut mb);
    assert_eq!(mb.links[1].joint.local_frame_parent.anchor, before.links[1].joint.local_frame_parent.anchor);
    assert_eq!(mb.links[1].joint.local_frame_child.anchor, before.links[1].joint.local_frame_child.anchor);
    assert_eq!(mb.links[1].world_translation, before.links[1].world_translation);
    assert_eq!(mb.links[0], before.links[0]);
    assert_eq!(mb.links[2], before.links[2]);
}

#[test]
fn degenerate_structure_is_skipped() {
    let chain = Chain::new(BodyKind::Dynamic);
    let mut mb = Multibody::resolve(&chain);
    assert_eq!(mb.num_links(), 1);
    let before = mb.clone();
    let ray = inspect_tick(&mut mb);
    assert_eq!(ray, None);
    assert_eq!(mb, before);
}

#[test]
fn stale_handle_is_skipped() {
    let mut store = MultibodyStore::new();
    store.register(Multibody::resolve(&scenario_chain()));
    let before = store.clone();
    let ray = store.inspect(JointHandle { index: 7 });
    assert_eq!(ray, None);
    assert_eq!(store, before);
}

#[test]
fn live_handle_is_inspected() {
    let mut store = MultibodyStore::new();
    let h = store.register(scrambled(&Multibody::resolve(&scenario_chain())));
    let ray = store.inspect(h).expect("a live three-link structure emits a ray");
    assert_eq!(ray.origin, Vec3Fixed { x: 100, y: 2000, z: -300 });
    let identity = Rotation { x: 0, y: 0, z: 0, w: 1000 };
    assert_eq!(store.multibodies[0].links[1].joint.local_frame_parent.rotation, identity);
}

#[test]
fn run_tick_serves_handles_in_order() {
    let mut store = MultibodyStore::new();
    let degenerate = store.register(Multibody::resolve(&Chain::new(BodyKind::Dynamic)));
    let live = store.register(scrambled(&Multibody::resolve(&scenario_chain())));
    let handles = vec![degenerate, live, JointHandle { index: 9 }, live];
    let rays = store.run_tick(&handles);
    assert_eq!(
        rays,
        vec![
            Ray {
                origin: Vec3Fixed { x: 100, y: 2000, z: -300 },
                direction: Vec3Fixed { x: 1000, y: 0, z: 0 },
            };
            2
        ]
    );
}
