use joint_chain::chain::{BodyKind, Capsule, Chain, capsule_attachment, capsule_joint};
use joint_chain::jointspec::{Axis, AxisMask, AxisLimit, ConfigError, JointSpec, MotorParams};

#[test]
fn anchors_at_cap_surface() {
    let torso = Capsule { half_length: 450, radius: 50 };
    let segment = Capsule { half_length: 250, radius: 50 };
    let (on_parent, on_child) = capsule_attachment(&torso, &segment);
    assert_eq!(on_parent.y, 500);
    assert_eq!(on_child.y, 300);
    assert_eq!((on_parent.x, on_parent.z), (0, 0));
    assert_eq!((on_child.x, on_child.z), (0, 0));
}

#[test]
fn anchors_are_exact_sums() {
    let a = Capsule { half_length: 123, radius: 7 };
    let b = Capsule { half_length: 0, radius: 1 };
    let (on_parent, on_child) = capsule_attachment(&a, &b);
    assert_eq!(on_parent.y, 130);
    assert_eq!(on_child.y, 1);
}

#[test]
fn fixed_mask_locks_everything() {
    let m = AxisMask::locked_fixed();
    for axis in [Axis::LinX, Axis::LinY, Axis::LinZ, Axis::AngX, Axis::AngY, Axis::AngZ] {
        assert!(m.locked(axis));
    }
}

#[test]
fn spherical_mask_frees_rotation_only() {
    let m = AxisMask::locked_spherical();
    assert!(m.locked(Axis::LinX));
    assert!(m.locked(Axis::LinY));
    assert!(m.locked(Axis::LinZ));
    assert!(!m.locked(Axis::AngX));
    assert!(!m.locked(Axis::AngY));
    assert!(!m.locked(Axis::AngZ));
}

#[test]
fn revolute_mask_frees_one_axis() {
    let m = AxisMask::locked_revolute(Axis::AngY);
    assert!(!m.locked(Axis::AngY));
    for axis in [Axis::LinX, Axis::LinY, Axis::LinZ, Axis::AngX, Axis::AngZ] {
        assert!(m.locked(axis));
    }
}

#[test]
fn limit_on_locked_axis_rejected() {
    let s = JointSpec::new(AxisMask::locked_fixed());
    assert_eq!(s.limits(Axis::AngZ, 15, 165), Err(ConfigError::LimitOnLockedAxis));
}

#[test]
fn limit_on_linear_axis_rejected() {
    let s = JointSpec::new(AxisMask::locked_spherical());
    assert_eq!(s.limits(Axis::LinY, 0, 10), Err(ConfigError::LimitOnLinearAxis));
}

#[test]
fn motor_on_locked_axis_rejected() {
    let s = JointSpec::new(AxisMask::locked_revolute(Axis::AngX));
    assert_eq!(s.motor(Axis::AngZ, 90, 18, 500, 50), Err(ConfigError::MotorOnLockedAxis));
}

#[test]
fn motor_on_linear_axis_rejected() {
    let s = JointSpec::new(AxisMask::locked_spherical());
    assert_eq!(s.motor(Axis::LinX, 90, 18, 500, 50), Err(ConfigError::MotorOnLinearAxis));
}

#[test]
fn limit_on_free_axis_accepted() {
    let s = JointSpec::new(AxisMask::locked_spherical())
        .limits(Axis::AngZ, 15, 165)
        .unwrap();
    assert_eq!(s.limits.len(), 1);
    assert_eq!(s.limits[0], AxisLimit { axis: Axis::AngZ, min_deg: 15, max_deg: 165 });
    assert!(s.motors.is_empty());
}

#[test]
fn motor_on_free_axis_accepted() {
    let s = JointSpec::new(AxisMask::locked_revolute(Axis::AngZ))
        .motor(Axis::AngZ, 90, 18, 500, 50)
        .unwrap();
    assert_eq!(s.motors.len(), 1);
    assert_eq!(
        s.motors[0],
        MotorParams { axis: Axis::AngZ, target_deg: 90, target_vel_deg: 18, stiffness: 500, damping: 50 }
    );
}

#[test]
fn validate_accepts_consistent_spec() {
    let s = JointSpec::new(AxisMask::locked_spherical())
        .limits(Axis::AngZ, 15, 165)
        .unwrap()
        .motor(Axis::AngY, 0, 5, 500, 50)
        .unwrap();
    assert_eq!(s.validate(), Ok(()));
}

#[test]
fn validate_reports_first_limit_violation() {
    let mut s = JointSpec::new(AxisMask::locked_spherical());
    s.limits.push(AxisLimit { axis: Axis::AngZ, min_deg: 15, max_deg: 165 });
    s.limits.push(AxisLimit { axis: Axis::LinX, min_deg: 0, max_deg: 1 });
    assert_eq!(s.validate(), Err(ConfigError::LimitOnLinearAxis));
}

#[test]
fn validate_reports_motor_violation_after_clean_limits() {
    let mut s = JointSpec::new(AxisMask::locked_revolute(Axis::AngZ));
    s.limits.push(AxisLimit { axis: Axis::AngZ, min_deg: 15, max_deg: 165 });
    s.motors.push(MotorParams {
        axis: Axis::AngX,
        target_deg: 0,
        target_vel_deg: 0,
        stiffness: 0,
        damping: 0,
    });
    assert_eq!(s.validate(), Err(ConfigError::MotorOnLockedAxis));
}

#[test]
fn attach_rejects_unknown_parent() {
    let mut chain = Chain::new(BodyKind::Dynamic);
    let before = chain.clone();
    let shape = Capsule { half_length: 250, radius: 50 };
    let r = chain.attach(3, BodyKind::Dynamic, shape, JointSpec::new(AxisMask::locked_fixed()));
    assert_eq!(r, Err(ConfigError::NoSuchParentLink));
    assert_eq!(chain, before);
}

#[test]
fn attach_rejects_inconsistent_spec() {
    let mut chain = Chain::new(BodyKind::Dynamic);
    let before = chain.clone();
    let shape = Capsule { half_length: 250, radius: 50 };
    let mut bad = JointSpec::new(AxisMask::locked_fixed());
    bad.limits.push(AxisLimit { axis: Axis::AngZ, min_deg: 15, max_deg: 165 });
    let r = chain.attach(0, BodyKind::Dynamic, shape, bad);
    assert_eq!(r, Err(ConfigError::LimitOnLockedAxis));
    assert_eq!(chain, before);
}

#[test]
fn attach_disables_mutual_contacts() {
    let torso_shape = Capsule { half_length: 450, radius: 50 };
    let seg_shape = Capsule { half_length: 250, radius: 50 };
    let mut chain = Chain::new(BodyKind::Dynamic);
    let torso = chain
        .attach(0, BodyKind::Dynamic, torso_shape, JointSpec::new(AxisMask::locked_fixed()))
        .unwrap();
    let shoulder = capsule_joint(&torso_shape, &seg_shape, AxisMask::locked_spherical());
    assert!(shoulder.contacts_enabled);
    chain.attach(torso, BodyKind::Dynamic, seg_shape, shoulder).unwrap();
    for joint in &chain.joints {
        assert!(!joint.joint_spec.contacts_enabled);
    }
}

#[test]
fn chain_indices_run_parent_before_child() {
    let torso_shape = Capsule { half_length: 450, radius: 50 };
    let seg_shape = Capsule { half_length: 250, radius: 50 };
    let mut chain = Chain::new(BodyKind::Fixed);
    let torso = chain
        .attach(0, BodyKind::Dynamic, torso_shape, JointSpec::new(AxisMask::locked_fixed()))
        .unwrap();
    assert_eq!(torso, 1);
    let seg = chain
        .attach(
            torso,
            BodyKind::Dynamic,
            seg_shape,
            capsule_joint(&torso_shape, &seg_shape, AxisMask::locked_spherical()),
        )
        .unwrap();
    assert_eq!(seg, 2);
    assert_eq!(chain.num_links(), 3);
    assert_eq!(chain.num_joints(), 2);
    assert_eq!(chain.joints[0].parent_link, 0);
    assert_eq!(chain.joints[0].child_link, 1);
    assert_eq!(chain.joints[1].parent_link, 1);
    assert_eq!(chain.joints[1].child_link, 2);
}
