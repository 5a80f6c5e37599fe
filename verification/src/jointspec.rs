use vstd::prelude::*;
use crate::units::Vec3Fixed;

verus! {

/// One degree of freedom of a joint: three translational axes and three
/// rotational axes.
#[derive(Clone, Copy, Debug, PartialEq, Eq, Structural)]
pub enum Axis {
    LinX,
    LinY,
    LinZ,
    AngX,
    AngY,
    AngZ,
}

impl Axis {
    pub open spec fn is_angular_spec(self) -> bool {
        match self {
            Axis::AngX | Axis::AngY | Axis::AngZ => true,
            _ => false,
        }
    }

    /// Whether this axis is one of the three rotational degrees of freedom.
    pub fn is_angular(&self) -> (b: bool)
        ensures
            b == self.is_angular_spec(),
    {
        match self {
            Axis::AngX | Axis::AngY | Axis::AngZ => true,
            _ => false,
        }
    }
}

/// Which degrees of freedom a joint locks; an axis not locked is free.
#[derive(Clone, Copy, Debug, PartialEq, Eq, Structural)]
pub struct AxisMask {
    pub lin_x: bool,
    pub lin_y: bool,
    pub lin_z: bool,
    pub ang_x: bool,
    pub ang_y: bool,
    pub ang_z: bool,
}

impl AxisMask {
    pub open spec fn locked_spec(self, a: Axis) -> bool {
        match a {
            Axis::LinX => self.lin_x,
            Axis::LinY => self.lin_y,
            Axis::LinZ => self.lin_z,
            Axis::AngX => self.ang_x,
            Axis::AngY => self.ang_y,
            Axis::AngZ => self.ang_z,
        }
    }

    pub open spec fn free_spec(self, a: Axis) -> bool {
        !self.locked_spec(a)
    }

    /// Whether the mask locks the given axis.
    pub fn locked(&self, a: Axis) -> (b: bool)
        ensures
            b == self.locked_spec(a),
    {
        match a {
            Axis::LinX => self.lin_x,
            Axis::LinY => self.lin_y,
            Axis::LinZ => self.lin_z,
            Axis::AngX => self.ang_x,
            Axis::AngY => self.ang_y,
            Axis::AngZ => self.ang_z,
        }
    }

    /// A rigid attachment: every degree of freedom locked.
    pub fn locked_fixed() -> (m: AxisMask)
        ensures
            forall|a: Axis| m.locked_spec(a),
    {
        AxisMask { lin_x: true, lin_y: true, lin_z: true, ang_x: true, ang_y: true, ang_z: true }
    }

    /// A ball joint: the three translational axes locked, the three
    /// rotational axes free.
    pub fn locked_spherical() -> (m: AxisMask)
        ensures
            forall|a: Axis| m.locked_spec(a) == !a.is_angular_spec(),
    {
        AxisMask { lin_x: true, lin_y: true, lin_z: true, ang_x: false, ang_y: false, ang_z: false }
    }

    /// A hinge joint: every degree of freedom locked except one rotational
    /// axis.
    pub fn locked_revolute(free: Axis) -> (m: AxisMask)
        requires
            free.is_angular_spec(),
        ensures
            forall|a: Axis| m.free_spec(a) <==> a == free,
    {
        AxisMask {
            lin_x: true,
            lin_y: true,
            lin_z: true,
            ang_x: !matches!(free, Axis::AngX),
            ang_y: !matches!(free, Axis::AngY),
            ang_z: !matches!(free, Axis::AngZ),
        }
    }
}

/// An allowed angle range, in whole degrees, for one free rotational axis.
#[derive(Clone, Copy, Debug, PartialEq, Eq, Structural)]
pub struct AxisLimit {
    pub axis: Axis,
    pub min_deg: i64,
    pub max_deg: i64,
}

/// A per-axis drive toward a target angle: target in degrees, target
/// velocity in degrees per second, stiffness and damping in thousandths.
#[derive(Clone, Copy, Debug, PartialEq, Eq, Structural)]
pub struct MotorParams {
    pub axis: Axis,
    pub target_deg: i64,
    pub target_vel_deg: i64,
    pub stiffness: i64,
    pub damping: i64,
}

/// An internally inconsistent joint configuration, detected when the
/// specification or the chain is built.
#[derive(Clone, Copy, Debug, PartialEq, Eq, Structural)]
pub enum ConfigError {
    /// An angle limit names a rotational axis that the mask locks.
    LimitOnLockedAxis,
    /// An angle limit names a translational axis.
    LimitOnLinearAxis,
    /// A motor names a rotational axis that the mask locks.
    MotorOnLockedAxis,
    /// A motor names a translational axis.
    MotorOnLinearAxis,
    /// A joint was attached to a link index that the chain does not hold.
    NoSuchParentLink,
}

/// Whether an axis may carry a limit or a motor under the given mask: it must
/// be a rotational axis and the mask must leave it free.
pub open spec fn axis_drivable(m: AxisMask, a: Axis) -> bool {
    a.is_angular_spec() && m.free_spec(a)
}

/// Everything that constrains one parent/child pair: where the pivot sits on
/// each body, which axes are locked, the angle limits and motors on the free
/// axes, and whether the two bodies may collide with each other.
#[derive(Clone, Debug, PartialEq)]
pub struct JointSpec {
    pub anchor_on_parent: Vec3Fixed,
    pub anchor_on_child: Vec3Fixed,
    pub axis_mask: AxisMask,
    pub limits: Vec<AxisLimit>,
    pub motors: Vec<MotorParams>,
    pub contacts_enabled: bool,
}

impl JointSpec {
    /// A consistent specification: every axis a limit or a motor names is a
    /// free rotational axis of the mask.
    pub open spec fn wf(self) -> bool {
        &&& forall|i: int|
            0 <= i < self.limits@.len() ==> axis_drivable(
                self.axis_mask,
                (#[trigger] self.limits@[i]).axis,
            )
        &&& forall|i: int|
            0 <= i < self.motors@.len() ==> axis_drivable(
                self.axis_mask,
                (#[trigger] self.motors@[i]).axis,
            )
    }

    /// A fresh specification for the given mask: pivots at each body's
    /// origin, no limits, no motors, contacts allowed.
    pub fn new(axis_mask: AxisMask) -> (s: JointSpec)
        ensures
            s.axis_mask == axis_mask,
            s.anchor_on_parent == (Vec3Fixed { x: 0, y: 0, z: 0 }),
            s.anchor_on_child == (Vec3Fixed { x: 0, y: 0, z: 0 }),
            s.limits@.len() == 0,
            s.motors@.len() == 0,
            s.contacts_enabled,
            s.wf(),
    {
        JointSpec {
            anchor_on_parent: Vec3Fixed::zero(),
            anchor_on_child: Vec3Fixed::zero(),
            axis_mask,
            limits: Vec::new(),
            motors: Vec::new(),
            contacts_enabled: true,
        }
    }

    /// Places the pivot in the parent body's local frame.
    pub fn local_anchor_on_parent(self, a: Vec3Fixed) -> (s: JointSpec)
        ensures
            s.anchor_on_parent == a,
            s.anchor_on_child == self.anchor_on_child,
            s.axis_mask == self.axis_mask,
            s.limits == self.limits,
            s.motors == self.motors,
            s.contacts_enabled == self.contacts_enabled,
    {
        JointSpec { anchor_on_parent: a, ..self }
    }

    /// Places the pivot in the child body's local frame.
    pub fn local_anchor_on_child(self, a: Vec3Fixed) -> (s: JointSpec)
        ensures
            s.anchor_on_child == a,
            s.anchor_on_parent == self.anchor_on_parent,
            s.axis_mask == self.axis_mask,
            s.limits == self.limits,
            s.motors == self.motors,
            s.contacts_enabled == self.contacts_enabled,
    {
        JointSpec { anchor_on_child: a, ..self }
    }

    /// Adds an angle limit on one axis, rejecting an axis the mask does not
    /// leave free to rotate.
    pub fn limits(self, axis: Axis, min_deg: i64, max_deg: i64) -> (r: Result<
        JointSpec,
        ConfigError,
    >)
        ensures
            !axis.is_angular_spec() ==> r == Err::<JointSpec, ConfigError>(
                ConfigError::LimitOnLinearAxis,
            ),
            axis.is_angular_spec() && self.axis_mask.locked_spec(axis) ==> r == Err::<
                JointSpec,
                ConfigError,
            >(ConfigError::LimitOnLockedAxis),
            r is Ok <==> axis_drivable(self.axis_mask, axis),
            r is Ok ==> {
                let s = r->Ok_0;
                &&& s.limits@ == self.limits@.push((AxisLimit { axis, min_deg, max_deg }))
                &&& s.motors == self.motors
                &&& s.axis_mask == self.axis_mask
                &&& s.anchor_on_parent == self.anchor_on_parent
                &&& s.anchor_on_child == self.anchor_on_child
                &&& s.contacts_enabled == self.contacts_enabled
            },
            self.wf() && r is Ok ==> r->Ok_0.wf(),
    {
        if !axis.is_angular() {
            Err(ConfigError::LimitOnLinearAxis)
        } else if self.axis_mask.locked(axis) {
            Err(ConfigError::LimitOnLockedAxis)
        } else {
            let mut limits = self.limits;
            limits.push(AxisLimit { axis, min_deg, max_deg });
            Ok(JointSpec { limits, ..self })
        }
    }

    /// Adds a motor on one axis, rejecting an axis the mask does not leave
    /// free to rotate.
    pub fn motor(
        self,
        axis: Axis,
        target_deg: i64,
        target_vel_deg: i64,
        stiffness: i64,
        damping: i64,
    ) -> (r: Result<JointSpec, ConfigError>)
        ensures
            !axis.is_angular_spec() ==> r == Err::<JointSpec, ConfigError>(
                ConfigError::MotorOnLinearAxis,
            ),
            axis.is_angular_spec() && self.axis_mask.locked_spec(axis) ==> r == Err::<
                JointSpec,
                ConfigError,
            >(ConfigError::MotorOnLockedAxis),
            r is Ok <==> axis_drivable(self.axis_mask, axis),
            r is Ok ==> {
                let s = r->Ok_0;
                &&& s.motors@ == self.motors@.push(
                    (MotorParams { axis, target_deg, target_vel_deg, stiffness, damping }),
                )
                &&& s.limits == self.limits
                &&& s.axis_mask == self.axis_mask
                &&& s.anchor_on_parent == self.anchor_on_parent
                &&& s.anchor_on_child == self.anchor_on_child
                &&& s.contacts_enabled == self.contacts_enabled
            },
            self.wf() && r is Ok ==> r->Ok_0.wf(),
    {
        if !axis.is_angular() {
            Err(ConfigError::MotorOnLinearAxis)
        } else if self.axis_mask.locked(axis) {
            Err(ConfigError::MotorOnLockedAxis)
        } else {
            let mut motors = self.motors;
            motors.push(MotorParams { axis, target_deg, target_vel_deg, stiffness, damping });
            Ok(JointSpec { motors, ..self })
        }
    }

    /// Sets whether the two jointed bodies may collide with each other.
    pub fn set_contacts_enabled(self, enabled: bool) -> (s: JointSpec)
        ensures
            s.contacts_enabled == enabled,
            s.anchor_on_parent == self.anchor_on_parent,
            s.anchor_on_child == self.anchor_on_child,
            s.axis_mask == self.axis_mask,
            s.limits == self.limits,
            s.motors == self.motors,
    {
        JointSpec { contacts_enabled: enabled, ..self }
    }

    /// Checks the whole specification for consistency, reporting the first
    /// limit or motor that names an axis it may not: success exactly on a
    /// well-formed specification.
    pub fn validate(&self) -> (r: Result<(), ConfigError>)
        ensures
            r == validation_of(*self),
            r is Ok <==> self.wf(),
    {
        proof {
            lemma_limit_violation_none(self.axis_mask, self.limits@);
            lemma_motor_violation_none(self.axis_mask, self.motors@);
            assert(self.limits@.skip(0) =~= self.limits@);
            assert(self.motors@.skip(0) =~= self.motors@);
        }
        let mut i: usize = 0;
        while i < self.limits.len()
            invariant
                0 <= i <= self.limits@.len(),
                first_limit_violation(self.axis_mask, self.limits@) == first_limit_violation(
                    self.axis_mask,
                    self.limits@.skip(i as int),
                ),
                forall|j: int|
                    0 <= j < i ==> axis_drivable(self.axis_mask, (#[trigger] self.limits@[j]).axis),
            decreases self.limits@.len() - i,
        {
            let entry = self.limits[i];
            proof {
                assert(self.limits@.skip(i as int)[0] == self.limits@[i as int]);
            }
            if !entry.axis.is_angular() {
                return Err(ConfigError::LimitOnLinearAxis);
            }
            if self.axis_mask.locked(entry.axis) {
                return Err(ConfigError::LimitOnLockedAxis);
            }
            proof {
                assert(self.limits@.skip(i as int).drop_first() =~= self.limits@.skip(i + 1));
            }
            i = i + 1;
        }
        proof {
            assert(self.limits@.skip(i as int) =~= Seq::<AxisLimit>::empty());
        }
        let mut k: usize = 0;
        while k < self.motors.len()
            invariant
                0 <= k <= self.motors@.len(),
                first_limit_violation(self.axis_mask, self.limits@) is None,
                first_motor_violation(self.axis_mask, self.motors@) == first_motor_violation(
                    self.axis_mask,
                    self.motors@.skip(k as int),
                ),
                forall|j: int|
                    0 <= j < k ==> axis_drivable(self.axis_mask, (#[trigger] self.motors@[j]).axis),
            decreases self.motors@.len() - k,
        {
            let entry = self.motors[k];
            proof {
                assert(self.motors@.skip(k as int)[0] == self.motors@[k as int]);
            }
            if !entry.axis.is_angular() {
                return Err(ConfigError::MotorOnLinearAxis);
            }
            if self.axis_mask.locked(entry.axis) {
                return Err(ConfigError::MotorOnLockedAxis);
            }
            proof {
                assert(self.motors@.skip(k as int).drop_first() =~= self.motors@.skip(k + 1));
            }
            k = k + 1;
        }
        proof {
            assert(self.motors@.skip(k as int) =~= Seq::<MotorParams>::empty());
        }
        Ok(())
    }
}

/// The first inconsistency among a mask's angle limits, scanned in order:
/// a limit on a translational axis, or on a rotational axis the mask locks.
pub open spec fn first_limit_violation(m: AxisMask, limits: Seq<AxisLimit>) -> Option<ConfigError>
    decreases limits.len(),
{
    if limits.len() == 0 {
        None
    } else if !limits[0].axis.is_angular_spec() {
        Some(ConfigError::LimitOnLinearAxis)
    } else if m.locked_spec(limits[0].axis) {
        Some(ConfigError::LimitOnLockedAxis)
    } else {
        first_limit_violation(m, limits.drop_first())
    }
}

/// The first inconsistency among a mask's motors, scanned in order: a motor
/// on a translational axis, or on a rotational axis the mask locks.
pub open spec fn first_motor_violation(m: AxisMask, motors: Seq<MotorParams>) -> Option<
    ConfigError,
>
    decreases motors.len(),
{
    if motors.len() == 0 {
        None
    } else if !motors[0].axis.is_angular_spec() {
        Some(ConfigError::MotorOnLinearAxis)
    } else if m.locked_spec(motors[0].axis) {
        Some(ConfigError::MotorOnLockedAxis)
    } else {
        first_motor_violation(m, motors.drop_first())
    }
}

/// The verdict on a whole specification: the first limit inconsistency if
/// any, else the first motor inconsistency, else success.
pub open spec fn validation_of(s: JointSpec) -> Result<(), ConfigError> {
    match first_limit_violation(s.axis_mask, s.limits@) {
        Some(e) => Err(e),
        None => match first_motor_violation(s.axis_mask, s.motors@) {
            Some(e) => Err(e),
            None => Ok(()),
        },
    }
}

/// The limit scan comes up empty exactly when every limit names a free
/// rotational axis.
pub proof fn lemma_limit_violation_none(m: AxisMask, limits: Seq<AxisLimit>)
    ensures
        first_limit_violation(m, limits) is None <==> (forall|i: int|
            0 <= i < limits.len() ==> axis_drivable(m, (#[trigger] limits[i]).axis)),
    decreases limits.len(),
{
    if limits.len() == 0 {
    } else {
        lemma_limit_violation_none(m, limits.drop_first());
        if first_limit_violation(m, limits) is None {
            assert forall|i: int| 0 <= i < limits.len() implies axis_drivable(
                m,
                (#[trigger] limits[i]).axis,
            ) by {
                if i > 0 {
                    assert(limits[i] == limits.drop_first()[i - 1]);
                }
            }
        } else {
            if axis_drivable(m, limits[0].axis) {
                let j = choose|j: int|
                    0 <= j < limits.drop_first().len() && !axis_drivable(
                        m,
                        limits.drop_first()[j].axis,
                    );
                assert(limits.drop_first()[j] == limits[j + 1]);
            }
        }
    }
}

/// The motor scan comes up empty exactly when every motor names a free
/// rotational axis.
pub proof fn lemma_motor_violation_none(m: AxisMask, motors: Seq<MotorParams>)
    ensures
        first_motor_violation(m, motors) is None <==> (forall|i: int|
            0 <= i < motors.len() ==> axis_drivable(m, (#[trigger] motors[i]).axis)),
    decreases motors.len(),
{
    if motors.len() == 0 {
    } else {
        lemma_motor_violation_none(m, motors.drop_first());
        if first_motor_violation(m, motors) is None {
            assert forall|i: int| 0 <= i < motors.len() implies axis_drivable(
                m,
                (#[trigger] motors[i]).axis,
            ) by {
                if i > 0 {
                    assert(motors[i] == motors.drop_first()[i - 1]);
                }
            }
        } else {
            if axis_drivable(m, motors[0].axis) {
                let j = choose|j: int|
                    0 <= j < motors.drop_first().len() && !axis_drivable(
                        m,
                        motors.drop_first()[j].axis,
                    );
                assert(motors.drop_first()[j] == motors[j + 1]);
            }
        }
    }
}

/// Every axis that a limit or a motor of a well-formed specification names is
/// a free rotational axis of its mask: a consistent specification never
/// limits or drives a locked or translational axis.
pub proof fn lemma_wf_axes_drivable(s: JointSpec)
    requires
        s.wf(),
    ensures
        forall|i: int|
            0 <= i < s.limits@.len() ==> s.axis_mask.free_spec((#[trigger] s.limits@[i]).axis)
                && s.limits@[i].axis.is_angular_spec(),
        forall|i: int|
            0 <= i < s.motors@.len() ==> s.axis_mask.free_spec((#[trigger] s.motors@[i]).axis)
                && s.motors@[i].axis.is_angular_spec(),
{
}

} // verus!
