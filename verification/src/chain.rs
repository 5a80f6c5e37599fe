use vstd::prelude::*;
use crate::jointspec::{AxisMask, ConfigError, JointSpec, validation_of};
use crate::units::Vec3Fixed;

verus! {

/// Whether a rigid body is pinned in place or moved by the solver.
#[derive(Clone, Copy, Debug, PartialEq, Eq, Structural)]
pub enum BodyKind {
    Fixed,
    Dynamic,
}

/// A capsule collision shape: a cylinder of the given half-length capped by
/// hemispheres of the given radius, both in thousandths of a unit, aligned
/// with the body's local up axis.
#[derive(Clone, Copy, Debug, PartialEq, Eq, Structural)]
pub struct Capsule {
    pub half_length: i64,
    pub radius: i64,
}

impl Capsule {
    /// The distance from the capsule's center to the tip of its rounded cap
    /// along the up axis.  A joint pivot placed here sits exactly on the cap
    /// surface, so two capsules attached tip to tip touch without
    /// interpenetrating at rest.
    pub open spec fn outer_reach(self) -> int {
        self.half_length + self.radius
    }
}

/// The pivot offsets that attach a child capsule to a parent capsule tip to
/// tip: on each body the pivot sits at the capsule's outer cap surface,
/// half-length plus radius along the local up axis.
pub fn capsule_attachment(parent: &Capsule, child: &Capsule) -> (anchors: (Vec3Fixed, Vec3Fixed))
    requires
        i64::MIN <= parent.outer_reach() <= i64::MAX,
        i64::MIN <= child.outer_reach() <= i64::MAX,
    ensures
        anchors.0.x == 0 && anchors.0.z == 0,
        anchors.1.x == 0 && anchors.1.z == 0,
        anchors.0.y == parent.outer_reach(),
        anchors.1.y == child.outer_reach(),
{
    (Vec3Fixed::up(parent.half_length + parent.radius), Vec3Fixed::up(child.half_length + child.radius))
}

/// A joint specification for attaching a child capsule to a parent capsule:
/// the given mask, pivots at the two cap surfaces, no limits or motors yet.
pub fn capsule_joint(parent: &Capsule, child: &Capsule, axis_mask: AxisMask) -> (s: JointSpec)
    requires
        i64::MIN <= parent.outer_reach() <= i64::MAX,
        i64::MIN <= child.outer_reach() <= i64::MAX,
    ensures
        s.axis_mask == axis_mask,
        s.anchor_on_parent.x == 0 && s.anchor_on_parent.z == 0,
        s.anchor_on_parent.y == parent.outer_reach(),
        s.anchor_on_child.x == 0 && s.anchor_on_child.z == 0,
        s.anchor_on_child.y == child.outer_reach(),
        s.limits@.len() == 0,
        s.motors@.len() == 0,
        s.contacts_enabled,
        s.wf(),
{
    let (on_parent, on_child) = capsule_attachment(parent, child);
    JointSpec::new(axis_mask).local_anchor_on_parent(on_parent).local_anchor_on_child(on_child)
}

/// One rigid body of the chain.  The root anchor link carries no shape; every
/// other link is a capsule.
#[derive(Clone, Copy, Debug, PartialEq, Eq, Structural)]
pub struct Link {
    pub kind: BodyKind,
    pub shape: Option<Capsule>,
}

/// One joint of the chain: the indices of the two links it connects and the
/// constraint between them.
#[derive(Clone, Debug, PartialEq)]
pub struct JointEntry {
    pub parent_link: usize,
    pub child_link: usize,
    pub joint_spec: JointSpec,
}

/// A rooted tree of links connected by joints, built once at startup: link 0
/// is the root anchor, joint `k` attaches link `k + 1` to an earlier link.
#[derive(Clone, Debug, PartialEq)]
pub struct Chain {
    pub links: Vec<Link>,
    pub joints: Vec<JointEntry>,
}

impl Chain {
    /// The structural invariant: one joint per non-root link, each child
    /// attached to a link created before it, every joint specification
    /// consistent, and mutual collision disabled on every jointed pair.
    pub open spec fn wf(self) -> bool {
        &&& self.links@.len() >= 1
        &&& self.joints@.len() + 1 == self.links@.len()
        &&& forall|k: int|
            0 <= k < self.joints@.len() ==> (#[trigger] self.joints@[k]).child_link == k + 1
        &&& forall|k: int|
            0 <= k < self.joints@.len() ==> (#[trigger] self.joints@[k]).parent_link <= k
        &&& forall|k: int|
            0 <= k < self.joints@.len() ==> (#[trigger] self.joints@[k]).joint_spec.wf()
        &&& forall|k: int|
            0 <= k < self.joints@.len() ==> !(#[trigger] self.joints@[k]).joint_spec.contacts_enabled
    }

    /// Every directly jointed parent/child pair of a well-formed chain has
    /// mutual collision disabled: the builder turns contacts off on each
    /// joint it creates, whatever the given specification asked.
    pub proof fn lemma_contacts_disabled(self)
        requires
            self.wf(),
        ensures
            forall|k: int|
                0 <= k < self.joints@.len() ==> !(
                #[trigger] self.joints@[k]).joint_spec.contacts_enabled,
    {
    }

    /// A chain holding only its root anchor link.
    pub fn new(root_kind: BodyKind) -> (c: Chain)
        ensures
            c.wf(),
            c.links@.len() == 1,
            c.links@[0].kind == root_kind,
            c.links@[0].shape is None,
            c.joints@.len() == 0,
    {
        let mut links: Vec<Link> = Vec::new();
        links.push(Link { kind: root_kind, shape: None });
        Chain { links, joints: Vec::new() }
    }

    /// The number of links in the chain, the root anchor included.
    pub fn num_links(&self) -> (n: usize)
        ensures
            n == self.links@.len(),
    {
        self.links.len()
    }

    /// The number of joints in the chain.
    pub fn num_joints(&self) -> (n: usize)
        ensures
            n == self.joints@.len(),
    {
        self.joints.len()
    }

    /// Attaches a new capsule link to an existing parent link, rejecting an
    /// unknown parent index or an inconsistent joint specification.  Mutual
    /// collision between the new pair is disabled whatever the given
    /// specification asked; on failure the chain is unchanged.  On success
    /// the result is the new link's index.
    pub fn attach(
        &mut self,
        parent_link: usize,
        kind: BodyKind,
        shape: Capsule,
        joint_spec: JointSpec,
    ) -> (r: Result<usize, ConfigError>)
        requires
            old(self).wf(),
        ensures
            final(self).wf(),
            r is Ok <==> parent_link < old(self).links@.len() && joint_spec.wf(),
            r is Err ==> *final(self) == *old(self),
            parent_link >= old(self).links@.len() ==> r == Err::<usize, ConfigError>(
                ConfigError::NoSuchParentLink,
            ),
            parent_link < old(self).links@.len() && !joint_spec.wf() ==> r == (match validation_of(
                joint_spec,
            ) {
                Ok(_) => Err::<usize, ConfigError>(ConfigError::NoSuchParentLink),
                Err(e) => Err::<usize, ConfigError>(e),
            }),
            r is Ok ==> {
                &&& r->Ok_0 == old(self).links@.len()
                &&& final(self).links@ == old(self).links@.push(
                    (Link { kind, shape: Some(shape) }),
                )
                &&& final(self).joints@ == old(self).joints@.push(
                    (JointEntry {
                        parent_link,
                        child_link: r->Ok_0,
                        joint_spec: (JointSpec { contacts_enabled: false, ..joint_spec }),
                    }),
                )
            },
    {
        if parent_link >= self.links.len() {
            return Err(ConfigError::NoSuchParentLink);
        }
        match joint_spec.validate() {
            Err(e) => Err(e),
            Ok(_) => {
                let child_link = self.links.len();
                self.links.push(Link { kind, shape: Some(shape) });
                self.joints.push(
                    JointEntry {
                        parent_link,
                        child_link,
                        joint_spec: joint_spec.set_contacts_enabled(false),
                    },
                );
                Ok(child_link)
            },
        }
    }
}

} // verus!
