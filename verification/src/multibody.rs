use vstd::prelude::*;
use crate::chain::Chain;
use crate::units::{Rotation, Vec3Fixed, rotation_identity};

verus! {

/// One attachment frame of a resolved joint, expressed in one connected
/// body's local coordinates: where the pivot sits and how the frame is
/// rotated against the body's own basis.
#[derive(Clone, Copy, Debug, PartialEq, Eq, Structural)]
pub struct JointFrame {
    pub anchor: Vec3Fixed,
    pub rotation: Rotation,
}

/// A joint as the solver holds it: one local frame per connected body.  A
/// well-formed joint keeps both rotations at unit length; numerical drift
/// can corrupt them, which the per-tick corrective reset counteracts.
#[derive(Clone, Copy, Debug, PartialEq, Eq, Structural)]
pub struct ResolvedJoint {
    pub local_frame_parent: JointFrame,
    pub local_frame_child: JointFrame,
}

/// One link of a resolved multibody structure: the joint that attaches it to
/// its parent, and the translation of the body's current world transform.
/// The root link carries a trivial joint to the world.
#[derive(Clone, Copy, Debug, PartialEq, Eq, Structural)]
pub struct MbLink {
    pub world_translation: Vec3Fixed,
    pub joint: ResolvedJoint,
}

/// A multibody structure: the links of one chain as the solver holds them,
/// root first, solved jointly rather than as independent pairs.
#[derive(Clone, Debug, PartialEq)]
pub struct Multibody {
    pub links: Vec<MbLink>,
}

/// A frame with both components at rest: pivot at the body's origin,
/// rotation at the identity.
pub open spec fn trivial_frame() -> JointFrame {
    JointFrame { anchor: (Vec3Fixed { x: 0, y: 0, z: 0 }), rotation: rotation_identity() }
}

impl Multibody {
    /// The number of links in the structure, the root included.
    pub fn num_links(&self) -> (n: usize)
        ensures
            n == self.links@.len(),
    {
        self.links.len()
    }

    /// Resolves a built chain into the structure the solver starts from: one
    /// link per chain link, the joint frames anchored where the chain's
    /// joint specifications put them, every rotation at the identity, every
    /// body at the world origin until the first solve moves it.
    pub fn resolve(chain: &Chain) -> (mb: Multibody)
        requires
            chain.wf(),
        ensures
            mb.links@.len() == chain.links@.len(),
            mb.links@[0] == (MbLink {
                world_translation: (Vec3Fixed { x: 0, y: 0, z: 0 }),
                joint: (ResolvedJoint {
                    local_frame_parent: trivial_frame(),
                    local_frame_child: trivial_frame(),
                }),
            }),
            forall|k: int|
                1 <= k < mb.links@.len() ==> (#[trigger] mb.links@[k]) == (MbLink {
                    world_translation: (Vec3Fixed { x: 0, y: 0, z: 0 }),
                    joint: (ResolvedJoint {
                        local_frame_parent: (JointFrame {
                            anchor: chain.joints@[k - 1].joint_spec.anchor_on_parent,
                            rotation: rotation_identity(),
                        }),
                        local_frame_child: (JointFrame {
                            anchor: chain.joints@[k - 1].joint_spec.anchor_on_child,
                            rotation: rotation_identity(),
                        }),
                    }),
                }),
    {
        let mut links: Vec<MbLink> = Vec::new();
        links.push(
            MbLink {
                world_translation: Vec3Fixed::zero(),
                joint: ResolvedJoint {
                    local_frame_parent: JointFrame {
                        anchor: Vec3Fixed::zero(),
                        rotation: Rotation::identity(),
                    },
                    local_frame_child: JointFrame {
                        anchor: Vec3Fixed::zero(),
                        rotation: Rotation::identity(),
                    },
                },
            },
        );
        let mut k: usize = 0;
        while k < chain.joints.len()
            invariant
                chain.wf(),
                0 <= k <= chain.joints@.len(),
                links@.len() == k + 1,
                links@[0] == (MbLink {
                    world_translation: (Vec3Fixed { x: 0, y: 0, z: 0 }),
                    joint: (ResolvedJoint {
                        local_frame_parent: trivial_frame(),
                        local_frame_child: trivial_frame(),
                    }),
                }),
                forall|j: int|
                    1 <= j < links@.len() ==> (#[trigger] links@[j]) == (MbLink {
                        world_translation: (Vec3Fixed { x: 0, y: 0, z: 0 }),
                        joint: (ResolvedJoint {
                            local_frame_parent: (JointFrame {
                                anchor: chain.joints@[j - 1].joint_spec.anchor_on_parent,
                                rotation: rotation_identity(),
                            }),
                            local_frame_child: (JointFrame {
                                anchor: chain.joints@[j - 1].joint_spec.anchor_on_child,
                                rotation: rotation_identity(),
                            }),
                        }),
                    }),
            decreases chain.joints@.len() - k,
        {
            let entry = &chain.joints[k];
            links.push(
                MbLink {
                    world_translation: Vec3Fixed::zero(),
                    joint: ResolvedJoint {
                        local_frame_parent: JointFrame {
                            anchor: entry.joint_spec.anchor_on_parent,
                            rotation: Rotation::identity(),
                        },
                        local_frame_child: JointFrame {
                            anchor: entry.joint_spec.anchor_on_child,
                            rotation: Rotation::identity(),
                        },
                    },
                },
            );
            k = k + 1;
        }
        Multibody { links }
    }
}

} // verus!
