use vstd::prelude::*;
use crate::multibody::{JointFrame, MbLink, Multibody, ResolvedJoint};
use crate::units::{MILLI, Rotation, Vec3Fixed, rotation_identity};

verus! {

/// A diagnostic ray drawn for one frame: its origin is the inspected body's
/// world translation; its direction is the joint's reference axis in the
/// child body's local basis, which the renderer maps through the body's
/// world orientation before drawing.  Emitting a ray never feeds back into
/// the structure.
#[derive(Clone, Copy, Debug, PartialEq, Eq, Structural)]
pub struct Ray {
    pub origin: Vec3Fixed,
    pub direction: Vec3Fixed,
}

/// A stable back-reference from a tracked component to one multibody
/// structure in a store.  It does not own the structure: a handle may go
/// stale, and a stale handle is skipped, not an error.
#[derive(Clone, Copy, Debug, PartialEq, Eq, Structural)]
pub struct JointHandle {
    pub index: usize,
}

/// The joint's reference axis in the child body's local basis.  The
/// corrective reset pins both local frames to the body bases, so the free
/// axis is exactly this configured one: the local x axis, one unit long.
pub open spec fn reference_axis() -> Vec3Fixed {
    Vec3Fixed { x: MILLI, y: 0, z: 0 }
}

/// A frame with its rotation overwritten back to the identity; the pivot
/// anchor is kept.
pub open spec fn frame_reset(f: JointFrame) -> JointFrame {
    JointFrame { anchor: f.anchor, rotation: rotation_identity() }
}

/// A joint with both of its local-frame rotations reset to the identity.
pub open spec fn joint_reset(j: ResolvedJoint) -> ResolvedJoint {
    ResolvedJoint {
        local_frame_parent: frame_reset(j.local_frame_parent),
        local_frame_child: frame_reset(j.local_frame_child),
    }
}

/// A link whose joint has been reset; its world transform is untouched.
pub open spec fn link_reset(l: MbLink) -> MbLink {
    MbLink { world_translation: l.world_translation, joint: joint_reset(l.joint) }
}

/// What one inspection pass leaves of a structure's links: a structure with
/// fewer than two links is degenerate and left alone; otherwise the first
/// non-root link's joint frames are reset.
pub open spec fn inspected(links: Seq<MbLink>) -> Seq<MbLink> {
    if links.len() < 2 {
        links
    } else {
        links.update(1, link_reset(links[1]))
    }
}

/// The ray one inspection pass emits: none for a degenerate structure, else
/// one ray from the first non-root link's world translation along the
/// reference axis.
pub open spec fn ray_of(links: Seq<MbLink>) -> Option<Ray> {
    if links.len() < 2 {
        None
    } else {
        Some((Ray { origin: links[1].world_translation, direction: reference_axis() }))
    }
}

/// The corrective pass is idempotent: a second inspection straight after a
/// first leaves exactly the frames the first left, and would emit the same
/// ray.
pub proof fn lemma_inspect_idempotent(links: Seq<MbLink>)
    ensures
        inspected(inspected(links)) == inspected(links),
        ray_of(inspected(links)) == ray_of(links),
{
    if links.len() >= 2 {
        assert(inspected(inspected(links)) =~= inspected(links));
    }
}

/// Whether every local-frame rotation in the structure stands at the
/// identity, as resolution leaves them and the corrective pass restores
/// them.
pub open spec fn frames_identity(links: Seq<MbLink>) -> bool {
    forall|k: int|
        0 <= k < links.len() ==> (#[trigger] links[k]).joint.local_frame_parent.rotation
            == rotation_identity() && links[k].joint.local_frame_child.rotation
            == rotation_identity()
}

/// A structure whose frames already stand at the identity is a fixed point
/// of the corrective pass: inspecting a freshly resolved structure, of any
/// number of links, changes nothing.
pub proof fn lemma_identity_frames_fixed_point(links: Seq<MbLink>)
    requires
        frames_identity(links),
    ensures
        inspected(links) == links,
{
    if links.len() >= 2 {
        assert(link_reset(links[1]) == links[1]);
        assert(inspected(links) =~= links);
    }
}

/// One inspection pass over one resolved structure: skip a structure with
/// fewer than two links untouched, else reset both local-frame rotations of
/// the first non-root link's joint to the identity and emit one diagnostic
/// ray from that link's world translation along the reference axis.
pub fn inspect_tick(mb: &mut Multibody) -> (ray: Option<Ray>)
    ensures
        final(mb).links@ == inspected(old(mb).links@),
        ray == ray_of(old(mb).links@),
        old(mb).links@.len() < 2 ==> *final(mb) == *old(mb) && ray is None,
{
    if mb.links.len() < 2 {
        return None;
    }
    let link = &mut mb.links[1];
    link.joint.local_frame_parent.rotation = Rotation::identity();
    link.joint.local_frame_child.rotation = Rotation::identity();
    let origin = link.world_translation;
    Some(Ray { origin, direction: Vec3Fixed { x: MILLI, y: 0, z: 0 } })
}

/// The structures a scene tracks, keyed by handle index.  This is the
/// library's own mirror of the solver's multibody storage: the solver is
/// reached only through the opaque handles.
#[derive(Clone, Debug, PartialEq)]
pub struct MultibodyStore {
    pub multibodies: Vec<Multibody>,
}

/// What one inspection does to a whole store: a stale handle leaves every
/// structure alone and emits nothing; a live one inspects the structure it
/// names.
pub open spec fn step_model(mbs: Seq<Seq<MbLink>>, h: JointHandle) -> (Seq<Seq<MbLink>>, Option<
    Ray,
>) {
    if h.index >= mbs.len() {
        (mbs, None::<Ray>)
    } else {
        (mbs.update(h.index as int, inspected(mbs[h.index as int])), ray_of(mbs[h.index as int]))
    }
}

/// What one full tick does to a store: the handles are served in order, each
/// step working on the store the previous step left, and the emitted rays
/// are collected in the same order.
pub open spec fn run_model(mbs: Seq<Seq<MbLink>>, handles: Seq<JointHandle>) -> (Seq<Seq<MbLink>>, Seq<
    Ray,
>)
    decreases handles.len(),
{
    if handles.len() == 0 {
        (mbs, Seq::<Ray>::empty())
    } else {
        let stepped = step_model(mbs, handles[0]);
        let rest = run_model(stepped.0, handles.drop_first());
        (
            rest.0,
            match stepped.1 {
                None => rest.1,
                Some(ray) => seq![ray] + rest.1,
            },
        )
    }
}

/// How many of the handles resolve to a structure of at least two links in
/// the given store.
pub open spec fn live_handle_count(mbs: Seq<Seq<MbLink>>, handles: Seq<JointHandle>) -> int
    decreases handles.len(),
{
    if handles.len() == 0 {
        0
    } else {
        (if handles[0].index < mbs.len() && mbs[handles[0].index as int].len() >= 2 {
            1int
        } else {
            0int
        }) + live_handle_count(mbs, handles.drop_first())
    }
}

/// Serving a handle never changes how many structures a store holds, nor
/// how many links any of them has.
pub proof fn lemma_step_keeps_lengths(mbs: Seq<Seq<MbLink>>, h: JointHandle)
    ensures
        step_model(mbs, h).0.len() == mbs.len(),
        forall|j: int| 0 <= j < mbs.len() ==> (#[trigger] step_model(mbs, h).0[j]).len()
            == mbs[j].len(),
{
}

/// The count of live handles reads only the stores' lengths: two stores of
/// the same shape agree on it.
pub proof fn lemma_live_count_shape(a: Seq<Seq<MbLink>>, b: Seq<Seq<MbLink>>, handles: Seq<
    JointHandle,
>)
    requires
        a.len() == b.len(),
        forall|j: int| 0 <= j < a.len() ==> (#[trigger] a[j]).len() == b[j].len(),
    ensures
        live_handle_count(a, handles) == live_handle_count(b, handles),
    decreases handles.len(),
{
    if handles.len() > 0 {
        lemma_live_count_shape(a, b, handles.drop_first());
    }
}

/// A tick emits exactly one ray per handle that resolves to a structure of
/// at least two links, stale handles and degenerate structures contributing
/// none.
pub proof fn lemma_one_ray_per_live_handle(mbs: Seq<Seq<MbLink>>, handles: Seq<JointHandle>)
    ensures
        run_model(mbs, handles).1.len() == live_handle_count(mbs, handles),
    decreases handles.len(),
{
    if handles.len() > 0 {
        let stepped = step_model(mbs, handles[0]);
        lemma_one_ray_per_live_handle(stepped.0, handles.drop_first());
        lemma_step_keeps_lengths(mbs, handles[0]);
        lemma_live_count_shape(stepped.0, mbs, handles.drop_first());
    }
}

impl MultibodyStore {
    /// The store as the links of each structure it holds, in handle order.
    pub open spec fn model(self) -> Seq<Seq<MbLink>> {
        self.multibodies@.map_values(|mb: Multibody| mb.links@)
    }

    /// An empty store.
    pub fn new() -> (s: MultibodyStore)
        ensures
            s.model() =~= Seq::<Seq<MbLink>>::empty(),
    {
        MultibodyStore { multibodies: Vec::new() }
    }

    /// Adds a resolved structure to the store and hands back the handle that
    /// will find it again.
    pub fn register(&mut self, mb: Multibody) -> (h: JointHandle)
        ensures
            h.index == old(self).multibodies@.len(),
            final(self).model() =~= old(self).model().push(mb.links@),
    {
        let index = self.multibodies.len();
        self.multibodies.push(mb);
        JointHandle { index }
    }

    /// The number of structures the store holds.
    pub fn len(&self) -> (n: usize)
        ensures
            n == self.multibodies@.len(),
    {
        self.multibodies.len()
    }

    /// Serves one tracked handle: resolves it, skipping a stale handle for
    /// this tick without touching anything, and otherwise runs the
    /// inspection pass on the structure it names.
    pub fn inspect(&mut self, h: JointHandle) -> (ray: Option<Ray>)
        ensures
            final(self).model() == step_model(old(self).model(), h).0,
            ray == step_model(old(self).model(), h).1,
            h.index >= old(self).multibodies@.len() ==> *final(self) == *old(self),
    {
        if h.index >= self.multibodies.len() {
            return None;
        }
        let mb = &mut self.multibodies[h.index];
        let ray = inspect_tick(mb);
        proof {
            assert(final(self).model() =~= step_model(old(self).model(), h).0);
        }
        ray
    }

    /// One full tick of the inspector: every tracked handle is served in
    /// order and the diagnostic rays are returned in that order, exactly one
    /// per handle that resolved to a structure of at least two links.
    pub fn run_tick(&mut self, handles: &Vec<JointHandle>) -> (rays: Vec<Ray>)
        ensures
            final(self).model() == run_model(old(self).model(), handles@).0,
            rays@ == run_model(old(self).model(), handles@).1,
    {
        let ghost m0 = self.model();
        let mut rays: Vec<Ray> = Vec::new();
        let mut i: usize = 0;
        proof {
            assert(handles@.skip(0) =~= handles@);
        }
        while i < handles.len()
            invariant
                0 <= i <= handles@.len(),
                run_model(self.model(), handles@.skip(i as int)).0 == run_model(m0, handles@).0,
                rays@ + run_model(self.model(), handles@.skip(i as int)).1 == run_model(
                    m0,
                    handles@,
                ).1,
            decreases handles@.len() - i,
        {
            let ghost rays_before = rays@;
            let h = handles[i];
            proof {
                assert(handles@.skip(i as int)[0] == handles@[i as int]);
                assert(handles@.skip(i as int).drop_first() =~= handles@.skip(i as int + 1));
            }
            let ray = self.inspect(h);
            match ray {
                Some(r) => {
                    rays.push(r);
                    proof {
                        let tail = run_model(self.model(), handles@.skip(i as int + 1)).1;
                        assert(rays@ + tail =~= rays_before + (seq![r] + tail));
                    }
                },
                None => {},
            }
            i = i + 1;
        }
        proof {
            assert(handles@.skip(handles@.len() as int) =~= Seq::<JointHandle>::empty());
            assert(rays@ + Seq::<Ray>::empty() =~= rays@);
        }
        rays
    }
}

} // verus!
