use vstd::prelude::*;

verus! {

/// Largest number of vertices that one batch holds.
pub const MAX_VERTS: usize = 40;

/// Largest number of element indices that one batch holds.
pub const MAX_ELEMS: usize = 64;

/// Element indices of a quad given as top-left, top-right, bottom-left,
/// bottom-right: two triangles.
pub open spec fn quad_elements() -> Seq<u32> {
    seq![0u32, 1u32, 2u32, 2u32, 3u32, 1u32]
}

/// Whether appending `add_verts` vertices and `add_elems` indices to a batch of
/// `n_verts` vertices and `n_elems` indices would overrun its capacity.
pub open spec fn overflows(n_verts: nat, n_elems: nat, add_verts: nat, add_elems: nat) -> bool {
    n_verts + add_verts > MAX_VERTS || n_elems + add_elems > MAX_ELEMS
}

/// Every index moved up by `delta`, so that it refers to the same vertex once
/// the vertices are appended after `delta` others.
pub open spec fn rebased(elems: Seq<u32>, delta: nat) -> Seq<u32> {
    Seq::new(elems.len(), |i: int| (elems[i] + delta) as u32)
}

/// The vertices and indices queued after appending `verts` and `elems` to a
/// batch of `vs` and `es`: the batch is drained first where they would not fit.
pub open spec fn batch_after_push<V>(vs: Seq<V>, es: Seq<u32>, verts: Seq<V>, elems: Seq<u32>) -> (Seq<V>, Seq<u32>) {
    if overflows(vs.len(), es.len(), verts.len(), elems.len()) {
        (verts, rebased(elems, 0))
    } else {
        (vs + verts, es + rebased(elems, vs.len()))
    }
}

/// A list of indices that a batch can draw: whole triangles, each index naming
/// one of `n_verts` vertices.
pub open spec fn valid_elements(elems: Seq<u32>, n_verts: nat) -> bool {
    &&& elems.len() % 3 == 0
    &&& forall|i: int| 0 <= i < elems.len() ==> (#[trigger] elems[i]) < n_verts
}

/// The view transform shared by a whole batch: a rotation by `rotation` about
/// the point `origin`. A value type: each change yields a new value.
#[derive(Clone, Copy)]
pub struct ViewTransform<O, R> {
    pub origin: O,
    pub rotation: R,
}

impl<O: Copy, R: Copy> ViewTransform<O, R> {
    /// This transform with its origin replaced.
    pub open spec fn with_origin_spec(self, origin: O) -> Self {
        ViewTransform { origin, rotation: self.rotation }
    }

    /// This transform with its rotation replaced.
    pub open spec fn with_rotation_spec(self, rotation: R) -> Self {
        ViewTransform { origin: self.origin, rotation }
    }

    /// A transform that rotates by `rotation` about `origin`; with a zero
    /// origin and a zero angle this is the identity.
    pub fn new(origin: O, rotation: R) -> (r: Self)
        ensures
            r.origin == origin,
            r.rotation == rotation,
    {
        ViewTransform { origin, rotation }
    }

    /// This transform with its rotation replaced.
    pub fn with_rotation(&self, rotation: R) -> (r: Self)
        ensures
            r == self.with_rotation_spec(rotation),
    {
        ViewTransform { origin: self.origin, rotation }
    }

    /// This transform with its origin replaced.
    pub fn with_origin(&self, origin: O) -> (r: Self)
        ensures
            r == self.with_origin_spec(origin),
    {
        ViewTransform { origin, rotation: self.rotation }
    }
}

/// Appending to a batch that has room keeps everything already queued, and
/// moves each new index up by the number of vertices queued before: in the
/// whole batch it names the very vertex that it named among those pushed with
/// it. Applied push after push, every index stays within its own push.
pub proof fn lemma_push_rebases<V>(vs: Seq<V>, es: Seq<u32>, verts: Seq<V>, elems: Seq<u32>)
    requires
        vs.len() <= MAX_VERTS,
        es.len() <= MAX_ELEMS,
        valid_elements(es, vs.len()),
        valid_elements(elems, verts.len()),
        !overflows(vs.len(), es.len(), verts.len(), elems.len()),
    ensures
        batch_after_push(vs, es, verts, elems).0.subrange(0, vs.len() as int) == vs,
        batch_after_push(vs, es, verts, elems).1.subrange(0, es.len() as int) == es,
        batch_after_push(vs, es, verts, elems).1.len() == es.len() + elems.len(),
        forall|i: int|
            #![trigger elems[i]]
            0 <= i < elems.len() ==> {
                let e = batch_after_push(vs, es, verts, elems).1[es.len() + i];
                &&& e == elems[i] + vs.len()
                &&& vs.len() <= e < vs.len() + verts.len()
                &&& batch_after_push(vs, es, verts, elems).0[e as int] == verts[elems[i] as int]
            },
{
    let nv = batch_after_push(vs, es, verts, elems).0;
    let ne = batch_after_push(vs, es, verts, elems).1;
    assert(nv.subrange(0, vs.len() as int) =~= vs);
    assert(ne.subrange(0, es.len() as int) =~= es);
    assert forall|i: int|
        #![trigger elems[i]]
        0 <= i < elems.len() implies {
            let e = ne[es.len() + i];
            &&& e == elems[i] + vs.len()
            &&& vs.len() <= e < vs.len() + verts.len()
            &&& nv[e as int] == verts[elems[i] as int]
        } by {
        assert(elems[i] < verts.len());
        assert(ne[es.len() + i] == rebased(elems, vs.len())[i]);
    }
}

/// Appending to a batch that lacks room drains it first: afterwards it holds
/// exactly the new vertices and indices, the indices as they were given.
pub proof fn lemma_full_batch_drains<V>(vs: Seq<V>, es: Seq<u32>, verts: Seq<V>, elems: Seq<u32>)
    requires
        overflows(vs.len(), es.len(), verts.len(), elems.len()),
    ensures
        batch_after_push(vs, es, verts, elems).0 == verts,
        batch_after_push(vs, es, verts, elems).1 == elems,
{
    assert(rebased(elems, 0) =~= elems);
}

/// A push leaves its vertices queued, last in the batch, whether or not the
/// batch was drained first. So the change of view transform that follows draws
/// them under the transform they were queued with, and shapes queued with a
/// change of transform between them are never drawn together.
pub proof fn lemma_pushed_vertices_stay_queued<V>(vs: Seq<V>, es: Seq<u32>, verts: Seq<V>, elems: Seq<u32>)
    ensures
        ({
            let nv = batch_after_push(vs, es, verts, elems).0;
            &&& nv.len() >= verts.len()
            &&& nv.subrange(nv.len() - verts.len(), nv.len() as int) == verts
        }),
{
    let nv = batch_after_push(vs, es, verts, elems).0;
    assert(nv.subrange(nv.len() - verts.len(), nv.len() as int) =~= verts);
}

/// One indexed-triangle draw call: the batch and the uniforms it is drawn with.
pub struct DrawCall<V, P, O, R> {
    pub projection: P,
    pub transform: ViewTransform<O, R>,
    pub vertices: Vec<V>,
    pub elements: Vec<u32>,
}

/// The batching engine: a bounded staging buffer of vertices and indices, and
/// the projection and view transform that the next draw call will use.
///
/// `V` is the vertex, `P` the projection, `O` the origin and `R` the rotation
/// of the view transform; the engine copies them and never looks inside.
/// Every operation that submits GPU work returns the draw call for the caller
/// to issue.
pub struct Context<V, P, O, R> {
    vertices: Vec<V>,
    elements: Vec<u32>,
    projection: P,
    transform: ViewTransform<O, R>,
}

impl<V: Copy, P: Copy, O: Copy, R: Copy> Context<V, P, O, R> {
    /// The queued vertices, in order.
    pub closed spec fn vertices_view(&self) -> Seq<V> {
        self.vertices@
    }

    /// The queued element indices, in order, relative to the whole batch.
    pub closed spec fn elements_view(&self) -> Seq<u32> {
        self.elements@
    }

    /// The projection that the next draw call uses.
    pub closed spec fn projection_view(&self) -> P {
        self.projection
    }

    /// The view transform that the next draw call uses.
    pub closed spec fn transform_view(&self) -> ViewTransform<O, R> {
        self.transform
    }

    /// The buffer holds whole triangles over its own vertices, within capacity.
    pub open spec fn wf(&self) -> bool {
        &&& self.vertices_view().len() <= MAX_VERTS
        &&& self.elements_view().len() <= MAX_ELEMS
        &&& valid_elements(self.elements_view(), self.vertices_view().len())
    }

    /// The draw call that flushing this batch issues.
    pub open spec fn drawn_by(&self, d: DrawCall<V, P, O, R>) -> bool {
        &&& d.projection == self.projection_view()
        &&& d.transform == self.transform_view()
        &&& d.vertices@ == self.vertices_view()
        &&& d.elements@ == self.elements_view()
    }

    /// An empty context with the given projection and view transform.
    pub fn new(projection: P, transform: ViewTransform<O, R>) -> (r: Self)
        ensures
            r.wf(),
            r.vertices_view() == Seq::<V>::empty(),
            r.elements_view() == Seq::<u32>::empty(),
            r.projection_view() == projection,
            r.transform_view() == transform,
    {
        Context {
            vertices: Vec::with_capacity(MAX_VERTS),
            elements: Vec::with_capacity(MAX_ELEMS),
            projection,
            transform,
        }
    }

    /// Whether a batch is queued.
    pub fn has_vertices(&self) -> (r: bool)
        ensures
            r == (self.vertices_view().len() > 0),
    {
        self.vertices.len() > 0
    }

    /// Hands out the queued batch as a draw call with the current projection and
    /// view transform, and empties the buffer. An empty buffer draws nothing.
    pub fn flush_verts(&mut self) -> (r: Option<DrawCall<V, P, O, R>>)
        requires
            old(self).wf(),
        ensures
            final(self).wf(),
            final(self).projection_view() == old(self).projection_view(),
            final(self).transform_view() == old(self).transform_view(),
            old(self).vertices_view().len() == 0 ==> r.is_none() && *final(self) == *old(self),
            old(self).vertices_view().len() > 0 ==> r.is_some() && old(self).drawn_by(r.unwrap()),
            final(self).vertices_view() == Seq::<V>::empty(),
            final(self).elements_view() == Seq::<u32>::empty(),
    {
        if self.vertices.len() == 0 {
            proof {
                if self.elements@.len() > 0 {
                    assert(self.elements@[0] < 0);
                }
            }
            return None;
        }
        let mut vertices: Vec<V> = Vec::with_capacity(MAX_VERTS);
        let mut elements: Vec<u32> = Vec::with_capacity(MAX_ELEMS);
        std::mem::swap(&mut vertices, &mut self.vertices);
        std::mem::swap(&mut elements, &mut self.elements);
        Some(DrawCall { projection: self.projection, transform: self.transform, vertices, elements })
    }

    /// Appends `verts` and `elems` to the batch, each index moved past the
    /// vertices already queued. Where they would not fit, the queued batch is
    /// flushed first and returned as the draw call to issue.
    pub fn push_verts(&mut self, verts: &[V], elems: &[u32]) -> (r: Option<DrawCall<V, P, O, R>>)
        requires
            old(self).wf(),
            verts@.len() <= MAX_VERTS,
            elems@.len() <= MAX_ELEMS,
            valid_elements(elems@, verts@.len()),
        ensures
            final(self).wf(),
            final(self).projection_view() == old(self).projection_view(),
            final(self).transform_view() == old(self).transform_view(),
            ({
                let full = overflows(
                    old(self).vertices_view().len(),
                    old(self).elements_view().len(),
                    verts@.len(),
                    elems@.len(),
                );
                &&& r.is_some() == full
                &&& full ==> old(self).drawn_by(r.unwrap())
            }),
            (final(self).vertices_view(), final(self).elements_view()) == batch_after_push(
                old(self).vertices_view(),
                old(self).elements_view(),
                verts@,
                elems@,
            ),
    {
        let mut drawn: Option<DrawCall<V, P, O, R>> = None;
        if self.vertices.len() + verts.len() > MAX_VERTS || self.elements.len() + elems.len() > MAX_ELEMS {
            drawn = self.flush_verts();
        }
        let ghost kept_verts = self.vertices@;
        let ghost kept_elems = self.elements@;
        let elem_delta: u32 = self.vertices.len() as u32;

        let mut i: usize = 0;
        while i < verts.len()
            invariant
                i <= verts@.len(),
                kept_verts.len() == elem_delta,
                kept_verts.len() + verts@.len() <= MAX_VERTS,
                self.vertices@ == kept_verts + verts@.subrange(0, i as int),
                self.elements@ == kept_elems,
                self.projection == old(self).projection,
                self.transform == old(self).transform,
            decreases verts@.len() - i,
        {
            self.vertices.push(verts[i]);
            i = i + 1;
        }
        assert(verts@.subrange(0, verts@.len() as int) == verts@);

        let mut j: usize = 0;
        while j < elems.len()
            invariant
                j <= elems@.len(),
                kept_verts.len() == elem_delta,
                kept_elems.len() + elems@.len() <= MAX_ELEMS,
                elem_delta + verts@.len() <= MAX_VERTS,
                valid_elements(elems@, verts@.len()),
                self.vertices@ == kept_verts + verts@,
                self.elements@ == kept_elems + rebased(elems@.subrange(0, j as int), elem_delta as nat),
                self.projection == old(self).projection,
                self.transform == old(self).transform,
            decreases elems@.len() - j,
        {
            assert(elems@[j as int] < verts@.len());
            self.elements.push(elems[j] + elem_delta);
            proof {
                assert(rebased(elems@.subrange(0, j + 1), elem_delta as nat)
                    =~= rebased(elems@.subrange(0, j as int), elem_delta as nat).push(
                    (elems@[j as int] + elem_delta) as u32,
                ));
            }
            j = j + 1;
        }
        assert(elems@.subrange(0, elems@.len() as int) == elems@);
        proof {
            let n = self.vertices@.len();
            assert(self.elements@.len() % 3 == 0) by {
                assert(kept_elems.len() % 3 == 0);
                assert(elems@.len() % 3 == 0);
            }
            assert forall|k: int| 0 <= k < self.elements@.len() implies (#[trigger] self.elements@[k]) < n by {
                if k >= kept_elems.len() {
                    assert(elems@[k - kept_elems.len()] < verts@.len());
                }
            }
        }
        drawn
    }

    /// Queues a quad given by its corners as two triangles, indices
    /// `[0, 1, 2, 2, 3, 1]` past the vertices already queued.
    pub fn push_quad(&mut self, tl: V, tr: V, bl: V, br: V) -> (r: Option<DrawCall<V, P, O, R>>)
        requires
            old(self).wf(),
        ensures
            final(self).wf(),
            final(self).projection_view() == old(self).projection_view(),
            final(self).transform_view() == old(self).transform_view(),
            ({
                let full = overflows(old(self).vertices_view().len(), old(self).elements_view().len(), 4, 6);
                &&& r.is_some() == full
                &&& full ==> old(self).drawn_by(r.unwrap())
            }),
            (final(self).vertices_view(), final(self).elements_view()) == batch_after_push(
                old(self).vertices_view(),
                old(self).elements_view(),
                seq![tl, tr, bl, br],
                quad_elements(),
            ),
    {
        let verts: [V; 4] = [tl, tr, bl, br];
        let elems: [u32; 6] = [0, 1, 2, 2, 3, 1];
        proof {
            assert(verts@ =~= seq![tl, tr, bl, br]);
            assert(elems@ =~= quad_elements());
        }
        self.push_verts(verts.as_slice(), elems.as_slice())
    }

    /// Replaces the projection. The queued batch stays queued, and is drawn
    /// with whichever projection is current when it is flushed.
    pub fn set_projection(&mut self, projection: P)
        requires
            old(self).wf(),
        ensures
            final(self).wf(),
            final(self).projection_view() == projection,
            final(self).transform_view() == old(self).transform_view(),
            final(self).vertices_view() == old(self).vertices_view(),
            final(self).elements_view() == old(self).elements_view(),
    {
        self.projection = projection;
    }

    /// Replaces the view transform. A queued batch is flushed first, drawn with
    /// the transform it was queued under, so that a change never reaches
    /// vertices queued before it.
    fn set_transform(&mut self, transform: ViewTransform<O, R>) -> (r: Option<DrawCall<V, P, O, R>>)
        requires
            old(self).wf(),
        ensures
            final(self).wf(),
            final(self).transform_view() == transform,
            final(self).projection_view() == old(self).projection_view(),
            final(self).vertices_view() == Seq::<V>::empty(),
            final(self).elements_view() == Seq::<u32>::empty(),
            r.is_some() == (old(self).vertices_view().len() > 0),
            r.is_some() ==> old(self).drawn_by(r.unwrap()),
    {
        let drawn = self.flush_verts();
        self.transform = transform;
        drawn
    }

    /// Moves the pivot of the view transform, flushing the queued batch first.
    pub fn set_origin(&mut self, origin: O) -> (r: Option<DrawCall<V, P, O, R>>)
        requires
            old(self).wf(),
        ensures
            final(self).wf(),
            final(self).transform_view() == old(self).transform_view().with_origin_spec(origin),
            final(self).projection_view() == old(self).projection_view(),
            final(self).vertices_view() == Seq::<V>::empty(),
            final(self).elements_view() == Seq::<u32>::empty(),
            r.is_some() == (old(self).vertices_view().len() > 0),
            r.is_some() ==> old(self).drawn_by(r.unwrap()),
    {
        let t = self.transform.with_origin(origin);
        self.set_transform(t)
    }

    /// Sets the rotation of the view transform, flushing the queued batch first.
    pub fn set_rotation(&mut self, rotation: R) -> (r: Option<DrawCall<V, P, O, R>>)
        requires
            old(self).wf(),
        ensures
            final(self).wf(),
            final(self).transform_view() == old(self).transform_view().with_rotation_spec(rotation),
            final(self).projection_view() == old(self).projection_view(),
            final(self).vertices_view() == Seq::<V>::empty(),
            final(self).elements_view() == Seq::<u32>::empty(),
            r.is_some() == (old(self).vertices_view().len() > 0),
            r.is_some() ==> old(self).drawn_by(r.unwrap()),
    {
        let t = self.transform.with_rotation(rotation);
        self.set_transform(t)
    }
}

} // verus!
