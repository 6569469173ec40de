//! Batching for the GPU backend: consecutive drawings with compatible
//! brushes share one batch, and with it one set of buffers and one draw
//! call.

use piet::kurbo::Point;
use vstd::prelude::*;

use crate::gradient::{
    after_lookup, all_distinct, extends, first_match, handles_equal, is_slot_of,
    lemma_lookup_extends, lemma_second_lookup_finds, no_match, positions_are_numbers, slot_holds,
    GradientHandle, GradientStop, GradientStore, LinearGradient, TextureSlot,
};

verus! {

/// The paint of a fill or a stroke.
#[derive(Debug)]
pub enum WgpuBrush {
    /// One colour, as RGBA.
    Solid(u32),
    LinearGradient(LinearGradient),
}

impl Clone for WgpuBrush {
    fn clone(&self) -> (b: WgpuBrush)
        ensures
            forall|batch: BatchView| compatible(batch, b) == compatible(batch, *self),
            forall|batch: BatchView| with_primitive(batch, b) == with_primitive(batch, *self),
            fresh_batch(b) == fresh_batch(*self),
    {
        match self {
            WgpuBrush::Solid(color) => WgpuBrush::Solid(*color),
            WgpuBrush::LinearGradient(gradient) => WgpuBrush::LinearGradient(gradient.clone()),
        }
    }
}

impl WgpuBrush {
    pub fn is_solid(&self) -> (r: bool)
        ensures
            r == (self is Solid),
    {
        match self {
            WgpuBrush::Solid(..) => true,
            _ => false,
        }
    }

    pub fn is_linear_gradient(&self) -> (r: bool)
        ensures
            r == (self is LinearGradient),
    {
        match self {
            WgpuBrush::LinearGradient(..) => true,
            _ => false,
        }
    }
}

/// What the shader gets for one drawing with a solid brush.
#[derive(Clone, Copy, Debug)]
pub struct SolidPrimitive {
    /// The colour, as RGBA.
    pub color: u32,
}

/// What the shader gets for one drawing with a linear gradient.
#[derive(Clone, Copy, Debug)]
pub struct LinearGradientPrimitive {
    pub start: Point,
    pub end: Point,
}

/// Most vertices that the buffers of a batch hold.
pub const MAX_VERTEX_BUFFER_SIZE: usize = 35000;

/// Most indices that the buffers of a batch hold.
pub const MAX_INDEX_BUFFER_SIZE: usize = 92000;

/// Most primitives that the buffers of a batch hold.
pub const MAX_PRIM_BUFFER_SIZE: usize = 92000;

/// Bytes of one vertex: a position of two singles and a primitive id.
pub const VERTEX_SIZE: usize = 12;

/// Bytes of one index.
pub const INDEX_SIZE: usize = 4;

/// Bytes of one primitive, of either kind: four singles.
pub const PRIMITIVE_SIZE: usize = 16;

/// The number of bytes to copy into each of the three buffers of a batch.
#[derive(Clone, Copy, Debug, PartialEq, Eq, Structural)]
pub struct CopySizes {
    pub vertices: u64,
    pub indices: u64,
    pub primitives: u64,
}

/// Whether a mesh of that many vertices and indices, drawn with that many
/// primitives, has room in the buffers of a batch.
pub open spec fn fits_buffers(vertices: nat, indices: nat, primitives: nat) -> bool {
    &&& vertices < MAX_VERTEX_BUFFER_SIZE
    &&& indices < MAX_INDEX_BUFFER_SIZE
    &&& primitives < MAX_PRIM_BUFFER_SIZE
}

/// The copy sizes for that many vertices, indices and primitives.
pub open spec fn copy_sizes(vertices: nat, indices: nat, primitives: nat) -> CopySizes {
    CopySizes {
        vertices: (vertices * VERTEX_SIZE) as u64,
        indices: (indices * INDEX_SIZE) as u64,
        primitives: (primitives * PRIMITIVE_SIZE) as u64,
    }
}

fn sizes_for(vertices: usize, indices: usize, primitives: usize) -> (s: CopySizes)
    requires
        fits_buffers(vertices as nat, indices as nat, primitives as nat),
    ensures
        s == copy_sizes(vertices as nat, indices as nat, primitives as nat),
{
    CopySizes {
        vertices: (vertices * VERTEX_SIZE) as u64,
        indices: (indices * INDEX_SIZE) as u64,
        primitives: (primitives * PRIMITIVE_SIZE) as u64,
    }
}

/// A batch of drawings with solid brushes.
pub struct SolidBatch {
    primitives: Vec<SolidPrimitive>,
}

/// A batch of drawings that share one linear gradient.
pub struct LinearGradientBatch {
    primitives: Vec<LinearGradientPrimitive>,
    gradient_handle: GradientHandle,
}

pub enum BatchKind {
    Solid(SolidBatch),
    LinearGradient(LinearGradientBatch),
}

pub struct Batch {
    kind: BatchKind,
}

/// What a batch holds: the primitives of its drawings in order, and for a
/// gradient batch the stops that they share.
pub enum BatchView {
    Solid(Seq<SolidPrimitive>),
    LinearGradient(Seq<GradientStop>, Seq<LinearGradientPrimitive>),
}

impl BatchView {
    /// The number of drawings in the batch.
    pub open spec fn len(self) -> nat {
        match self {
            BatchView::Solid(p) => p.len(),
            BatchView::LinearGradient(_, p) => p.len(),
        }
    }
}

impl SolidBatch {
    /// The primitives of the drawings, in order.
    pub closed spec fn spec_primitives(&self) -> Seq<SolidPrimitive> {
        self.primitives@
    }

    fn new() -> (b: SolidBatch)
        ensures
            b.spec_primitives() == Seq::<SolidPrimitive>::empty(),
    {
        SolidBatch { primitives: Vec::new() }
    }

    /// The primitives of the drawings, in order.
    pub fn primitives(&self) -> (p: &[SolidPrimitive])
        ensures
            p@ == self.spec_primitives(),
    {
        self.primitives.as_slice()
    }

    /// The sizes of the copies that bring a mesh of `vertices` vertices and
    /// `indices` indices, and the primitives of this batch, to the GPU.
    pub fn prepare_for_render(&self, vertices: usize, indices: usize) -> (s: CopySizes)
        requires
            fits_buffers(vertices as nat, indices as nat, self.spec_primitives().len()),
        ensures
            s == copy_sizes(vertices as nat, indices as nat, self.spec_primitives().len()),
    {
        sizes_for(vertices, indices, self.primitives.len())
    }
}

impl LinearGradientBatch {
    /// The primitives of the drawings, in order.
    pub closed spec fn spec_primitives(&self) -> Seq<LinearGradientPrimitive> {
        self.primitives@
    }

    /// The stops of the gradient that the drawings share.
    pub closed spec fn spec_stops(&self) -> Seq<GradientStop> {
        self.gradient_handle@
    }

    fn new(gradient_handle: GradientHandle) -> (b: LinearGradientBatch)
        ensures
            b.spec_primitives() == Seq::<LinearGradientPrimitive>::empty(),
            b.spec_stops() == gradient_handle@,
    {
        LinearGradientBatch { primitives: Vec::new(), gradient_handle }
    }

    /// The primitives of the drawings, in order.
    pub fn primitives(&self) -> (p: &[LinearGradientPrimitive])
        ensures
            p@ == self.spec_primitives(),
    {
        self.primitives.as_slice()
    }

    /// The gradient that the drawings share.
    pub fn gradient_handle(&self) -> (h: &GradientHandle)
        ensures
            h@ == self.spec_stops(),
    {
        &self.gradient_handle
    }

    /// Prepares the batch for a frame: finds the texture of its gradient in
    /// `gradient_store`, which takes the gradient in where it is new, and
    /// gives the sizes of the copies that bring a mesh of `vertices`
    /// vertices and `indices` indices, and the primitives of this batch, to
    /// the GPU.
    pub fn prepare_for_render(
        &self,
        vertices: usize,
        indices: usize,
        gradient_store: &mut GradientStore,
    ) -> (r: (CopySizes, TextureSlot))
        requires
            fits_buffers(vertices as nat, indices as nat, self.spec_primitives().len()),
        ensures
            r.0 == copy_sizes(vertices as nat, indices as nat, self.spec_primitives().len()),
            final(gradient_store)@ == after_lookup(old(gradient_store)@, self.spec_stops()),
            r.1.created == no_match(old(gradient_store)@, self.spec_stops()),
            !r.1.created ==> first_match(old(gradient_store)@, self.spec_stops(), r.1.index as int),
            r.1.created ==> r.1.index == old(gradient_store)@.len(),
            slot_holds(final(gradient_store)@, r.1, self.spec_stops()),
            positions_are_numbers(self.spec_stops()) ==> !no_match(
                final(gradient_store)@,
                self.spec_stops(),
            ),
            all_distinct(old(gradient_store)@) ==> all_distinct(final(gradient_store)@),
    {
        let slot = gradient_store.get_texture(&self.gradient_handle);
        (sizes_for(vertices, indices, self.primitives.len()), slot)
    }
}

impl View for BatchKind {
    type V = BatchView;

    open spec fn view(&self) -> BatchView {
        match self {
            BatchKind::Solid(b) => BatchView::Solid(b.spec_primitives()),
            BatchKind::LinearGradient(b) => BatchView::LinearGradient(
                b.spec_stops(),
                b.spec_primitives(),
            ),
        }
    }
}

/// Whether a drawing with `brush` can join `batch`: a solid brush joins any
/// solid batch, a gradient joins a batch of an equal gradient.
pub open spec fn compatible(batch: BatchView, brush: WgpuBrush) -> bool {
    match batch {
        BatchView::Solid(_) => brush is Solid,
        BatchView::LinearGradient(stops, _) => brush is LinearGradient && handles_equal(
            stops,
            brush->LinearGradient_0.handle@,
        ),
    }
}

/// The empty batch that is opened for `brush`.
pub open spec fn fresh_batch(brush: WgpuBrush) -> BatchView {
    match brush {
        WgpuBrush::Solid(_) => BatchView::Solid(Seq::empty()),
        WgpuBrush::LinearGradient(g) => BatchView::LinearGradient(g.handle@, Seq::empty()),
    }
}

/// `batch` with the primitive of a drawing with `brush` added at its end.
/// A batch of the other kind stays as it is.
pub open spec fn with_primitive(batch: BatchView, brush: WgpuBrush) -> BatchView {
    match (batch, brush) {
        (BatchView::Solid(p), WgpuBrush::Solid(color)) => BatchView::Solid(
            p.push(SolidPrimitive { color }),
        ),
        (BatchView::LinearGradient(stops, p), WgpuBrush::LinearGradient(g)) => {
            BatchView::LinearGradient(
                stops,
                p.push(LinearGradientPrimitive { start: g.start, end: g.end }),
            )
        },
        _ => batch,
    }
}

/// Whether a drawing with `brush` joins the last batch of `list`.
pub open spec fn joins_last(list: Seq<BatchView>, brush: WgpuBrush) -> bool {
    list.len() > 0 && compatible(list.last(), brush)
}

/// The batches after a drawing with `brush`: it joins the last batch where
/// that is compatible, and opens a new one at the end where not.
pub open spec fn after_request(list: Seq<BatchView>, brush: WgpuBrush) -> Seq<BatchView> {
    if joins_last(list, brush) {
        list.drop_last().push(with_primitive(list.last(), brush))
    } else {
        list.push(with_primitive(fresh_batch(brush), brush))
    }
}

/// The number of drawings in all the batches of `list`.
pub open spec fn total_primitives(list: Seq<BatchView>) -> nat
    decreases list.len(),
{
    if list.len() == 0 {
        0
    } else {
        total_primitives(list.drop_last()) + list.last().len()
    }
}

/// Whether no batch of `list` is empty.
pub open spec fn all_in_use(list: Seq<BatchView>) -> bool {
    forall|i: int| 0 <= i < list.len() ==> (#[trigger] list[i]).len() > 0
}

/// A drawing adds exactly one primitive, to the last batch: the batches
/// before the last stay as they were, at most one batch is opened, and no
/// batch is left empty.
pub proof fn lemma_request_adds_one(list: Seq<BatchView>, brush: WgpuBrush)
    ensures
        total_primitives(after_request(list, brush)) == total_primitives(list) + 1,
        after_request(list, brush).len() == if joins_last(list, brush) {
            list.len()
        } else {
            list.len() + 1
        },
        after_request(list, brush).drop_last() == if joins_last(list, brush) {
            list.drop_last()
        } else {
            list
        },
        all_in_use(list) ==> all_in_use(after_request(list, brush)),
{
    let after = after_request(list, brush);
    if joins_last(list, brush) {
        assert(after.drop_last() =~= list.drop_last());
        assert(after.last().len() == list.last().len() + 1);
    } else {
        assert(after.drop_last() =~= list);
        assert(after.last().len() == 1);
    }
}

/// The vertices and indices of the mesh of one batch.
#[derive(Clone, Copy, Debug, PartialEq, Eq, Structural)]
pub struct MeshSize {
    pub vertices: usize,
    pub indices: usize,
}

/// What one batch needs for a frame: the sizes of its three copies, and for
/// a gradient batch the slot of its gradient's texture.
#[derive(Clone, Copy, Debug, PartialEq, Eq)]
pub struct PreparedBatch {
    pub sizes: CopySizes,
    pub texture: Option<TextureSlot>,
}

/// The gradient store after `batch` was prepared: a gradient batch has its
/// gradient looked up, a solid batch leaves the store alone.
pub open spec fn store_after_batch(batch: BatchView, store: Seq<Seq<GradientStop>>) -> Seq<
    Seq<GradientStop>,
> {
    match batch {
        BatchView::Solid(_) => store,
        BatchView::LinearGradient(stops, _) => after_lookup(store, stops),
    }
}

/// The gradient store after the batches of `list` were prepared, one after
/// the other.
pub open spec fn store_after(list: Seq<BatchView>, store: Seq<Seq<GradientStop>>) -> Seq<
    Seq<GradientStop>,
>
    decreases list.len(),
{
    if list.len() == 0 {
        store
    } else {
        store_after_batch(list.last(), store_after(list.drop_last(), store))
    }
}

/// Whether `prepared` is what preparing `batch`, with a mesh of the size
/// `mesh`, gives when the gradient store is `store`.
pub open spec fn is_prepared(
    prepared: PreparedBatch,
    batch: BatchView,
    mesh: MeshSize,
    store: Seq<Seq<GradientStop>>,
) -> bool {
    &&& prepared.sizes == copy_sizes(mesh.vertices as nat, mesh.indices as nat, batch.len())
    &&& match batch {
        BatchView::Solid(_) => prepared.texture is None,
        BatchView::LinearGradient(stops, _) => prepared.texture is Some && is_slot_of(
            prepared.texture->Some_0,
            store,
            stops,
        ),
    }
}

/// Whether `store` has the texture that `batch` needs: for a gradient batch
/// the slot of `prepared` is a place of `store` that holds its gradient, and
/// a gradient whose positions are all numbers is found in `store`.
pub open spec fn texture_is_stored(
    prepared: PreparedBatch,
    batch: BatchView,
    store: Seq<Seq<GradientStop>>,
) -> bool {
    match batch {
        BatchView::Solid(_) => true,
        BatchView::LinearGradient(stops, _) => {
            &&& prepared.texture is Some
            &&& slot_holds(store, prepared.texture->Some_0, stops)
            &&& positions_are_numbers(stops) ==> !no_match(store, stops)
        },
    }
}

proof fn lemma_store_after_step(list: Seq<BatchView>, store: Seq<Seq<GradientStop>>, i: int)
    requires
        0 <= i < list.len(),
    ensures
        store_after(list.take(i + 1), store) == store_after_batch(
            list[i],
            store_after(list.take(i), store),
        ),
{
    assert(list.take(i + 1).drop_last() =~= list.take(i));
}

proof fn lemma_store_after_batch_extends(batch: BatchView, store: Seq<Seq<GradientStop>>)
    ensures
        extends(store_after_batch(batch, store), store),
{
}

/// Preparing batches never moves or removes a gradient: the store after all
/// of `list` begins with the store after the first `i` batches.
pub proof fn lemma_store_grows(list: Seq<BatchView>, store: Seq<Seq<GradientStop>>, i: int)
    requires
        0 <= i <= list.len(),
    ensures
        extends(store_after(list, store), store_after(list.take(i), store)),
    decreases list.len(),
{
    if i == list.len() {
        assert(list.take(i) =~= list);
    } else {
        lemma_store_grows(list.drop_last(), store, i);
        assert(list.drop_last().take(i) =~= list.take(i));
        lemma_store_after_batch_extends(list.last(), store_after(list.drop_last(), store));
    }
}

/// After a frame is prepared, the store holds the gradient of every
/// gradient batch whose positions are all numbers.
pub proof fn lemma_gradients_are_stored(list: Seq<BatchView>, store: Seq<Seq<GradientStop>>, i: int)
    requires
        0 <= i < list.len(),
        list[i] is LinearGradient,
        positions_are_numbers(list[i]->LinearGradient_0),
    ensures
        !no_match(store_after(list, store), list[i]->LinearGradient_0),
{
    let stops = list[i]->LinearGradient_0;
    let before = store_after(list.take(i), store);
    let after = store_after(list.take(i + 1), store);
    lemma_store_after_step(list, store, i);
    lemma_second_lookup_finds(before, stops);
    let k = choose|k: int| 0 <= k < after.len() && handles_equal(#[trigger] after[k], stops);
    lemma_store_grows(list, store, i + 1);
    assert(handles_equal(store_after(list, store)[k], stops));
}

/// The slot that a gradient batch got when it was prepared is, after the
/// whole frame is prepared, still a place of the store that holds its
/// gradient.
pub proof fn lemma_slot_stays(
    list: Seq<BatchView>,
    store: Seq<Seq<GradientStop>>,
    i: int,
    slot: TextureSlot,
)
    requires
        0 <= i < list.len(),
        list[i] is LinearGradient,
        is_slot_of(slot, store_after(list.take(i), store), list[i]->LinearGradient_0),
    ensures
        slot_holds(store_after(list, store), slot, list[i]->LinearGradient_0),
{
    let stops = list[i]->LinearGradient_0;
    lemma_store_after_step(list, store, i);
    lemma_lookup_extends(store_after(list.take(i), store), stops, slot);
    lemma_store_grows(list, store, i + 1);
    let after = store_after(list.take(i + 1), store);
    assert(store_after(list, store)[slot.index as int] == after[slot.index as int]);
}

impl BatchKind {
    /// Tells whether a drawing with `brush` can join a batch of this kind.
    pub fn is_compatible_with_brush(&self, brush: &WgpuBrush) -> (r: bool)
        ensures
            r == compatible(self@, *brush),
    {
        match self {
            BatchKind::Solid(..) => brush.is_solid(),
            BatchKind::LinearGradient(batch) => {
                match brush {
                    WgpuBrush::LinearGradient(gradient) => batch.gradient_handle.eq(
                        &gradient.handle,
                    ),
                    _ => false,
                }
            },
        }
    }
}

impl View for Batch {
    type V = BatchView;

    closed spec fn view(&self) -> BatchView {
        self.kind@
    }
}

impl Batch {
    fn new_for_brush(brush: &WgpuBrush) -> (b: Batch)
        ensures
            b@ == fresh_batch(*brush),
    {
        match brush {
            WgpuBrush::Solid(..) => Batch { kind: BatchKind::Solid(SolidBatch::new()) },
            WgpuBrush::LinearGradient(gradient) => Batch {
                kind: BatchKind::LinearGradient(LinearGradientBatch::new(gradient.handle.clone())),
            },
        }
    }

    /// What kind of batch this is, with its drawings.
    pub fn kind(&self) -> (k: &BatchKind)
        ensures
            k@ == self@,
    {
        &self.kind
    }

    /// Prepares the batch for a frame: gives the sizes of the copies that
    /// bring a mesh of `vertices` vertices and `indices` indices, and the
    /// primitives of this batch, to the GPU, and for a gradient batch finds
    /// the texture of its gradient in `gradient_store`.
    pub fn prepare_for_render(
        &self,
        vertices: usize,
        indices: usize,
        gradient_store: &mut GradientStore,
    ) -> (p: PreparedBatch)
        requires
            fits_buffers(vertices as nat, indices as nat, self@.len()),
        ensures
            is_prepared(p, self@, MeshSize { vertices, indices }, old(gradient_store)@),
            final(gradient_store)@ == store_after_batch(self@, old(gradient_store)@),
            texture_is_stored(p, self@, final(gradient_store)@),
            all_distinct(old(gradient_store)@) ==> all_distinct(final(gradient_store)@),
    {
        match &self.kind {
            BatchKind::Solid(batch) => PreparedBatch {
                sizes: batch.prepare_for_render(vertices, indices),
                texture: None,
            },
            BatchKind::LinearGradient(batch) => {
                let (sizes, slot) = batch.prepare_for_render(vertices, indices, gradient_store);
                PreparedBatch { sizes, texture: Some(slot) }
            },
        }
    }

    /// Adds the primitive of a drawing with `brush`.
    fn add_primitive(self, brush: &WgpuBrush) -> (b: Batch)
        ensures
            b@ == with_primitive(self@, *brush),
    {
        match (self.kind, brush) {
            (BatchKind::Solid(batch), WgpuBrush::Solid(color)) => {
                let mut primitives = batch.primitives;
                primitives.push(SolidPrimitive { color: *color });
                Batch { kind: BatchKind::Solid(SolidBatch { primitives }) }
            },
            (BatchKind::LinearGradient(batch), WgpuBrush::LinearGradient(gradient)) => {
                let mut primitives = batch.primitives;
                primitives.push(
                    LinearGradientPrimitive { start: gradient.start, end: gradient.end },
                );
                Batch {
                    kind: BatchKind::LinearGradient(
                        LinearGradientBatch { primitives, gradient_handle: batch.gradient_handle },
                    ),
                }
            },
            (kind, _) => Batch { kind },
        }
    }
}

/// Where the mesh of a drawing goes.
#[derive(Clone, Copy, Debug, PartialEq, Eq, Structural)]
pub struct MeshRequest {
    /// The place of the batch in the list; it is the last one.
    pub batch: usize,
    /// Whether the batch was opened for this drawing.
    pub created: bool,
    /// The place of the drawing's primitive in the batch, as the vertices of
    /// its mesh carry it.
    pub prim_id: u32,
}

/// The batches of a frame, in the order in which they are drawn.
pub struct BatchList {
    batches: Vec<Batch>,
}

impl View for BatchList {
    type V = Seq<BatchView>;

    closed spec fn view(&self) -> Seq<BatchView> {
        self.batches@.map_values(|b: Batch| b@)
    }
}

impl BatchList {
    pub fn new() -> (l: BatchList)
        ensures
            l@.len() == 0,
    {
        BatchList { batches: Vec::new() }
    }

    /// The number of batches.
    pub fn len(&self) -> (n: usize)
        ensures
            n == self@.len(),
    {
        self.batches.len()
    }

    /// The batch at place `i`.
    pub fn batch(&self, i: usize) -> (b: &Batch)
        requires
            i < self@.len(),
        ensures
            b@ == self@[i as int],
    {
        &self.batches[i]
    }

    /// Prepares every batch for a frame, in the order of the list; `meshes`
    /// gives the size of the mesh of each batch.
    ///
    /// Each gradient batch has the texture of its gradient looked up in
    /// `gradient_store`, as the store stands after the batches before it.
    /// Afterwards every slot that was given is a place of the store that
    /// holds the gradient of its batch.
    pub fn prepare_for_render(&self, meshes: &[MeshSize], gradient_store: &mut GradientStore) -> (prepared:
        Vec<PreparedBatch>)
        requires
            meshes@.len() == self@.len(),
            forall|i: int|
                0 <= i < self@.len() ==> fits_buffers(
                    (#[trigger] meshes@[i]).vertices as nat,
                    meshes@[i].indices as nat,
                    self@[i].len(),
                ),
        ensures
            prepared@.len() == self@.len(),
            final(gradient_store)@ == store_after(self@, old(gradient_store)@),
            forall|i: int|
                0 <= i < self@.len() ==> is_prepared(
                    #[trigger] prepared@[i],
                    self@[i],
                    meshes@[i],
                    store_after(self@.take(i), old(gradient_store)@),
                ),
            forall|i: int|
                0 <= i < self@.len() ==> texture_is_stored(
                    #[trigger] prepared@[i],
                    self@[i],
                    final(gradient_store)@,
                ),
            all_distinct(old(gradient_store)@) ==> all_distinct(final(gradient_store)@),
    {
        let mut prepared: Vec<PreparedBatch> = Vec::new();
        let n: usize = self.batches.len();
        let mut i: usize = 0;
        assert(self@.take(0) =~= Seq::<BatchView>::empty());
        while i < n
            invariant
                i <= n,
                n == self@.len(),
                n == self.batches@.len(),
                meshes@.len() == n,
                forall|k: int|
                    0 <= k < n ==> fits_buffers(
                        (#[trigger] meshes@[k]).vertices as nat,
                        meshes@[k].indices as nat,
                        self@[k].len(),
                    ),
                prepared@.len() == i,
                gradient_store@ == store_after(self@.take(i as int), old(gradient_store)@),
                forall|k: int|
                    0 <= k < i ==> is_prepared(
                        #[trigger] prepared@[k],
                        self@[k],
                        meshes@[k],
                        store_after(self@.take(k), old(gradient_store)@),
                    ),
                all_distinct(old(gradient_store)@) ==> all_distinct(gradient_store@),
            decreases n - i,
        {
            let mesh = meshes[i];
            assert(self@[i as int] == self.batches@[i as int]@);
            let p = self.batches[i].prepare_for_render(mesh.vertices, mesh.indices, gradient_store);
            proof {
                lemma_store_after_step(self@, old(gradient_store)@, i as int);
            }
            prepared.push(p);
            i += 1;
        }
        proof {
            assert(self@.take(n as int) =~= self@);
            assert forall|k: int| 0 <= k < self@.len() implies texture_is_stored(
                #[trigger] prepared@[k],
                self@[k],
                gradient_store@,
            ) by {
                if self@[k] is LinearGradient {
                    lemma_slot_stays(self@, old(gradient_store)@, k, prepared@[k].texture->Some_0);
                    if positions_are_numbers(self@[k]->LinearGradient_0) {
                        lemma_gradients_are_stored(self@, old(gradient_store)@, k);
                    }
                }
            }
        }
        prepared
    }

    /// Finds the batch for a drawing with `brush` and adds the drawing's
    /// primitive to it.
    ///
    /// The drawing joins the last batch where the brush is compatible with
    /// it; where it is not, or there is no batch yet, a new batch is opened
    /// at the end. The primitive id is the place of the new primitive in
    /// its batch, cut to 32 bits.
    pub fn request_mesh(&mut self, brush: &WgpuBrush) -> (m: MeshRequest)
        ensures
            final(self)@ == after_request(old(self)@, *brush),
            m.created == !joins_last(old(self)@, *brush),
            m.batch == final(self)@.len() - 1,
            m.prim_id == (final(self)@.last().len() - 1) % 0x1_0000_0000,
    {
        let n: usize = self.batches.len();
        let has_compatible_batch = if n > 0 {
            self.batches[n - 1].kind.is_compatible_with_brush(brush)
        } else {
            false
        };
        let batch = if has_compatible_batch {
            let last = self.batches.pop();
            assert(self@ =~= old(self)@.drop_last());
            last.unwrap()
        } else {
            Batch::new_for_brush(brush)
        };
        let ghost before = self@;
        let batch = batch.add_primitive(brush);
        let count: usize = match &batch.kind {
            BatchKind::Solid(b) => b.primitives.len(),
            BatchKind::LinearGradient(b) => b.primitives.len(),
        };
        self.batches.push(batch);
        assert(self@ =~= before.push(batch@));
        let last: u64 = (count - 1) as u64;
        assert(last as u32 == last % 0x1_0000_0000) by (bit_vector);
        MeshRequest {
            batch: self.batches.len() - 1,
            created: !has_compatible_batch,
            prim_id: #[verifier::truncate]
            (last as u32),
        }
    }
}

} // verus!
