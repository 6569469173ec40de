//! Gradients of the GPU backend: what identifies one, and the store that
//! gives each distinct gradient one texture.

use piet::kurbo::Point;
use vstd::prelude::*;

use crate::float_bits::{float_eq, is_nan, same_number};

verus! {

/// `kurbo::Point`, a point of two double coordinates; it is only carried.
#[verifier::external_type_specification]
#[verifier::external_body]
pub struct ExPoint(Point);

/// One stop of a gradient.
#[derive(Clone, Copy, Debug)]
pub struct GradientStop {
    /// The position of the stop, as the bit pattern of a single.
    pub pos: u32,
    /// The colour at the stop, as RGBA.
    pub rgba: u32,
}

/// Whether two stops are at the same position, as numbers, with the same
/// colour.
pub open spec fn stops_equal(a: GradientStop, b: GradientStop) -> bool {
    float_eq(a.pos, b.pos) && a.rgba == b.rgba
}

/// Whether two lists of stops are equal stop by stop.
pub open spec fn handles_equal(a: Seq<GradientStop>, b: Seq<GradientStop>) -> bool {
    &&& a.len() == b.len()
    &&& forall|i: int| 0 <= i < a.len() ==> stops_equal(#[trigger] a[i], b[i])
}

/// Whether no stop of the list has a NaN for its position.
pub open spec fn positions_are_numbers(stops: Seq<GradientStop>) -> bool {
    forall|i: int| 0 <= i < stops.len() ==> !is_nan((#[trigger] stops[i]).pos)
}

/// A list of stops equals itself exactly when no position is a NaN.
pub proof fn lemma_handles_equal_reflexive(a: Seq<GradientStop>)
    ensures
        handles_equal(a, a) <==> positions_are_numbers(a),
{
    if handles_equal(a, a) {
        assert forall|i: int| 0 <= i < a.len() implies !is_nan((#[trigger] a[i]).pos) by {
            assert(stops_equal(a[i], a[i]));
        }
    }
}

/// Equality of stop lists is symmetric.
pub proof fn lemma_handles_equal_symmetric(a: Seq<GradientStop>, b: Seq<GradientStop>)
    ensures
        handles_equal(a, b) == handles_equal(b, a),
{
    if handles_equal(a, b) {
        assert forall|i: int| 0 <= i < b.len() implies stops_equal(#[trigger] b[i], a[i]) by {
            assert(stops_equal(a[i], b[i]));
        }
    }
    if handles_equal(b, a) {
        assert forall|i: int| 0 <= i < a.len() implies stops_equal(#[trigger] a[i], b[i]) by {
            assert(stops_equal(b[i], a[i]));
        }
    }
}

/// The stops of a gradient: all that its texture is made from.
#[derive(Debug)]
pub struct GradientHandle {
    stops: Vec<GradientStop>,
}

impl View for GradientHandle {
    type V = Seq<GradientStop>;

    closed spec fn view(&self) -> Seq<GradientStop> {
        self.stops@
    }
}

impl GradientHandle {
    pub fn new(stops: Vec<GradientStop>) -> (h: GradientHandle)
        ensures
            h@ == stops@,
    {
        GradientHandle { stops }
    }

    /// The stops, in the order in which they were given.
    pub fn stops(&self) -> (s: &[GradientStop])
        ensures
            s@ == self@,
    {
        self.stops.as_slice()
    }

    /// Tells whether `other` has the same stops.
    pub fn eq(&self, other: &GradientHandle) -> (r: bool)
        ensures
            r == handles_equal(self@, other@),
    {
        if self.stops.len() != other.stops.len() {
            return false;
        }
        let n: usize = self.stops.len();
        let mut i: usize = 0;
        while i < n
            invariant
                i <= n,
                n == self.stops@.len(),
                n == other.stops@.len(),
                forall|k: int| 0 <= k < i ==> stops_equal(#[trigger] self.stops@[k], other.stops@[k]),
            decreases n - i,
        {
            let a = &self.stops[i];
            let b = &other.stops[i];
            if !(same_number(a.pos, b.pos) && a.rgba == b.rgba) {
                return false;
            }
            i += 1;
        }
        true
    }
}

impl Clone for GradientHandle {
    fn clone(&self) -> (h: GradientHandle)
        ensures
            h@ == self@,
    {
        let mut stops: Vec<GradientStop> = Vec::new();
        let n: usize = self.stops.len();
        let mut i: usize = 0;
        while i < n
            invariant
                i <= n,
                n == self.stops@.len(),
                stops@ == self.stops@.take(i as int),
            decreases n - i,
        {
            stops.push(self.stops[i]);
            assert(self.stops@.take(i + 1) =~= self.stops@.take(i as int).push(self.stops@[i as int]));
            i += 1;
        }
        assert(self.stops@.take(n as int) =~= self.stops@);
        GradientHandle { stops }
    }
}

/// A linear gradient between two points.
#[derive(Debug)]
pub struct LinearGradient {
    pub handle: GradientHandle,
    pub start: Point,
    pub end: Point,
}

impl Clone for LinearGradient {
    fn clone(&self) -> (g: LinearGradient)
        ensures
            g.handle@ == self.handle@,
            g.start == self.start,
            g.end == self.end,
    {
        LinearGradient { handle: self.handle.clone(), start: self.start, end: self.end }
    }
}

/// Where the texture of a gradient is kept, and whether it has yet to be
/// made.
#[derive(Clone, Copy, Debug, PartialEq, Eq, Structural)]
pub struct TextureSlot {
    pub index: usize,
    pub created: bool,
}

/// The gradients that have a texture, in the order in which they got one.
pub struct GradientStore {
    gradients: Vec<GradientHandle>,
}

impl View for GradientStore {
    type V = Seq<Seq<GradientStop>>;

    closed spec fn view(&self) -> Seq<Seq<GradientStop>> {
        self.gradients@.map_values(|h: GradientHandle| h@)
    }
}

/// Whether `slot` is the first place of `store` that holds stops equal to
/// `stops`.
pub open spec fn first_match(store: Seq<Seq<GradientStop>>, stops: Seq<GradientStop>, slot: int) -> bool {
    &&& 0 <= slot < store.len()
    &&& handles_equal(store[slot], stops)
    &&& forall|k: int| 0 <= k < slot ==> !handles_equal(#[trigger] store[k], stops)
}

/// Whether no place of `store` holds stops equal to `stops`.
pub open spec fn no_match(store: Seq<Seq<GradientStop>>, stops: Seq<GradientStop>) -> bool {
    forall|k: int| 0 <= k < store.len() ==> !handles_equal(#[trigger] store[k], stops)
}

/// Whether no two places of `store` hold equal gradients.
pub open spec fn all_distinct(store: Seq<Seq<GradientStop>>) -> bool {
    forall|i: int, j: int|
        0 <= i < j < store.len() ==> !handles_equal(#[trigger] store[i], #[trigger] store[j])
}

/// The store after the texture of `stops` was asked for: as it was where
/// it held an equal gradient, and with `stops` at its end where not.
pub open spec fn after_lookup(store: Seq<Seq<GradientStop>>, stops: Seq<GradientStop>) -> Seq<
    Seq<GradientStop>,
> {
    if no_match(store, stops) {
        store.push(stops)
    } else {
        store
    }
}

/// Whether `slot` is what a request for the texture of `stops` gets from
/// `store`: the first place that holds an equal gradient, or, where there is
/// none, the place at the end where the gradient is then added.
pub open spec fn is_slot_of(
    slot: TextureSlot,
    store: Seq<Seq<GradientStop>>,
    stops: Seq<GradientStop>,
) -> bool {
    &&& slot.created == no_match(store, stops)
    &&& !slot.created ==> first_match(store, stops, slot.index as int)
    &&& slot.created ==> slot.index == store.len()
}

/// Whether `slot` is a place of `store` that holds the gradient `stops`:
/// the very stops where the slot was made for them, equal ones where it was
/// found.
pub open spec fn slot_holds(
    store: Seq<Seq<GradientStop>>,
    slot: TextureSlot,
    stops: Seq<GradientStop>,
) -> bool {
    &&& slot.index < store.len()
    &&& slot.created ==> store[slot.index as int] == stops
    &&& !slot.created ==> handles_equal(store[slot.index as int], stops)
}

/// Whether `store` begins with all of `earlier`, place by place.
pub open spec fn extends(store: Seq<Seq<GradientStop>>, earlier: Seq<Seq<GradientStop>>) -> bool {
    &&& earlier.len() <= store.len()
    &&& forall|k: int| 0 <= k < earlier.len() ==> #[trigger] store[k] == earlier[k]
}

/// A request never moves or removes a gradient, and its slot holds the
/// gradient that was asked for.
pub proof fn lemma_lookup_extends(
    store: Seq<Seq<GradientStop>>,
    stops: Seq<GradientStop>,
    slot: TextureSlot,
)
    requires
        is_slot_of(slot, store, stops),
    ensures
        extends(after_lookup(store, stops), store),
        slot_holds(after_lookup(store, stops), slot, stops),
{
}

/// A gradient whose positions are all numbers is found once it was asked
/// for: a second request makes no second texture, and gets a slot that
/// already was in the store after the first.
pub proof fn lemma_second_lookup_finds(store: Seq<Seq<GradientStop>>, stops: Seq<GradientStop>)
    requires
        positions_are_numbers(stops),
    ensures
        !no_match(after_lookup(store, stops), stops),
        after_lookup(after_lookup(store, stops), stops) == after_lookup(store, stops),
{
    lemma_handles_equal_reflexive(stops);
    let once = after_lookup(store, stops);
    if no_match(store, stops) {
        assert(handles_equal(once[store.len() as int], stops));
    } else {
        let k = choose|k: int| 0 <= k < store.len() && handles_equal(#[trigger] store[k], stops);
        assert(handles_equal(once[k], stops));
    }
}

/// No gradient gets two textures: a store without equal gradients has none
/// after a request either.
pub proof fn lemma_lookup_keeps_distinct(store: Seq<Seq<GradientStop>>, stops: Seq<GradientStop>)
    requires
        all_distinct(store),
    ensures
        all_distinct(after_lookup(store, stops)),
{
    let after = after_lookup(store, stops);
    if no_match(store, stops) {
        assert forall|i: int, j: int| 0 <= i < j < after.len() implies !handles_equal(
            #[trigger] after[i],
            #[trigger] after[j],
        ) by {
            if j == store.len() {
                assert(!handles_equal(store[i], stops));
            } else {
                assert(!handles_equal(store[i], store[j]));
            }
        }
    }
}

impl GradientStore {
    /// A store without gradients.
    pub fn new() -> (s: GradientStore)
        ensures
            s@.len() == 0,
            all_distinct(s@),
    {
        GradientStore { gradients: Vec::new() }
    }

    /// The number of gradients that have a texture.
    pub fn len(&self) -> (n: usize)
        ensures
            n == self@.len(),
    {
        self.gradients.len()
    }

    /// The slot of the texture for `handle`.
    ///
    /// Where the store holds an equal gradient already, this is its slot,
    /// the first such one, and the store stays as it is. Otherwise the
    /// gradient is added at the end, and the slot says that its texture is
    /// to be made.
    pub fn get_texture(&mut self, handle: &GradientHandle) -> (slot: TextureSlot)
        ensures
            is_slot_of(slot, old(self)@, handle@),
            final(self)@ == after_lookup(old(self)@, handle@),
            slot_holds(final(self)@, slot, handle@),
            positions_are_numbers(handle@) ==> !no_match(final(self)@, handle@),
            all_distinct(old(self)@) ==> all_distinct(final(self)@),
    {
        proof {
            if all_distinct(self@) {
                lemma_lookup_keeps_distinct(self@, handle@);
            }
            if positions_are_numbers(handle@) {
                lemma_second_lookup_finds(self@, handle@);
            }
        }
        let n: usize = self.gradients.len();
        let mut i: usize = 0;
        while i < n
            invariant
                i <= n,
                n == self.gradients@.len(),
                *self == *old(self),
                forall|k: int| 0 <= k < i ==> !handles_equal(#[trigger] self@[k], handle@),
            decreases n - i,
        {
            if self.gradients[i].eq(handle) {
                assert(handles_equal(self@[i as int], handle@));
                return TextureSlot { index: i, created: false };
            }
            i += 1;
        }
        self.gradients.push(handle.clone());
        assert(self@ =~= old(self)@.push(handle@));
        TextureSlot { index: n, created: true }
    }
}

} // verus!
