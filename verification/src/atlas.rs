//! The texture atlas: a fixed number of equally sized image layers, and the
//! record of which texture handle owns which layer.
//!
//! The atlas keeps the books only. Writing pixels into a layer is the
//! caller's business: an operation that calls for a write says in its result
//! which region of which layer is to be filled.

use crate::patterns::{Pattern, PATTERN_SIZE};
use std::collections::HashMap;
use vstd::arithmetic::logarithm::{lemma_log_is_ordered, lemma_log_nonnegative, log};
use vstd::prelude::*;

verus! {

/// An opaque name for a texture. The two variants are separate name spaces.
#[derive(Clone, Copy, Debug, PartialEq, Eq, Hash, Structural)]
pub enum TextureHandle {
    /// A texture that the UI toolkit manages, such as its font atlas.
    Managed(u64),
    /// A texture that the application supplied.
    User(u64),
}

/// Where a texture lives: its layer, and its true size in pixels, which may
/// be smaller than the size of a layer. The image sits in the top-left
/// corner of its layer.
#[derive(Clone, Copy, Debug, PartialEq, Eq, Structural)]
pub struct TextureInfo {
    pub layer: i32,
    pub width: usize,
    pub height: usize,
}

/// A texture handle together with the size of its image.
#[derive(Clone, Copy, Debug, PartialEq, Eq, Structural)]
pub struct SizedTexture {
    pub id: TextureHandle,
    pub width: usize,
    pub height: usize,
}

/// The shape of an incremental image update from the UI toolkit: the size
/// of the image that came, where in the texture it goes, and how many
/// pixels came with it. Without a position the image replaces the whole
/// texture.
#[derive(Clone, Copy, Debug, PartialEq, Eq)]
pub struct ImageDelta {
    pub width: usize,
    pub height: usize,
    pub pos: Option<(usize, usize)>,
    pub pixel_count: usize,
}

/// A rectangle of one layer that the caller is to fill with pixels.
#[derive(Clone, Copy, Debug, PartialEq, Eq, Structural)]
pub struct TextureRegion {
    pub x: usize,
    pub y: usize,
    pub layer: i32,
    pub width: usize,
    pub height: usize,
}

/// A texture that was just registered, and the region that its image goes
/// to: the top-left corner of its layer.
#[derive(Clone, Copy, Debug, PartialEq, Eq, Structural)]
pub struct NewTexture {
    pub texture: SizedTexture,
    pub region: TextureRegion,
}

/// Where the pixels of an update go, and whether the update brought another
/// number of pixels than the region has. The write is to be made either way.
#[derive(Clone, Copy, Debug, PartialEq, Eq, Structural)]
pub struct TextureUpdate {
    pub region: TextureRegion,
    pub len_mismatch: bool,
}

/// The fraction `num / den`, kept exact.
#[derive(Clone, Copy, Debug, PartialEq, Eq, Structural)]
pub struct Ratio {
    pub num: usize,
    pub den: usize,
}

impl ImageDelta {
    /// The corner of the texture at which the update goes.
    pub open spec fn origin(self) -> (usize, usize) {
        match self.pos {
            Some(pos) => pos,
            None => (0, 0),
        }
    }

    /// Whether the number of pixels is not that of the rectangle.
    pub open spec fn len_mismatch(self) -> bool {
        self.pixel_count != self.width * self.height
    }
}

/// What an atlas is, mathematically.
pub struct AtlasState {
    /// The record of every handle registered so far.
    pub records: Map<TextureHandle, TextureInfo>,
    /// Width of every layer.
    pub max_width: int,
    /// Height of every layer.
    pub max_height: int,
    /// Number of layers.
    pub max_layers: int,
    /// The layer that the next registration gets.
    pub next_layer: int,
}

/// The number of layers of an atlas whose layers are `max_width` by
/// `max_height`: one for each mip level of the longer side.
pub open spec fn layer_capacity(max_width: int, max_height: int) -> int {
    log(2, if max_width >= max_height { max_width } else { max_height }) + 1
}

/// Whether `k` is the least number from `from` on for which `User(k)` has no
/// record in `records`.
pub open spec fn is_first_free_user_id(
    records: Map<TextureHandle, TextureInfo>,
    from: int,
    k: int,
) -> bool {
    &&& from <= k <= u64::MAX
    &&& !records.contains_key(TextureHandle::User(k as u64))
    &&& forall|j: u64| from <= j < k ==> #[trigger] records.contains_key(TextureHandle::User(j))
}

impl AtlasState {
    /// The state of an atlas in which nothing has been registered.
    pub open spec fn empty(max_width: int, max_height: int) -> AtlasState {
        AtlasState {
            records: Map::empty(),
            max_width,
            max_height,
            max_layers: layer_capacity(max_width, max_height),
            next_layer: 0,
        }
    }

    /// This state after `id` has been given the next layer for an image of
    /// `width` by `height` pixels.
    pub open spec fn register(self, id: TextureHandle, width: int, height: int) -> AtlasState {
        AtlasState {
            records: self.records.insert(
                id,
                TextureInfo {
                    layer: self.next_layer as i32,
                    width: width as usize,
                    height: height as usize,
                },
            ),
            next_layer: self.next_layer + 1,
            ..self
        }
    }

    /// This state after `id` has been looked up for an image of `width` by
    /// `height` pixels: a handle that has a record changes nothing, another
    /// is registered.
    pub open spec fn resolve(self, id: TextureHandle, width: int, height: int) -> AtlasState {
        if self.records.contains_key(id) {
            self
        } else {
            self.register(id, width, height)
        }
    }

    /// This state after the textures of `textures` have been registered, in
    /// their order.
    pub open spec fn register_all(self, textures: Seq<SizedTexture>) -> AtlasState
        decreases textures.len(),
    {
        if textures.len() == 0 {
            self
        } else {
            self.register_all(textures.drop_last()).register(
                textures.last().id,
                textures.last().width as int,
                textures.last().height as int,
            )
        }
    }

    /// Whether `new` is the texture that is inserted in this state for an
    /// image of `width` by `height` pixels: its handle is `User(k)` for the
    /// least `k`, from the number of the next layer on, that names no user
    /// texture yet, and its image goes to the top-left corner of the next
    /// layer.
    pub open spec fn inserts(self, new: NewTexture, width: usize, height: usize) -> bool {
        &&& new.texture.id matches TextureHandle::User(k) && is_first_free_user_id(
            self.records,
            self.next_layer,
            k as int,
        )
        &&& new.texture.width == width
        &&& new.texture.height == height
        &&& new.region == (TextureRegion {
            x: 0,
            y: 0,
            layer: self.next_layer as i32,
            width,
            height,
        })
    }

    /// The factors by which texture coordinates of a texture with record
    /// `info` are scaled, horizontally and vertically: the size of its image
    /// over the size of a layer.
    pub open spec fn uv_scale(self, info: TextureInfo) -> (Ratio, Ratio) {
        (
            Ratio { num: info.width, den: self.max_width as usize },
            Ratio { num: info.height, den: self.max_height as usize },
        )
    }

    /// Whether a new handle can still be given a layer.
    pub open spec fn has_room(self) -> bool {
        self.next_layer < self.max_layers
    }

    /// What holds of every atlas at all times: the layer dimensions are sizes
    /// that the graphics API can take and not both zero, the layer count
    /// follows from them, no more layers are handed out than there are, each
    /// record names a layer that was handed out, and no two handles share one.
    pub open spec fn valid(self) -> bool {
        &&& 0 <= self.max_width <= i32::MAX
        &&& 0 <= self.max_height <= i32::MAX
        &&& 0 < self.max_width || 0 < self.max_height
        &&& self.max_layers == layer_capacity(self.max_width, self.max_height)
        &&& 0 <= self.next_layer <= self.max_layers <= i32::MAX
        &&& forall|id: TextureHandle| #[trigger]
            self.records.contains_key(id) ==> 0 <= self.records[id].layer < self.next_layer
        &&& forall|a: TextureHandle, b: TextureHandle|
            #![trigger self.records[a], self.records[b]]
            self.records.contains_key(a) && self.records.contains_key(b) && a != b
                ==> self.records[a].layer != self.records[b].layer
    }
}

/// The bookkeeping of a texture atlas.
pub struct TexturePool {
    managed: HashMap<u64, TextureInfo>,
    user: HashMap<u64, TextureInfo>,
    max_width: usize,
    max_height: usize,
    max_depth: i32,
    next_layer: i32,
}

impl TextureInfo {
    /// The record of an image of `width` by `height` pixels in layer `layer`.
    pub fn new(layer: i32, width: usize, height: usize) -> (info: Self)
        ensures
            info == (TextureInfo { layer, width, height }),
    {
        Self { layer, width, height }
    }
}

/// `i32::ilog2`: the base-2 logarithm of `x`, rounded down. It is defined
/// for positive numbers only.
#[verifier::external_body]
fn ilog2(x: i32) -> (r: u32)
    requires
        x > 0,
    ensures
        r == log(2, x as int),
{
    x.ilog2()
}

/// The logarithm of a number in the range of `i32` is below 31.
proof fn lemma_log2_of_i32(x: int)
    requires
        0 <= x <= i32::MAX,
    ensures
        0 <= log(2, x) <= 30,
{
    lemma_log_nonnegative(2, x);
    lemma_log_is_ordered(2, x, 0x7fff_ffff);
    assert(log(2, 0x7fff_ffff) == 30) by {
        reveal_with_fuel(log, 32);
    }
}

/// If every number from `lo` up to but not including `hi` is in `dom`, then
/// `dom` has at least `hi - lo` elements.
proof fn lemma_run_within(dom: Set<u64>, lo: int, hi: int)
    requires
        dom.finite(),
        0 <= lo <= hi <= u64::MAX + 1,
        forall|j: u64| lo <= j < hi ==> dom.contains(j),
    ensures
        hi - lo <= dom.len(),
    decreases hi - lo,
{
    if lo < hi {
        let last = (hi - 1) as u64;
        assert(dom.contains(last));
        let rest = dom.remove(last);
        assert forall|j: u64| lo <= j < hi - 1 implies rest.contains(j) by {
            assert(dom.contains(j));
        }
        lemma_run_within(rest, lo, hi - 1);
    }
}

/// Every record names a layer of the atlas.
pub proof fn lemma_layer_in_range(s: AtlasState, id: TextureHandle)
    requires
        s.valid(),
        s.records.contains_key(id),
    ensures
        0 <= s.records[id].layer < s.max_layers,
{
}

/// Two different handles never share a layer.
pub proof fn lemma_layers_unique(s: AtlasState, a: TextureHandle, b: TextureHandle)
    requires
        s.valid(),
        s.records.contains_key(a),
        s.records.contains_key(b),
        a != b,
    ensures
        s.records[a].layer != s.records[b].layer,
{
}

/// The scale factors of a record are the width of its image over the width
/// of a layer and the height of its image over the height of a layer.
pub proof fn lemma_uv_scale(s: AtlasState, info: TextureInfo)
    requires
        s.valid(),
    ensures
        s.uv_scale(info).0.num == info.width,
        s.uv_scale(info).0.den == s.max_width,
        s.uv_scale(info).1.num == info.height,
        s.uv_scale(info).1.den == s.max_height,
{
}

/// Registering a new handle while there is room keeps the atlas valid, gives
/// the handle the next layer and the size asked for, and leaves every other
/// record as it was.
pub proof fn lemma_register(s: AtlasState, id: TextureHandle, width: int, height: int)
    requires
        s.valid(),
        s.has_room(),
        !s.records.contains_key(id),
        0 <= width <= usize::MAX,
        0 <= height <= usize::MAX,
    ensures
        s.register(id, width, height).valid(),
        s.register(id, width, height).records[id] == (TextureInfo {
            layer: s.next_layer as i32,
            width: width as usize,
            height: height as usize,
        }),
        forall|other: TextureHandle| #[trigger]
            s.records.contains_key(other) ==> s.register(id, width, height).records.contains_key(
                other,
            ) && s.register(id, width, height).records[other] == s.records[other],
{
}

/// The layer that a handle has after it was looked up is a layer of the
/// atlas, and no other handle has it.
pub proof fn lemma_resolved_layer(
    s: AtlasState,
    id: TextureHandle,
    width: int,
    height: int,
    other: TextureHandle,
)
    requires
        s.valid(),
        s.records.contains_key(id) || s.has_room(),
        0 <= width <= usize::MAX,
        0 <= height <= usize::MAX,
    ensures
        s.resolve(id, width, height).valid(),
        s.resolve(id, width, height).records.contains_key(id),
        0 <= s.resolve(id, width, height).records[id].layer < s.max_layers,
        other != id && s.resolve(id, width, height).records.contains_key(other) ==> s.resolve(
            id,
            width,
            height,
        ).records[other].layer != s.resolve(id, width, height).records[id].layer,
{
    if !s.records.contains_key(id) {
        lemma_register(s, id, width, height);
    }
}

/// The handle of an inserted texture is one that no texture had before, its
/// layer is a layer of the atlas that no other handle has, and its image
/// goes to that layer.
pub proof fn lemma_inserted_layer(
    s: AtlasState,
    new: NewTexture,
    width: usize,
    height: usize,
    other: TextureHandle,
)
    requires
        s.valid(),
        s.has_room(),
        s.inserts(new, width, height),
    ensures
        !s.records.contains_key(new.texture.id),
        s.register(new.texture.id, width as int, height as int).valid(),
        s.register(new.texture.id, width as int, height as int).records[new.texture.id].layer
            == new.region.layer,
        0 <= new.region.layer < s.max_layers,
        other != new.texture.id && s.records.contains_key(other) ==> s.register(
            new.texture.id,
            width as int,
            height as int,
        ).records[other].layer != new.region.layer,
{
    lemma_register(s, new.texture.id, width as int, height as int);
}

/// Looking a handle up a second time allocates nothing, whatever size is
/// given then, and looking up another handle in between does not move it.
pub proof fn lemma_resolve_is_stable(
    s: AtlasState,
    id: TextureHandle,
    width: int,
    height: int,
    other: TextureHandle,
    other_width: int,
    other_height: int,
    again_width: int,
    again_height: int,
)
    ensures
        ({
            let first = s.resolve(id, width, height);
            let between = first.resolve(other, other_width, other_height);
            let second = between.resolve(id, again_width, again_height);
            &&& first.resolve(id, again_width, again_height) == first
            &&& second == between
            &&& second.records[id] == first.records[id]
        }),
{
}

/// Registering distinct handles, one after the other from the empty atlas,
/// finds room every time as long as their number does not exceed the number
/// of layers. The `i`-th of them gets layer `i`. Once as many are registered
/// as there are layers, there is no room for another.
pub proof fn lemma_fills_to_capacity(max_width: int, max_height: int, textures: Seq<SizedTexture>)
    requires
        AtlasState::empty(max_width, max_height).valid(),
        textures.len() <= layer_capacity(max_width, max_height),
        forall|i: int, j: int|
            0 <= i < j < textures.len() ==> (#[trigger] textures[i]).id != (#[trigger] textures[j]).id,
    ensures
        ({
            let empty = AtlasState::empty(max_width, max_height);
            let full = empty.register_all(textures);
            &&& full.valid()
            &&& full.max_width == max_width
            &&& full.max_height == max_height
            &&& full.next_layer == textures.len()
            &&& full.has_room() <==> textures.len() < layer_capacity(max_width, max_height)
            &&& forall|i: int|
                0 <= i < textures.len() ==> empty.register_all(#[trigger] textures.take(i)).has_room()
            &&& forall|i: int|
                #![trigger textures[i]]
                0 <= i < textures.len() ==> full.records.contains_key(textures[i].id)
                    && full.records[textures[i].id] == (TextureInfo {
                    layer: i as i32,
                    width: textures[i].width,
                    height: textures[i].height,
                })
            &&& forall|id: TextureHandle| #[trigger]
                full.records.contains_key(id) ==> exists|i: int|
                    0 <= i < textures.len() && (#[trigger] textures[i]).id == id
        }),
    decreases textures.len(),
{
    let empty = AtlasState::empty(max_width, max_height);
    let full = empty.register_all(textures);
    if textures.len() == 0 {
    } else {
        let init = textures.drop_last();
        let last = textures.last();
        let before = empty.register_all(init);
        lemma_fills_to_capacity(max_width, max_height, init);
        assert(!before.records.contains_key(last.id)) by {
            if before.records.contains_key(last.id) {
                let i = choose|i: int| 0 <= i < init.len() && (#[trigger] init[i]).id == last.id;
                assert(textures[i].id != textures[textures.len() - 1].id);
            }
        }
        lemma_register(before, last.id, last.width as int, last.height as int);
        assert forall|i: int| 0 <= i < textures.len() implies empty.register_all(
            #[trigger] textures.take(i),
        ).has_room() by {
            if i < init.len() {
                assert(textures.take(i) == init.take(i));
            } else {
                assert(textures.take(i) == init);
            }
        }
        assert forall|i: int|
            #![trigger textures[i]]
            0 <= i < textures.len() implies full.records.contains_key(textures[i].id)
            && full.records[textures[i].id] == (TextureInfo {
            layer: i as i32,
            width: textures[i].width,
            height: textures[i].height,
        }) by {
            if i < init.len() {
                assert(init[i] == textures[i]);
                assert(before.records.contains_key(init[i].id));
            }
        }
        assert forall|id: TextureHandle| #[trigger] full.records.contains_key(id) implies exists|
            i: int,
        |
            0 <= i < textures.len() && (#[trigger] textures[i]).id == id by {
            if id == last.id {
                assert(textures[textures.len() - 1].id == id);
            } else {
                assert(before.records.contains_key(id));
                let i = choose|i: int| 0 <= i < init.len() && (#[trigger] init[i]).id == id;
                assert(textures[i].id == id);
            }
        }
    }
}

impl View for TexturePool {
    type V = AtlasState;

    closed spec fn view(&self) -> AtlasState {
        AtlasState {
            records: Map::new(
                |id: TextureHandle|
                    match id {
                        TextureHandle::Managed(k) => self.managed@.contains_key(k),
                        TextureHandle::User(k) => self.user@.contains_key(k),
                    },
                |id: TextureHandle|
                    match id {
                        TextureHandle::Managed(k) => self.managed@[k],
                        TextureHandle::User(k) => self.user@[k],
                    },
            ),
            max_width: self.max_width as int,
            max_height: self.max_height as int,
            max_layers: self.max_depth as int,
            next_layer: self.next_layer as int,
        }
    }
}

impl TexturePool {
    /// What the representation adds to `AtlasState::valid`: there are no
    /// more records than layers handed out.
    pub closed spec fn inv(&self) -> bool {
        self.managed@.len() + self.user@.len() <= self.next_layer
    }

    /// Well-formedness: every operation asks for it and keeps it.
    pub open spec fn wf(&self) -> bool {
        self@.valid() && self.inv()
    }

    /// An atlas of `layer_capacity(max_width, max_height)` layers, each
    /// `max_width` by `max_height` pixels, with no texture in it.
    pub fn new(max_width: usize, max_height: usize) -> (pool: Self)
        requires
            max_width <= i32::MAX,
            max_height <= i32::MAX,
            0 < max_width || 0 < max_height,
        ensures
            pool.wf(),
            pool@ == AtlasState::empty(max_width as int, max_height as int),
    {
        let side: usize = if max_width >= max_height {
            max_width
        } else {
            max_height
        };
        let levels: u32 = ilog2(side as i32);
        proof {
            lemma_log2_of_i32(side as int);
        }
        let max_depth: i32 = levels as i32 + 1;
        let pool = Self {
            managed: HashMap::new(),
            user: HashMap::new(),
            max_width,
            max_height,
            max_depth,
            next_layer: 0,
        };
        assert(pool@.records =~= Map::<TextureHandle, TextureInfo>::empty());
        pool
    }

    /// Width of every layer.
    pub fn max_width(&self) -> (r: usize)
        ensures
            r == self@.max_width,
    {
        self.max_width
    }

    /// Height of every layer.
    pub fn max_height(&self) -> (r: usize)
        ensures
            r == self@.max_height,
    {
        self.max_height
    }

    /// Number of layers.
    pub fn max_layers(&self) -> (r: i32)
        ensures
            r == self@.max_layers,
    {
        self.max_depth
    }

    /// The layer that the next registration gets.
    pub fn next_layer(&self) -> (r: i32)
        ensures
            r == self@.next_layer,
    {
        self.next_layer
    }

    /// Whether a new handle can still be given a layer.
    pub fn has_room(&self) -> (r: bool)
        ensures
            r == self@.has_room(),
    {
        self.next_layer < self.max_depth
    }

    /// Whether an image of `w` by `h` pixels fits into a layer.
    pub fn fits(&self, w: usize, h: usize) -> (r: bool)
        ensures
            r == (w <= self@.max_width && h <= self@.max_height),
    {
        w <= self.max_width && h <= self.max_height
    }

    /// The record of `id`, if it has one.
    pub fn fetch(&self, id: TextureHandle) -> (r: Option<&TextureInfo>)
        ensures
            match r {
                Some(info) => self@.records.contains_key(id) && *info == self@.records[id],
                None => !self@.records.contains_key(id),
            },
    {
        match id {
            TextureHandle::Managed(k) => self.managed.get(&k),
            TextureHandle::User(k) => self.user.get(&k),
        }
    }

    /// The record of `id`. A handle without a record gets the next layer
    /// and a record with the size given; one that has a record keeps it,
    /// whatever size is given.
    pub fn fetch_or_add(&mut self, id: TextureHandle, w: usize, h: usize) -> (info: TextureInfo)
        requires
            old(self).wf(),
            old(self)@.records.contains_key(id) || old(self)@.has_room(),
        ensures
            final(self).wf(),
            final(self)@ == old(self)@.resolve(id, w as int, h as int),
            info == final(self)@.records[id],
    {
        match self.fetch(id) {
            Some(found) => *found,
            None => {
                let info = TextureInfo::new(self.next_layer, w, h);
                self.add(id, info);
                info
            },
        }
    }

    /// The factors by which texture coordinates of a texture with record
    /// `info` are scaled.
    pub fn uv_scale(&self, info: &TextureInfo) -> (scale: (Ratio, Ratio))
        ensures
            scale == self@.uv_scale(*info),
    {
        (
            Ratio { num: info.width, den: self.max_width },
            Ratio { num: info.height, den: self.max_height },
        )
    }

    /// Registers a new texture of `w` by `h` pixels under a handle that no
    /// texture has yet, and gives it the next layer.
    ///
    /// The handle is `User(k)`, `k` being the number of the layer unless a
    /// user texture of that number was registered by `fetch_or_add` before:
    /// then `k` is the next number above it that is free.
    pub fn insert(&mut self, w: usize, h: usize) -> (new: NewTexture)
        requires
            old(self).wf(),
            w <= old(self)@.max_width,
            h <= old(self)@.max_height,
            old(self)@.has_room(),
        ensures
            final(self).wf(),
            old(self)@.inserts(new, w, h),
            final(self)@ == old(self)@.register(new.texture.id, w as int, h as int),
    {
        let id = TextureHandle::User(self.fresh_user_id());
        let info = TextureInfo::new(self.next_layer, w, h);
        self.add(id, info);
        NewTexture {
            texture: SizedTexture { id, width: w, height: h },
            region: TextureRegion { x: 0, y: 0, layer: info.layer, width: w, height: h },
        }
    }

    /// The least number, from that of the next layer on, under which no user
    /// texture is registered.
    fn fresh_user_id(&self) -> (k: u64)
        requires
            self.wf(),
        ensures
            is_first_free_user_id(self@.records, self@.next_layer, k as int),
    {
        let mut k: u64 = self.next_layer as u64;
        while self.user.contains_key(&k)
            invariant
                self.wf(),
                self.next_layer <= k <= self.next_layer + self.user@.len(),
                forall|j: u64| self.next_layer <= j < k ==> self.user@.contains_key(j),
            decreases self.next_layer + self.user@.len() - k,
        {
            proof {
                lemma_run_within(self.user@.dom(), self.next_layer as int, k + 1);
            }
            k = k + 1;
        }
        k
    }

    /// Says where the update `delta` of texture `id` is to be written. A
    /// texture seen for the first time is registered with the size of the
    /// update; one that is known keeps its layer and its recorded size.
    pub fn update_texture(&mut self, id: TextureHandle, delta: &ImageDelta) -> (update:
        TextureUpdate)
        requires
            old(self).wf(),
            old(self)@.records.contains_key(id) || old(self)@.has_room(),
        ensures
            final(self).wf(),
            final(self)@ == old(self)@.resolve(id, delta.width as int, delta.height as int),
            update == (TextureUpdate {
                region: TextureRegion {
                    x: delta.origin().0,
                    y: delta.origin().1,
                    layer: final(self)@.records[id].layer,
                    width: delta.width,
                    height: delta.height,
                },
                len_mismatch: delta.len_mismatch(),
            }),
    {
        let (x, y) = match delta.pos {
            Some(pos) => pos,
            None => (0, 0),
        };
        let info = self.fetch_or_add(id, delta.width, delta.height);
        let len_mismatch = match delta.width.checked_mul(delta.height) {
            Some(area) => delta.pixel_count != area,
            None => true,
        };
        TextureUpdate {
            region: TextureRegion {
                x,
                y,
                layer: info.layer,
                width: delta.width,
                height: delta.height,
            },
            len_mismatch,
        }
    }

    /// Registers a new texture of `size` by `size` pixels and returns it with
    /// its pixels: the checkerboard that stands for a missing image.
    pub fn missing(&mut self, size: usize, cell_size_exp: usize) -> (r: (NewTexture, Vec<u32>))
        requires
            old(self).wf(),
            size <= old(self)@.max_width,
            size <= old(self)@.max_height,
            old(self)@.has_room(),
            cell_size_exp < usize::BITS,
            size * size <= usize::MAX,
        ensures
            final(self).wf(),
            old(self)@.inserts(r.0, size, size),
            final(self)@ == old(self)@.register(r.0.texture.id, size as int, size as int),
            r.1@ == (Pattern::Missing { cell_size_exp }).image(size as int),
    {
        let pixels = (Pattern::Missing { cell_size_exp }).generate(size);
        (self.insert(size, size), pixels)
    }

    /// Registers a new texture of 256 by 256 pixels and returns it with its
    /// pixels: the exclusive-or pattern.
    pub fn xor(&mut self) -> (r: (NewTexture, Vec<u32>))
        requires
            old(self).wf(),
            PATTERN_SIZE <= old(self)@.max_width,
            PATTERN_SIZE <= old(self)@.max_height,
            old(self)@.has_room(),
        ensures
            final(self).wf(),
            old(self)@.inserts(r.0, PATTERN_SIZE, PATTERN_SIZE),
            final(self)@ == old(self)@.register(
                r.0.texture.id,
                PATTERN_SIZE as int,
                PATTERN_SIZE as int,
            ),
            r.1@ == Pattern::Xor.image(PATTERN_SIZE as int),
    {
        let pixels = Pattern::Xor.generate(PATTERN_SIZE);
        (self.insert(PATTERN_SIZE, PATTERN_SIZE), pixels)
    }

    /// Registers a new texture of 256 by 256 pixels and returns it with its
    /// pixels: a slice through the colour cube.
    pub fn rgb_slice(&mut self) -> (r: (NewTexture, Vec<u32>))
        requires
            old(self).wf(),
            PATTERN_SIZE <= old(self)@.max_width,
            PATTERN_SIZE <= old(self)@.max_height,
            old(self)@.has_room(),
        ensures
            final(self).wf(),
            old(self)@.inserts(r.0, PATTERN_SIZE, PATTERN_SIZE),
            final(self)@ == old(self)@.register(
                r.0.texture.id,
                PATTERN_SIZE as int,
                PATTERN_SIZE as int,
            ),
            r.1@ == Pattern::RgbSlice.image(PATTERN_SIZE as int),
    {
        let pixels = Pattern::RgbSlice.generate(PATTERN_SIZE);
        (self.insert(PATTERN_SIZE, PATTERN_SIZE), pixels)
    }

    /// Gives `id`, which has no record, the next layer.
    fn add(&mut self, id: TextureHandle, info: TextureInfo)
        requires
            old(self).wf(),
            old(self)@.has_room(),
            !old(self)@.records.contains_key(id),
            info.layer == old(self)@.next_layer,
        ensures
            final(self).wf(),
            final(self)@ == old(self)@.register(id, info.width as int, info.height as int),
    {
        match id {
            TextureHandle::Managed(k) => {
                self.managed.insert(k, info);
            },
            TextureHandle::User(k) => {
                self.user.insert(k, info);
            },
        }
        self.next_layer = self.next_layer + 1;
        assert(self@.records =~= old(self)@.register(
            id,
            info.width as int,
            info.height as int,
        ).records);
    }
}

} // verus!
