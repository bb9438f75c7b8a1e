//! The store that keeps the chunk columns around the player resident.

use std::collections::{HashMap, HashSet};
use vstd::prelude::*;
use vstd::std_specs::iter::IteratorSpec;
use crate::chunk::{stands_at, Chunk};
use crate::coords::{
    lemma_packing_is_bijective, lemma_window_area_is_bounded, ChunkKey, Position, Window,
    MAX_CHUNK_INDEX,
};
use crate::residency::{ChunksView, Residency};

verus! {

/// The radius of the retention window of a store made by [`Chunks::new`],
/// in chunks.
pub const RETENTION_RADIUS: u16 = 3;

/// The store of chunk columns around the player.
///
/// The store decides; it does not generate. [`Chunks::update`] hands out
/// the keys of the columns to generate, and [`Chunks::publish`] takes each
/// generated column in.
pub struct Chunks {
    seed: u32,
    radius: u16,
    // keyed by the packed form of the key of the column
    loaded: HashMap<u64, Vec<Chunk>>,
    // the packed forms of the keys that were handed out and have not come back
    loading: HashSet<u64>,
    player: Player,
}

/// Where the player was at the last update.
struct Player {
    block_position: Position,
    chunk_position: Position,
}

/// The loaded columns by their keys.
spec fn columns_of(loaded: HashMap<u64, Vec<Chunk>>) -> Map<ChunkKey, Seq<Chunk>> {
    Map::new(
        |key: ChunkKey| loaded@.contains_key(key.packed_spec()),
        |key: ChunkKey| loaded@[key.packed_spec()]@,
    )
}

/// The keys whose packed forms are marked.
spec fn keys_of_marked(loading: HashSet<u64>) -> Set<ChunkKey> {
    Set::new(|key: ChunkKey| loading@.contains(key.packed_spec()))
}

impl View for Chunks {
    type V = ChunksView;

    closed spec fn view(&self) -> ChunksView {
        ChunksView {
            seed: self.seed,
            radius: self.radius,
            loaded: columns_of(self.loaded),
            loading: keys_of_marked(self.loading),
            block_position: self.player.block_position,
            chunk_position: self.player.chunk_position,
        }
    }
}

/// The keys of `loaded`, each once, in no particular order.
fn keys_of(loaded: &HashMap<u64, Vec<Chunk>>) -> (keys: Vec<u64>)
    ensures
        keys@.to_set() == loaded@.dom(),
        keys@.no_duplicates(),
{
    broadcast use vstd::std_specs::hash::group_hash_axioms;

    let mut keys: Vec<u64> = Vec::new();
    let ghost all = loaded.keys().remaining().unref();
    for key in walk: loaded.keys()
        invariant
            keys@.len() == walk.index(),
            walk.seq().unref() == all,
            forall|j: int| 0 <= j < keys@.len() ==> keys@[j] == all[j],
    {
        keys.push(*key);
    }
    assert(keys@ =~= all);
    keys
}

/// Drops the columns whose key lies outside `window` and keeps the others
/// as they are.
fn evict(loaded: &mut HashMap<u64, Vec<Chunk>>, window: Window)
    ensures
        forall|packed: u64| #[trigger]
            final(loaded)@.contains_key(packed) <==> old(loaded)@.contains_key(packed)
                && window.contains_spec(ChunkKey::unpack_spec(packed)),
        forall|packed: u64| #[trigger]
            final(loaded)@.contains_key(packed) ==> final(loaded)@[packed] == old(
                loaded,
            )@[packed],
{
    broadcast use vstd::std_specs::hash::group_hash_axioms;

    let ghost before = loaded@;
    let keys = keys_of(loaded);
    let mut i: usize = 0;
    while i < keys.len()
        invariant
            i <= keys@.len(),
            keys@.to_set() == before.dom(),
            forall|j: int|
                0 <= j < i && !window.contains_spec(ChunkKey::unpack_spec(keys@[j]))
                    ==> !loaded@.contains_key(#[trigger] keys@[j]),
            forall|packed: u64| #[trigger]
                loaded@.contains_key(packed) ==> before.contains_key(packed) && loaded@[packed]
                    == before[packed],
            forall|packed: u64|
                before.contains_key(packed) && window.contains_spec(
                    ChunkKey::unpack_spec(packed),
                ) ==> #[trigger] loaded@.contains_key(packed),
        decreases keys@.len() - i,
    {
        let packed = keys[i];
        if !window.contains(ChunkKey::unpack(packed)) {
            loaded.remove(&packed);
        }
        i += 1;
    }
    proof {
        assert forall|packed: u64| #[trigger]
            loaded@.contains_key(packed) implies window.contains_spec(
            ChunkKey::unpack_spec(packed),
        ) by {
            // the key was walked, and dropped had it been outside
            let j = choose|j: int| 0 <= j < keys@.len() && keys@[j] == packed;
        }
    }
}

/// Marks every key of `window` that is neither loaded nor marked yet, and
/// returns the keys it marked, in the order of the walk: by `x`, and by `z`
/// among keys with the same `x`.
fn request_missing(
    loaded: &HashMap<u64, Vec<Chunk>>,
    loading: &mut HashSet<u64>,
    window: Window,
) -> (requests: Vec<ChunkKey>)
    requires
        window.start.x <= window.end.x < u32::MAX,
        window.start.z <= window.end.z < u32::MAX,
    ensures
        forall|key: ChunkKey|
            #![trigger requests@.contains(key)]
            requests@.contains(key) <==> window.contains_spec(key) && !loaded@.contains_key(
                key.packed_spec(),
            ) && !old(loading)@.contains(key.packed_spec()),
        forall|i: int, j: int|
            0 <= i < j < requests@.len() ==> (#[trigger] requests@[i]).precedes(
                #[trigger] requests@[j],
            ),
        forall|packed: u64| #[trigger]
            final(loading)@.contains(packed) <==> old(loading)@.contains(packed)
                || requests@.contains(ChunkKey::unpack_spec(packed)),
        requests@.len() <= window.area(),
{
    broadcast use vstd::std_specs::hash::group_hash_axioms;

    let ghost before = loading@;
    let ghost depth = window.end.z - window.start.z + 1;
    let mut requests: Vec<ChunkKey> = Vec::new();
    let mut x: u32 = window.start.x;
    while x <= window.end.x
        invariant
            window.start.x <= x <= window.end.x + 1,
            window.end.x < u32::MAX,
            window.start.z <= window.end.z < u32::MAX,
            depth == window.end.z - window.start.z + 1,
            requests@.len() <= (x - window.start.x) * depth,
            forall|key: ChunkKey|
                #![trigger requests@.contains(key)]
                requests@.contains(key) <==> window.contains_spec(key) && key.x < x
                    && !loaded@.contains_key(key.packed_spec()) && !before.contains(
                    key.packed_spec(),
                ),
            forall|i: int| 0 <= i < requests@.len() ==> (#[trigger] requests@[i]).x < x,
            forall|i: int, j: int|
                0 <= i < j < requests@.len() ==> (#[trigger] requests@[i]).precedes(
                    #[trigger] requests@[j],
                ),
            forall|packed: u64| #[trigger]
                loading@.contains(packed) <==> before.contains(packed) || requests@.contains(
                    ChunkKey::unpack_spec(packed),
                ),
        decreases window.end.x + 1 - x,
    {
        let mut z: u32 = window.start.z;
        while z <= window.end.z
            invariant
                window.start.x <= x <= window.end.x,
                window.end.x < u32::MAX,
                window.start.z <= z <= window.end.z + 1,
                window.end.z < u32::MAX,
                depth == window.end.z - window.start.z + 1,
                requests@.len() <= (x - window.start.x) * depth + (z - window.start.z),
                forall|key: ChunkKey|
                    #![trigger requests@.contains(key)]
                    requests@.contains(key) <==> window.contains_spec(key) && (key.x < x || (key.x
                        == x && key.z < z)) && !loaded@.contains_key(key.packed_spec())
                        && !before.contains(key.packed_spec()),
                forall|i: int|
                    0 <= i < requests@.len() ==> (#[trigger] requests@[i]).precedes(
                        ChunkKey { x, z },
                    ),
                forall|i: int, j: int|
                    0 <= i < j < requests@.len() ==> (#[trigger] requests@[i]).precedes(
                        #[trigger] requests@[j],
                    ),
                forall|packed: u64| #[trigger]
                    loading@.contains(packed) <==> before.contains(packed) || requests@.contains(
                        ChunkKey::unpack_spec(packed),
                    ),
            decreases window.end.z + 1 - z,
        {
            let key = ChunkKey { x, z };
            let packed = key.packed();
            let ghost sent = requests@;
            if !loaded.contains_key(&packed) && !loading.contains(&packed) {
                loading.insert(packed);
                requests.push(key);
                proof {
                    assert forall|other: ChunkKey|
                        #![trigger requests@.contains(other)]
                        requests@.contains(other) <==> sent.contains(other) || other == key by {
                        if sent.contains(other) {
                            let i = choose|i: int| 0 <= i < sent.len() && sent[i] == other;
                            assert(requests@[i] == other);
                        }
                        if other == key {
                            assert(requests@[sent.len() as int] == key);
                        }
                    }
                }
            } else {
                proof {
                    // a key marked during this walk would have come before itself
                    if sent.contains(key) {
                        let i = choose|i: int| 0 <= i < sent.len() && sent[i] == key;
                    }
                }
            }
            z += 1;
        }
        assert((x - window.start.x) * depth + depth == (x + 1 - window.start.x) * depth)
            by (nonlinear_arith);
        x += 1;
    }
    requests
}

impl Chunks {
    /// Every store is well formed: no column is both loaded and being
    /// generated, every loaded column has the shape of the column at its
    /// key, and the recorded positions are those of a player inside the
    /// world.
    #[verifier::type_invariant]
    spec fn well_formed(&self) -> bool {
        self@.wf()
    }

    /// A store with nothing loaded and nothing requested, for terrain of
    /// the given seed, with a retention window of [`RETENTION_RADIUS`].
    pub fn new(seed: u32) -> (chunks: Self)
        ensures
            chunks@ == ChunksView::initial(seed, RETENTION_RADIUS),
            chunks@.wf(),
    {
        Chunks::with_radius(seed, RETENTION_RADIUS)
    }

    /// A store with nothing loaded and nothing requested, for terrain of
    /// the given seed, that keeps the columns within `radius` chunks of the
    /// player on each axis.
    pub fn with_radius(seed: u32, radius: u16) -> (chunks: Self)
        ensures
            chunks@ == ChunksView::initial(seed, radius),
            chunks@.wf(),
    {
        Chunks {
            seed,
            radius,
            loaded: HashMap::new(),
            loading: HashSet::new(),
            player: Player {
                block_position: Position { x: 0, z: 0 },
                chunk_position: Position { x: 0, z: 0 },
            },
        }
    }

    /// The seed of the terrain that the columns are generated from.
    pub fn seed(&self) -> (seed: u32)
        ensures
            seed == self@.seed,
    {
        self.seed
    }

    /// The radius of the retention window, in chunks.
    pub fn radius(&self) -> (radius: u16)
        ensures
            radius == self@.radius,
    {
        self.radius
    }

    /// The block column of the player at the last update.
    pub fn block_position(&self) -> (position: &Position)
        ensures
            *position == self@.block_position,
            self@.wf(),
    {
        proof {
            use_type_invariant(self);
        }
        &self.player.block_position
    }

    /// The chunk column of the player at the last update.
    pub fn chunk_position(&self) -> (position: &Position)
        ensures
            *position == self@.chunk_position,
            self@.wf(),
    {
        proof {
            use_type_invariant(self);
        }
        &self.player.chunk_position
    }

    /// The loaded columns, each under the packed form of its key. Each is
    /// eight chunks from the bottom up.
    pub fn loaded(&self) -> (loaded: &HashMap<u64, Vec<Chunk>>)
        ensures
            self@.wf(),
            forall|packed: u64| #[trigger]
                loaded@.contains_key(packed) ==> stands_at(
                    loaded@[packed]@,
                    ChunkKey::unpack_spec(packed),
                ),
            forall|key: ChunkKey|
                #![trigger self@.loaded.contains_key(key)]
                self@.loaded.contains_key(key) <==> loaded@.contains_key(key.packed_spec()),
            forall|key: ChunkKey|
                #![trigger self@.loaded[key]]
                self@.loaded.contains_key(key) ==> loaded@[key.packed_spec()]@
                    == self@.loaded[key],
    {
        proof {
            use_type_invariant(self);
            assert forall|packed: u64| #[trigger]
                self.loaded@.contains_key(packed) implies stands_at(
                self.loaded@[packed]@,
                ChunkKey::unpack_spec(packed),
            ) by {
                let key = ChunkKey::unpack_spec(packed);
                assert(self@.loaded.contains_key(key));
            }
        }
        &self.loaded
    }

    /// The packed forms of the keys of the columns that are being generated.
    pub fn loading(&self) -> (loading: &HashSet<u64>)
        ensures
            self@.wf(),
            forall|key: ChunkKey|
                #![trigger self@.loading.contains(key)]
                self@.loading.contains(key) <==> loading@.contains(key.packed_spec()),
    {
        proof {
            use_type_invariant(self);
        }
        &self.loading
    }

    /// The loaded column at `key`, if there is one.
    pub fn column(&self, key: ChunkKey) -> (column: Option<&Vec<Chunk>>)
        ensures
            self@.wf(),
            column is Some <==> self@.loaded.contains_key(key),
            column matches Some(chunks) ==> chunks@ == self@.loaded[key] && stands_at(
                chunks@,
                key,
            ),
    {
        broadcast use vstd::std_specs::hash::group_hash_axioms;

        let packed = key.packed();
        proof {
            use_type_invariant(self);
            if self.loaded@.contains_key(packed) {
                assert(self@.loaded.contains_key(key));
            }
        }
        self.loaded.get(&packed)
    }

    /// The state of the column at `key`.
    pub fn state(&self, key: ChunkKey) -> (state: Residency)
        ensures
            state == self@.state(key),
            self@.wf(),
    {
        broadcast use vstd::std_specs::hash::group_hash_axioms;

        proof {
            use_type_invariant(self);
        }

        let packed = key.packed();
        if self.loading.contains(&packed) {
            Residency::Loading
        } else if self.loaded.contains_key(&packed) {
            Residency::Loaded
        } else {
            Residency::Absent
        }
    }

    /// Moves the store on for a player who stands at `(x, z)`, both rounded
    /// down to whole blocks.
    ///
    /// Records the block and chunk position of the player, drops the loaded
    /// columns outside the retention window, marks the columns of the
    /// window that are neither loaded nor being generated, and returns
    /// their keys: the columns to generate, in the order to generate them.
    /// Each is to come back through [`Chunks::publish`].
    pub fn update(&mut self, x: i32, z: i32) -> (requests: Vec<ChunkKey>)
        ensures
            final(self)@ == old(self)@.update(x, z),
            final(self)@.wf(),
            requests@.to_set() == old(self)@.requests(x, z),
            requests@.no_duplicates(),
            forall|i: int, j: int|
                0 <= i < j < requests@.len() ==> (#[trigger] requests@[i]).precedes(
                    #[trigger] requests@[j],
                ),
            forall|i: int|
                0 <= i < requests@.len() ==> (#[trigger] requests@[i]).x <= MAX_CHUNK_INDEX
                    && requests@[i].z <= MAX_CHUNK_INDEX,
            requests@.len() <= old(self)@.window(x, z).area() <= (2 * old(self)@.radius + 1) * (2
                * old(self)@.radius + 1),
            forall|key: ChunkKey| #[trigger]
                final(self)@.loaded.contains_key(key) ==> old(self)@.window(x, z).contains_spec(
                    key,
                ),
            forall|key: ChunkKey|
                old(self)@.window(x, z).contains_spec(key) ==> #[trigger] final(self)@.state(key)
                    != Residency::Absent,
    {
        proof {
            use_type_invariant(&*self);
        }
        let ghost before = self@;
        let block_position = Position::of_player(x, z);
        let chunk_position = block_position.chunk();
        let window = Window::around(chunk_position, self.radius);
        // The two collections leave the store while they change and come
        // back when both are done: the store is well formed at every step.
        let mut loaded: HashMap<u64, Vec<Chunk>> = HashMap::new();
        let mut loading: HashSet<u64> = HashSet::new();
        core::mem::swap(&mut self.loaded, &mut loaded);
        core::mem::swap(&mut self.loading, &mut loading);
        self.player = Player { block_position, chunk_position };
        evict(&mut loaded, window);
        let requests = request_missing(&loaded, &mut loading, window);
        proof {
            assert(columns_of(loaded) =~= before.update(x, z).loaded);
            assert(keys_of_marked(loading) =~= before.update(x, z).loading);
        }
        core::mem::swap(&mut self.loaded, &mut loaded);
        core::mem::swap(&mut self.loading, &mut loading);
        proof {
            lemma_window_area_is_bounded(chunk_position, self.radius);
            assert(requests@.to_set() =~= before.requests(x, z));
            assert forall|i: int| 0 <= i < requests@.len() implies (#[trigger] requests@[i]).x
                <= MAX_CHUNK_INDEX && requests@[i].z <= MAX_CHUNK_INDEX by {
                assert(requests@.contains(requests@[i]));
            }
        }
        requests
    }

    /// Takes in the generated column for `key`: the column is loaded from
    /// now on, and the key is no longer marked as being generated.
    pub fn publish(&mut self, key: ChunkKey, column: Vec<Chunk>)
        requires
            stands_at(column@, key),
        ensures
            final(self)@ == old(self)@.publish(key, column@),
            final(self)@.wf(),
            final(self)@.state(key) == Residency::Loaded,
    {
        broadcast use vstd::std_specs::hash::group_hash_axioms;

        proof {
            use_type_invariant(&*self);
        }
        let ghost before = self@;
        let packed = key.packed();
        // The two collections leave the store while they change and come
        // back when both are done: the store is well formed at every step.
        let mut loaded: HashMap<u64, Vec<Chunk>> = HashMap::new();
        let mut loading: HashSet<u64> = HashSet::new();
        core::mem::swap(&mut self.loaded, &mut loaded);
        core::mem::swap(&mut self.loading, &mut loading);
        loading.remove(&packed);
        loaded.insert(packed, column);
        proof {
            assert(columns_of(loaded) =~= before.publish(key, column@).loaded);
            assert(keys_of_marked(loading) =~= before.publish(key, column@).loading);
        }
        core::mem::swap(&mut self.loaded, &mut loaded);
        core::mem::swap(&mut self.loading, &mut loading);
    }
}

} // verus!
