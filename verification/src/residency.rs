//! The chunk store as a mathematical value: which chunk columns are loaded,
//! which are being generated, and how an update and the arrival of a
//! generated column change that.
//!
//! Every chunk column is in one of three states. An update moves an absent
//! column inside the retention window to `Loading` and hands its key out as
//! a request; the arrival of the generated column moves it to `Loaded`; an
//! update that finds a loaded column outside the window drops it. A column
//! that is being generated is never dropped and never requested again.

use vstd::prelude::*;
use crate::chunk::{stands_at, Chunk};
use crate::coords::{ChunkKey, Position, Window};

verus! {

/// The state of one chunk column.
#[derive(Debug, Copy, Clone, PartialEq, Eq, Structural)]
pub enum Residency {
    /// Neither loaded nor being generated.
    Absent,
    /// Requested; its generation has not been published yet.
    Loading,
    /// Generated and held by the store.
    Loaded,
}

/// The chunk store as a mathematical value.
#[verifier::ext_equal]
pub struct ChunksView {
    /// The seed of the terrain that the columns are generated from.
    pub seed: u32,
    /// The radius of the retention window, in chunks.
    pub radius: u16,
    /// The loaded columns.
    pub loaded: Map<ChunkKey, Seq<Chunk>>,
    /// The keys of the columns that are being generated.
    pub loading: Set<ChunkKey>,
    /// The block column of the player at the last update.
    pub block_position: Position,
    /// The chunk column of the player at the last update.
    pub chunk_position: Position,
}

/// What can happen to a store.
pub enum Event {
    /// The player is found at `(x, z)`, rounded down to whole blocks.
    Update { x: i32, z: i32 },
    /// The generated column for `key` arrives.
    Publish { key: ChunkKey, column: Seq<Chunk> },
}

impl ChunksView {
    /// The store before the first update: nothing loaded, nothing requested,
    /// the player at the origin.
    pub open spec fn initial(seed: u32, radius: u16) -> ChunksView {
        ChunksView {
            seed,
            radius,
            loaded: Map::empty(),
            loading: Set::empty(),
            block_position: Position { x: 0, z: 0 },
            chunk_position: Position { x: 0, z: 0 },
        }
    }

    /// No column is both loaded and being generated, every loaded column
    /// has the shape of the column at its key, and the recorded positions
    /// are those of a player inside the world.
    pub open spec fn wf(self) -> bool {
        &&& forall|key: ChunkKey|
            !(#[trigger] self.loaded.contains_key(key) && self.loading.contains(key))
        &&& forall|key: ChunkKey| #[trigger]
            self.loaded.contains_key(key) ==> stands_at(self.loaded[key], key)
        &&& self.block_position.x >= 0
        &&& self.block_position.z >= 0
        &&& self.chunk_position == self.block_position.chunk_spec()
    }

    /// The state of the column at `key`.
    pub open spec fn state(self, key: ChunkKey) -> Residency {
        if self.loading.contains(key) {
            Residency::Loading
        } else if self.loaded.contains_key(key) {
            Residency::Loaded
        } else {
            Residency::Absent
        }
    }

    /// The retention window of a player at `(x, z)`.
    pub open spec fn window(self, x: i32, z: i32) -> Window {
        Window::around_spec(Position::of_player_spec(x, z).chunk_spec(), self.radius)
    }

    /// The keys that an update for a player at `(x, z)` requests: those in
    /// the window that are neither loaded nor being generated.
    pub open spec fn requests(self, x: i32, z: i32) -> Set<ChunkKey> {
        Set::new(
            |key: ChunkKey|
                self.window(x, z).contains_spec(key) && !self.loaded.contains_key(key)
                    && !self.loading.contains(key),
        )
    }

    /// The store after an update for a player at `(x, z)`: the positions are
    /// recorded, the loaded columns outside the window are dropped, and the
    /// requested keys are marked as being generated.
    pub open spec fn update(self, x: i32, z: i32) -> ChunksView {
        let window = self.window(x, z);
        ChunksView {
            seed: self.seed,
            radius: self.radius,
            loaded: self.loaded.restrict(Set::new(|key: ChunkKey| window.contains_spec(key))),
            loading: self.loading.union(self.requests(x, z)),
            block_position: Position::of_player_spec(x, z),
            chunk_position: Position::of_player_spec(x, z).chunk_spec(),
        }
    }

    /// The store after the generated column for `key` has arrived: the
    /// column is loaded and the key is no longer marked.
    pub open spec fn publish(self, key: ChunkKey, column: Seq<Chunk>) -> ChunksView {
        ChunksView {
            seed: self.seed,
            radius: self.radius,
            loaded: self.loaded.insert(key, column),
            loading: self.loading.remove(key),
            block_position: self.block_position,
            chunk_position: self.chunk_position,
        }
    }

    /// Whether the store takes `event`: any update, and the arrival of a
    /// column that has the shape of the column at its key.
    pub open spec fn accepts(event: Event) -> bool {
        match event {
            Event::Update { .. } => true,
            Event::Publish { key, column } => stands_at(column, key),
        }
    }

    /// The store after `event`.
    pub open spec fn step(self, event: Event) -> ChunksView {
        match event {
            Event::Update { x, z } => self.update(x, z),
            Event::Publish { key, column } => self.publish(key, column),
        }
    }

    /// The keys that `event` requests from the generator.
    pub open spec fn dispatched(self, event: Event) -> Set<ChunkKey> {
        match event {
            Event::Update { x, z } => self.requests(x, z),
            Event::Publish { .. } => Set::empty(),
        }
    }

    /// The store after all of `events`, in order.
    pub open spec fn run(self, events: Seq<Event>) -> ChunksView
        decreases events.len(),
    {
        if events.len() == 0 {
            self
        } else {
            self.run(events.drop_last()).step(events.last())
        }
    }
}

/// Whether `event` is the arrival of the generated column for `key`.
pub open spec fn publishes(event: Event, key: ChunkKey) -> bool {
    event matches Event::Publish { key: published, .. } && published == key
}

/// The store before its first update is well formed.
pub proof fn lemma_initial_is_wf(seed: u32, radius: u16)
    ensures
        ChunksView::initial(seed, radius).wf(),
        forall|key: ChunkKey|
            ChunksView::initial(seed, radius).state(key) == Residency::Absent,
{
}

/// What an update does to each column: one that is being generated stays
/// so; a loaded one stays inside the window and is dropped outside it; an
/// absent one is requested inside the window and stays absent outside it.
pub proof fn lemma_update_transitions(store: ChunksView, x: i32, z: i32, key: ChunkKey)
    ensures
        store.update(x, z).state(key) == match store.state(key) {
            Residency::Loading => Residency::Loading,
            Residency::Loaded => if store.window(x, z).contains_spec(key) {
                Residency::Loaded
            } else {
                Residency::Absent
            },
            Residency::Absent => if store.window(x, z).contains_spec(key) {
                Residency::Loading
            } else {
                Residency::Absent
            },
        },
        store.requests(x, z).contains(key) <==> store.state(key) == Residency::Absent
            && store.update(x, z).state(key) == Residency::Loading,
        store.update(x, z).loaded.contains_key(key) ==> store.update(x, z).loaded[key]
            == store.loaded[key],
{
}

/// What the arrival of a generated column does: its column is loaded, and
/// every other column is as it was.
pub proof fn lemma_publish_transitions(
    store: ChunksView,
    key: ChunkKey,
    column: Seq<Chunk>,
    other: ChunkKey,
)
    ensures
        store.publish(key, column).state(key) == Residency::Loaded,
        store.publish(key, column).loaded[key] == column,
        other != key ==> store.publish(key, column).state(other) == store.state(other),
        other != key && store.loaded.contains_key(other) ==> store.publish(key, column).loaded[other]
            == store.loaded[other],
{
}

/// No event that the store takes breaks it: after the event, still no
/// column is both loaded and being generated, and every loaded column has
/// the shape of the column at its key.
pub proof fn lemma_step_preserves_wf(store: ChunksView, event: Event)
    requires
        store.wf(),
        ChunksView::accepts(event),
    ensures
        store.step(event).wf(),
{
}

/// No sequence of events that the store takes breaks it.
pub proof fn lemma_run_preserves_wf(store: ChunksView, events: Seq<Event>)
    requires
        store.wf(),
        forall|i: int| 0 <= i < events.len() ==> ChunksView::accepts(#[trigger] events[i]),
    ensures
        store.run(events).wf(),
    decreases events.len(),
{
    if events.len() > 0 {
        lemma_run_preserves_wf(store, events.drop_last());
        lemma_step_preserves_wf(store.run(events.drop_last()), events.last());
    }
}

/// An update requests only absent columns: none that is being generated and
/// none that is loaded. Every key it requests is marked as being generated
/// afterwards, so the next update does not request it again.
pub proof fn lemma_no_duplicate_work(store: ChunksView, x: i32, z: i32, next_x: i32, next_z: i32)
    ensures
        store.requests(x, z).disjoint(store.loading),
        store.requests(x, z).disjoint(store.loaded.dom()),
        store.requests(x, z).subset_of(store.update(x, z).loading),
        store.requests(x, z).disjoint(store.update(x, z).requests(next_x, next_z)),
{
}

/// After an update every loaded column lies inside the retention window.
pub proof fn lemma_eviction(store: ChunksView, x: i32, z: i32, key: ChunkKey)
    requires
        store.update(x, z).loaded.contains_key(key),
    ensures
        store.window(x, z).contains_spec(key),
        store.loaded.contains_key(key),
{
}

/// A column that arrives after the window has moved away from it is held
/// only until the next update: that update drops it unless the window
/// has come back to it.
pub proof fn lemma_late_column_is_dropped(
    store: ChunksView,
    key: ChunkKey,
    column: Seq<Chunk>,
    x: i32,
    z: i32,
)
    ensures
        store.publish(key, column).state(key) == Residency::Loaded,
        store.publish(key, column).update(x, z).state(key) == if store.window(
            x,
            z,
        ).contains_spec(key) {
            Residency::Loaded
        } else {
            Residency::Absent
        },
{
}

/// After an update every column inside the retention window is loaded or
/// being generated.
pub proof fn lemma_window_is_covered(store: ChunksView, x: i32, z: i32, key: ChunkKey)
    requires
        store.window(x, z).contains_spec(key),
    ensures
        store.update(x, z).state(key) != Residency::Absent,
{
}

/// Running one event more is one step from where the shorter run ends.
pub proof fn lemma_run_unfolds(store: ChunksView, events: Seq<Event>, n: int)
    requires
        0 <= n < events.len(),
    ensures
        store.run(events.take(n + 1)) == store.run(events.take(n)).step(events[n]),
{
    assert(events.take(n + 1).drop_last() =~= events.take(n));
}

/// A column that is being generated stays so until its generated column
/// arrives, whatever else happens.
pub proof fn lemma_loading_until_published(
    store: ChunksView,
    events: Seq<Event>,
    from: int,
    to: int,
    key: ChunkKey,
)
    requires
        0 <= from <= to <= events.len(),
        store.run(events.take(from)).loading.contains(key),
        forall|m: int| from <= m < to ==> !publishes(#[trigger] events[m], key),
    ensures
        store.run(events.take(to)).loading.contains(key),
    decreases to - from,
{
    if from < to {
        lemma_loading_until_published(store, events, from, to - 1, key);
        lemma_run_unfolds(store, events, to - 1);
        assert(!publishes(events[to - 1], key));
    }
}

/// Over any sequence of events, from any store: where the same
/// key is requested twice, its generated column arrived in between. So no
/// key is requested a second time while it is being generated.
pub proof fn lemma_no_request_while_loading(
    store: ChunksView,
    events: Seq<Event>,
    first: int,
    second: int,
    key: ChunkKey,
)
    requires
        0 <= first < second < events.len(),
        store.run(events.take(first)).dispatched(events[first]).contains(key),
        store.run(events.take(second)).dispatched(events[second]).contains(key),
    ensures
        exists|m: int| first < m < second && publishes(#[trigger] events[m], key),
{
    if !(exists|m: int| first < m < second && publishes(#[trigger] events[m], key)) {
        lemma_run_unfolds(store, events, first);
        assert(store.run(events.take(first + 1)).loading.contains(key));
        lemma_loading_until_published(store, events, first + 1, second, key);
        assert(false);
    }
}

/// Over any sequence of events, from any store: a key is
/// requested only where its column is absent, neither loaded nor being
/// generated.
pub proof fn lemma_requests_only_absent(
    store: ChunksView,
    events: Seq<Event>,
    at: int,
    key: ChunkKey,
)
    requires
        0 <= at < events.len(),
        store.run(events.take(at)).dispatched(events[at]).contains(key),
    ensures
        store.run(events.take(at)).state(key) == Residency::Absent,
        store.run(events.take(at + 1)).state(key) == Residency::Loading,
{
    lemma_run_unfolds(store, events, at);
}

} // verus!
