//! The load manager: the table of loads in flight.

use crate::arena::{
    arena_generation, arena_get, arena_get_mut, arena_handles, arena_insert, arena_new,
    arena_records, arena_remove,
};
use crate::record::{
    Avm2LoaderData, DataFormat, Handle, Loader, LoaderStatus, MovieLoaderEventHandler, ObjectRef,
};
use generational_arena::Arena;
use vstd::prelude::*;

verus! {

/// Whether `order` lists the handles in `keys`, each once, by rising slot.
pub open spec fn is_slot_order(order: Seq<Handle>, keys: Set<Handle>) -> bool {
    &&& forall|h: Handle| order.contains(h) <==> keys.contains(h)
    &&& forall|i: int, j: int| 0 <= i < j < order.len() ==> order[i].index < order[j].index
}

/// A slot order has no handle twice, and is as long as its set is large.
pub proof fn lemma_slot_order_len(order: Seq<Handle>, keys: Set<Handle>)
    requires
        is_slot_order(order, keys),
    ensures
        order.no_duplicates(),
        keys.finite(),
        keys.len() == order.len(),
{
    broadcast use vstd::seq_lib::seq_to_set_is_finite;

    assert(order.no_duplicates()) by {
        assert forall|i: int, j: int|
            0 <= i < order.len() && 0 <= j < order.len() && i != j implies order[i] != order[j] by {
            if i < j {
                assert(order[i].index < order[j].index);
            } else {
                assert(order[j].index < order[i].index);
            }
        }
    }
    assert(order.to_set() =~= keys);
    order.unique_seq_to_set();
}

/// A set of handles has at most one slot order.
pub proof fn lemma_slot_order_unique(first: Seq<Handle>, second: Seq<Handle>, keys: Set<Handle>)
    requires
        is_slot_order(first, keys),
        is_slot_order(second, keys),
    ensures
        first == second,
    decreases first.len(),
{
    lemma_slot_order_len(first, keys);
    lemma_slot_order_len(second, keys);
    let n = first.len() as int;
    if n == 0 {
        assert(first =~= second);
    } else {
        let f = first[n - 1];
        let g = second[n - 1];
        assert(first.contains(f));
        assert(second.contains(g));
        assert(second.contains(f));
        assert(first.contains(g));
        let k = choose|k: int| 0 <= k < second.len() && second[k] == f;
        let j = choose|j: int| 0 <= j < first.len() && first[j] == g;
        if k < n - 1 {
            assert(second[k].index < second[n - 1].index);
            if j < n - 1 {
                assert(first[j].index < first[n - 1].index);
            }
        }
        assert(f == g);
        let rest = keys.remove(f);
        let first_rest = first.drop_last();
        let second_rest = second.drop_last();
        assert forall|h: Handle| first_rest.contains(h) <==> rest.contains(h) by {
            if first_rest.contains(h) {
                let i = choose|i: int| 0 <= i < first_rest.len() && first_rest[i] == h;
                assert(first[i] == h);
                assert(first[i].index < first[n - 1].index);
                assert(first.contains(h));
            }
            if rest.contains(h) {
                assert(first.contains(h));
                let i = choose|i: int| 0 <= i < first.len() && first[i] == h;
                assert(first_rest[i] == h);
            }
        }
        assert forall|h: Handle| second_rest.contains(h) <==> rest.contains(h) by {
            if second_rest.contains(h) {
                let i = choose|i: int| 0 <= i < second_rest.len() && second_rest[i] == h;
                assert(second[i] == h);
                assert(second[i].index < second[n - 1].index);
                assert(second.contains(h));
            }
            if rest.contains(h) {
                assert(second.contains(h));
                let i = choose|i: int| 0 <= i < second.len() && second[i] == h;
                assert(second_rest[i] == h);
            }
        }
        assert forall|a: int, b: int| 0 <= a < b < first_rest.len() implies first_rest[a].index
            < first_rest[b].index by {
            assert(first[a].index < first[b].index);
        }
        assert forall|a: int, b: int| 0 <= a < b < second_rest.len() implies second_rest[a].index
            < second_rest[b].index by {
            assert(second[a].index < second[b].index);
        }
        lemma_slot_order_unique(first_rest, second_rest, rest);
        assert(first =~= first_rest.push(f));
        assert(second =~= second_rest.push(g));
    }
}

/// Holds all in-progress loads for the player.
pub struct LoadManager {
    arena: Arena<Loader>,
    retired: u64,
}

impl LoadManager {
    /// The table is well formed: its count of removals is the arena's
    /// generation counter, and no record lives under a handle from a
    /// generation that has not begun. Every table made by `new` and changed
    /// through the methods of this type is well formed.
    pub closed spec fn wf(&self) -> bool {
        &&& self.retired == arena_generation(self.arena)
        &&& arena_records(self.arena).dom().finite()
        &&& forall|h: Handle| #[trigger]
            arena_records(self.arena).contains_key(h) ==> h.generation <= self.retired
    }

    /// Whether every record knows its own handle and agrees with itself.
    /// A new table is consistent, and every transition of this library keeps
    /// a consistent table so; only what a caller writes through
    /// `get_loader_mut` can break it.
    pub open spec fn consistent(&self) -> bool {
        forall|h: Handle| #[trigger]
            self.records().contains_key(h) ==> self.records()[h].handle() == Some(h)
                && self.records()[h].coherent()
    }

    /// Whether every movie load that is in this table and was in `earlier`
    /// shows a status that its status in `earlier` leads to.
    pub open spec fn advances_from(&self, earlier: LoadManager) -> bool {
        forall|h: Handle| #[trigger]
            self.records().contains_key(h) && earlier.records().contains_key(h)
                && earlier.records()[h] is Movie ==> self.records()[h] is Movie
                && earlier.records()[h]->loader_status.leads_to(
                self.records()[h]->loader_status,
            )
    }

    /// Whether this table is what `earlier` becomes when the load under
    /// `handle` is over and its record leaves: nothing else changes, and the
    /// handle finds nothing from then on.
    pub open spec fn is_after_retiring(&self, earlier: LoadManager, handle: Handle) -> bool {
        &&& self.wf()
        &&& self.records() == earlier.records().remove(handle)
        &&& self.removals() == (if earlier.records().contains_key(handle) {
            earlier.removals() + 1
        } else {
            earlier.removals() as int
        })
        &&& earlier.consistent() ==> self.consistent()
        &&& self.advances_from(earlier)
    }

    /// The records in flight, each under its handle.
    pub closed spec fn records(&self) -> Map<Handle, Loader> {
        arena_records(self.arena)
    }

    /// How many records have left the table since it was made.
    pub closed spec fn removals(&self) -> u64 {
        self.retired
    }

    /// Construct a new `LoadManager`.
    pub fn new() -> (manager: LoadManager)
        ensures
            manager.wf(),
            manager.consistent(),
            manager.records() == Map::<Handle, Loader>::empty(),
            manager.removals() == 0,
    {
        LoadManager { arena: arena_new(), retired: 0 }
    }

    /// Add a new loader to the `LoadManager`.
    ///
    /// Returns the loader handle for later inspection. The handle is stamped
    /// into the record, and it is one that found no record before.
    pub fn add_loader(&mut self, loader: Loader) -> (handle: Handle)
        requires
            old(self).wf(),
        ensures
            final(self).wf(),
            !old(self).records().contains_key(handle),
            handle.generation == old(self).removals(),
            final(self).removals() == old(self).removals(),
            final(self).records() == old(self).records().insert(handle, loader.stamped(handle)),
            final(self).records()[handle].handle() == Some(handle),
            forall|h: Handle| h.generation < old(self).removals() ==> h != handle,
            old(self).consistent() && loader.coherent() ==> final(self).consistent(),
            final(self).advances_from(*old(self)),
    {
        let handle = arena_insert(&mut self.arena, loader);
        match arena_get_mut(&mut self.arena, handle) {
            Some(slot) => {
                slot.stamp(handle);
            },
            None => {},
        }
        assert(arena_records(self.arena) =~= old(self).records().insert(
            handle,
            loader.stamped(handle),
        ));
        handle
    }

    /// Retrieve a loader by handle.
    pub fn get_loader(&self, handle: Handle) -> (r: Option<&Loader>)
        ensures
            r == (if self.records().contains_key(handle) {
                Some(&self.records()[handle])
            } else {
                None
            }),
    {
        arena_get(&self.arena, handle)
    }

    /// A copy of the record under `handle`.
    pub(crate) fn record(&self, handle: Handle) -> (r: Option<Loader>)
        ensures
            r == (if self.records().contains_key(handle) {
                Some(self.records()[handle])
            } else {
                None
            }),
    {
        match arena_get(&self.arena, handle) {
            Some(loader) => Some(*loader),
            None => None,
        }
    }

    /// Retrieve a loader by handle for mutation.
    pub fn get_loader_mut(&mut self, handle: Handle) -> (r: Option<&mut Loader>)
        ensures
            old(self).wf() ==> final(self).wf(),
            final(self).removals() == old(self).removals(),
            match r {
                Some(slot) => {
                    &&& old(self).records().contains_key(handle)
                    &&& *slot == old(self).records()[handle]
                    &&& final(self).records() == old(self).records().insert(handle, *final(slot))
                },
                None => {
                    &&& !old(self).records().contains_key(handle)
                    &&& final(self).records() == old(self).records()
                },
            },
    {
        arena_get_mut(&mut self.arena, handle)
    }
    /// Takes the record under `handle` out of the table. The handle finds
    /// nothing from then on, and `add_loader` will not hand it out again.
    pub fn remove_loader(&mut self, handle: Handle) -> (r: Option<Loader>)
        requires
            old(self).wf(),
            old(self).removals() < u64::MAX,
        ensures
            final(self).wf(),
            r == (if old(self).records().contains_key(handle) {
                Some(old(self).records()[handle])
            } else {
                None
            }),
            final(self).records() == old(self).records().remove(handle),
            final(self).removals() == (if old(self).records().contains_key(handle) {
                old(self).removals() + 1
            } else {
                old(self).removals() as int
            }),
            old(self).records().contains_key(handle) ==> final(self).removals()
                > handle.generation,
            old(self).consistent() ==> final(self).consistent(),
            final(self).advances_from(*old(self)),
    {
        let removed = arena_remove(&mut self.arena, handle);
        if removed.is_some() {
            self.retired = self.retired + 1;
        }
        removed
    }

    /// The number of `remove_loader` calls that took a record out.
    pub fn removal_count(&self) -> (n: u64)
        ensures
            n == self.removals(),
    {
        self.retired
    }

    /// Kick off the root movie load: registers the record and returns its
    /// handle. The root movie determines a few bits of player state, so this
    /// should only be called once, by the player that loads its root movie.
    pub fn load_root_movie(&mut self) -> (handle: Handle)
        requires
            old(self).wf(),
        ensures
            final(self).wf(),
            !old(self).records().contains_key(handle),
            handle.generation == old(self).removals(),
            final(self).removals() == old(self).removals(),
            old(self).consistent() ==> final(self).consistent(),
            final(self).advances_from(*old(self)),
            final(self).records() == old(self).records().insert(
                handle,
                (Loader::RootMovie { self_handle: Some(handle) }),
            ),
    {
        self.add_loader(Loader::RootMovie { self_handle: None })
    }

    /// Kick off a movie clip load from a URL: registers a `Pending` movie
    /// record and returns its handle.
    pub fn load_movie_into_clip(
        &mut self,
        target_clip: ObjectRef,
        event_handler: Option<MovieLoaderEventHandler>,
        avm2_data: Option<Avm2LoaderData>,
    ) -> (handle: Handle)
        requires
            old(self).wf(),
        ensures
            final(self).wf(),
            !old(self).records().contains_key(handle),
            handle.generation == old(self).removals(),
            final(self).removals() == old(self).removals(),
            old(self).consistent() ==> final(self).consistent(),
            final(self).advances_from(*old(self)),
            final(self).records() == old(self).records().insert(
                handle,
                (Loader::Movie {
                    self_handle: Some(handle),
                    target_clip,
                    event_handler,
                    loader_status: LoaderStatus::Pending,
                    movie: None,
                    avm2_data,
                }),
            ),
    {
        self.add_loader(
            Loader::Movie {
                self_handle: None,
                target_clip,
                event_handler,
                loader_status: LoaderStatus::Pending,
                movie: None,
                avm2_data,
            },
        )
    }

    /// Kick off a movie clip load from bytes in memory: registers a
    /// `Pending` movie record and returns its handle.
    pub fn load_movie_into_clip_bytes(
        &mut self,
        target_clip: ObjectRef,
        event_handler: Option<MovieLoaderEventHandler>,
        avm2_data: Option<Avm2LoaderData>,
    ) -> (handle: Handle)
        requires
            old(self).wf(),
        ensures
            final(self).wf(),
            !old(self).records().contains_key(handle),
            handle.generation == old(self).removals(),
            final(self).removals() == old(self).removals(),
            old(self).consistent() ==> final(self).consistent(),
            final(self).advances_from(*old(self)),
            final(self).records() == old(self).records().insert(
                handle,
                (Loader::Movie {
                    self_handle: Some(handle),
                    target_clip,
                    event_handler,
                    loader_status: LoaderStatus::Pending,
                    movie: None,
                    avm2_data,
                }),
            ),
    {
        self.add_loader(
            Loader::Movie {
                self_handle: None,
                target_clip,
                event_handler,
                loader_status: LoaderStatus::Pending,
                movie: None,
                avm2_data,
            },
        )
    }

    /// Kick off a form data load into an object of the first script dialect.
    pub fn load_form_into_object(&mut self, target_object: ObjectRef) -> (handle: Handle)
        requires
            old(self).wf(),
        ensures
            final(self).wf(),
            !old(self).records().contains_key(handle),
            handle.generation == old(self).removals(),
            final(self).removals() == old(self).removals(),
            old(self).consistent() ==> final(self).consistent(),
            final(self).advances_from(*old(self)),
            final(self).records() == old(self).records().insert(
                handle,
                (Loader::Form { self_handle: Some(handle), target_object }),
            ),
    {
        self.add_loader(Loader::Form { self_handle: None, target_object })
    }

    /// Kick off a form data load into a `LoadVars` object.
    pub fn load_form_into_load_vars(&mut self, target_object: ObjectRef) -> (handle: Handle)
        requires
            old(self).wf(),
        ensures
            final(self).wf(),
            !old(self).records().contains_key(handle),
            handle.generation == old(self).removals(),
            final(self).removals() == old(self).removals(),
            old(self).consistent() ==> final(self).consistent(),
            final(self).advances_from(*old(self)),
            final(self).records() == old(self).records().insert(
                handle,
                (Loader::LoadVars { self_handle: Some(handle), target_object }),
            ),
    {
        self.add_loader(Loader::LoadVars { self_handle: None, target_object })
    }

    /// Kick off a data load into a `URLLoader`, whose `data` property is
    /// set when the load completes.
    pub fn load_data_into_url_loader(
        &mut self,
        target_object: ObjectRef,
        data_format: DataFormat,
    ) -> (handle: Handle)
        requires
            old(self).wf(),
        ensures
            final(self).wf(),
            !old(self).records().contains_key(handle),
            handle.generation == old(self).removals(),
            final(self).removals() == old(self).removals(),
            old(self).consistent() ==> final(self).consistent(),
            final(self).advances_from(*old(self)),
            final(self).records() == old(self).records().insert(
                handle,
                (Loader::LoadURLLoader { self_handle: Some(handle), target_object, data_format }),
            ),
    {
        self.add_loader(Loader::LoadURLLoader { self_handle: None, target_object, data_format })
    }

    /// Kick off an audio load into a sound object of the first script
    /// dialect.
    pub fn load_sound_avm1(&mut self, target_object: ObjectRef) -> (handle: Handle)
        requires
            old(self).wf(),
        ensures
            final(self).wf(),
            !old(self).records().contains_key(handle),
            handle.generation == old(self).removals(),
            final(self).removals() == old(self).removals(),
            old(self).consistent() ==> final(self).consistent(),
            final(self).advances_from(*old(self)),
            final(self).records() == old(self).records().insert(
                handle,
                (Loader::SoundAvm1 { self_handle: Some(handle), target_object }),
            ),
    {
        self.add_loader(Loader::SoundAvm1 { self_handle: None, target_object })
    }

    /// Kick off an audio load into a sound object of the second script
    /// dialect.
    pub fn load_sound_avm2(&mut self, target_object: ObjectRef) -> (handle: Handle)
        requires
            old(self).wf(),
        ensures
            final(self).wf(),
            !old(self).records().contains_key(handle),
            handle.generation == old(self).removals(),
            final(self).removals() == old(self).removals(),
            old(self).consistent() ==> final(self).consistent(),
            final(self).advances_from(*old(self)),
            final(self).records() == old(self).records().insert(
                handle,
                (Loader::SoundAvm2 { self_handle: Some(handle), target_object }),
            ),
    {
        self.add_loader(Loader::SoundAvm2 { self_handle: None, target_object })
    }

    /// Kick off the buffering of a stream.
    pub fn load_netstream(&mut self, target_stream: ObjectRef) -> (handle: Handle)
        requires
            old(self).wf(),
        ensures
            final(self).wf(),
            !old(self).records().contains_key(handle),
            handle.generation == old(self).removals(),
            final(self).removals() == old(self).removals(),
            old(self).consistent() ==> final(self).consistent(),
            final(self).advances_from(*old(self)),
            final(self).records() == old(self).records().insert(
                handle,
                (Loader::NetStream { self_handle: Some(handle), target_stream }),
            ),
    {
        self.add_loader(Loader::NetStream { self_handle: None, target_stream })
    }
    /// A well-formed table holds finitely many records.
    pub proof fn lemma_finite(&self)
        requires
            self.wf(),
        ensures
            self.records().dom().finite(),
    {
    }

    /// The handles of all records, by rising slot.
    pub fn handles(&self) -> (r: Vec<Handle>)
        ensures
            is_slot_order(r@, self.records().dom()),
    {
        arena_handles(&self.arena)
    }

    /// The number of records in flight.
    pub fn len(&self) -> (n: usize)
        ensures
            self.records().dom().finite(),
            n == self.records().len(),
    {
        let handles = arena_handles(&self.arena);
        proof {
            lemma_slot_order_len(handles@, self.records().dom());
        }
        handles.len()
    }

    /// Whether `handle` finds a movie load that is `Parsing`.
    pub open spec fn parsing(&self, handle: Handle) -> bool {
        &&& self.records().contains_key(handle)
        &&& self.records()[handle] is Movie
        &&& self.records()[handle]->loader_status == LoaderStatus::Parsing
    }

    /// Whether `handle` finds a movie load that is being parsed: the loads
    /// that a preload tick advances. A load that has succeeded or failed, or
    /// has no bytes yet, is left alone.
    pub fn is_parsing(&self, handle: Handle) -> (r: bool)
        ensures
            r == self.parsing(handle),
    {
        match self.record(handle) {
            Some(Loader::Movie { loader_status, .. }) => loader_status == LoaderStatus::Parsing,
            _ => false,
        }
    }
}

impl Default for LoadManager {
    fn default() -> (manager: LoadManager)
        ensures
            manager.wf(),
            manager.consistent(),
            manager.records() == Map::<Handle, Loader>::empty(),
            manager.removals() == 0,
    {
        LoadManager::new()
    }
}

} // verus!
