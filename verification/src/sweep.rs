//! The per-frame sweep, which retires movie loads that have come to their
//! end, and the summary of a frame's preload ticks.

use crate::action::{Action, Error, LegacyMessage};
use crate::manager::{is_slot_order, lemma_slot_order_len, LoadManager};
use crate::record::{Handle, Loader, LoaderStatus, MovieLoaderEventHandler};
use vstd::prelude::*;

verus! {

impl Loader {
    /// Whether the record is a movie load that has succeeded or failed, so
    /// that the sweep may retire it.
    pub open spec fn is_done(self) -> bool {
        self is Movie && self->loader_status.is_terminal()
    }

    /// What the sweep queues for the record: a movie load that succeeded
    /// with a legacy broadcaster queues its `onLoadInit`; nothing else
    /// queues anything.
    pub open spec fn init_steps(self) -> Seq<Action> {
        match self {
            Loader::Movie {
                target_clip,
                event_handler: Some(MovieLoaderEventHandler::Avm1Broadcast(broadcaster)),
                loader_status: LoaderStatus::Succeeded,
                ..
            } => seq![
                Action::QueueBroadcast {
                    broadcaster,
                    clip: target_clip,
                    message: LegacyMessage::OnLoadInit,
                },
            ],
            _ => seq![],
        }
    }

    /// Whether the sweep queues `onLoadInit` for the record: it is a movie
    /// load that succeeded and that tells a legacy broadcaster.
    pub open spec fn queues_init(self) -> bool {
        &&& self is Movie
        &&& self->loader_status == LoaderStatus::Succeeded
        &&& self->event_handler is Some
        &&& self->event_handler->Some_0 is Avm1Broadcast
    }

    /// The `onLoadInit` that the sweep queues for a record that
    /// `queues_init`: a broadcast to its broadcaster about its clip, put on
    /// the queue and not sent.
    pub open spec fn init_action(self) -> Action {
        Action::QueueBroadcast {
            broadcaster: self->event_handler->Some_0->Avm1Broadcast_0,
            clip: self->target_clip,
            message: LegacyMessage::OnLoadInit,
        }
    }

    /// Event handler morally equivalent to `onLoad` on a movie clip.
    ///
    /// Returns `true` if the loader has completed and should be removed.
    /// A load that succeeded queues `onLoadInit` for its legacy broadcaster;
    /// the second script dialect fires its own event elsewhere.
    pub fn movie_clip_loaded(&self, queue: &mut Vec<Action>) -> (done: bool)
        ensures
            done == self.is_done(),
            final(queue)@ == old(queue)@ + self.init_steps(),
    {
        let (clip, sink, status) = match self {
            Loader::Movie { target_clip, event_handler, loader_status, .. } => (
                *target_clip,
                *event_handler,
                *loader_status,
            ),
            _ => {
                assert(queue@ =~= old(queue)@ + self.init_steps());
                return false;
            },
        };
        let done = match status {
            LoaderStatus::Pending => false,
            LoaderStatus::Parsing => false,
            LoaderStatus::Failed => true,
            LoaderStatus::Succeeded => {
                match sink {
                    Some(MovieLoaderEventHandler::Avm1Broadcast(broadcaster)) => {
                        queue.push(
                            Action::QueueBroadcast {
                                broadcaster,
                                clip,
                                message: LegacyMessage::OnLoadInit,
                            },
                        );
                    },
                    _ => {},
                }
                true
            },
        };
        assert(queue@ =~= old(queue)@ + self.init_steps());
        done
    }
}

/// How many of the records under `order` queue an `onLoadInit`.
pub open spec fn init_count(order: Seq<Handle>, records: Map<Handle, Loader>) -> nat
    decreases order.len(),
{
    if order.len() == 0 {
        0
    } else {
        init_count(order.drop_first(), records) + (if records[order.first()].queues_init() {
            1nat
        } else {
            0nat
        })
    }
}

/// Whether `action` is the `onLoadInit` of the record under the handle at
/// `k` in `order`, and that record queues one.
pub open spec fn is_init_of(
    action: Action,
    order: Seq<Handle>,
    records: Map<Handle, Loader>,
    k: int,
) -> bool {
    &&& 0 <= k < order.len()
    &&& records[order[k]].queues_init()
    &&& action == records[order[k]].init_action()
}

/// Whether `action` is the `onLoadInit` of some record under `order` that
/// queues one.
pub open spec fn is_init_among(
    action: Action,
    order: Seq<Handle>,
    records: Map<Handle, Loader>,
) -> bool {
    exists|k: int| #[trigger] is_init_of(action, order, records, k)
}

/// A sweep queues one `onLoadInit` for each movie load that succeeded with a
/// legacy broadcaster, and nothing else: nothing for a load that failed, is
/// pending or is being parsed, nothing for an info object or a load without
/// a sink, nothing for a record of another kind.
pub proof fn law_sweep_queues_init_for_legacy_successes(
    order: Seq<Handle>,
    records: Map<Handle, Loader>,
)
    ensures
        sweep_queue(order, records).len() == init_count(order, records),
        forall|i: int|
            0 <= i < sweep_queue(order, records).len() ==> #[trigger] is_init_among(
                sweep_queue(order, records)[i],
                order,
                records,
            ),
        forall|k: int|
            0 <= k < order.len() && records[#[trigger] order[k]].queues_init() ==> sweep_queue(
                order,
                records,
            ).contains(records[order[k]].init_action()),
    decreases order.len(),
{
    let queue = sweep_queue(order, records);
    if order.len() > 0 {
        let rest = order.drop_first();
        let first = records[order.first()];
        let rest_queue = sweep_queue(rest, records);
        law_sweep_queues_init_for_legacy_successes(rest, records);
        assert(first.init_steps() =~= (if first.queues_init() {
            seq![first.init_action()]
        } else {
            seq![]
        }));
        assert(queue == rest_queue + first.init_steps());
        assert forall|i: int| 0 <= i < queue.len() implies #[trigger] is_init_among(
            queue[i],
            order,
            records,
        ) by {
            if i < rest_queue.len() {
                assert(queue[i] == rest_queue[i]);
                assert(is_init_among(rest_queue[i], rest, records));
                let k = choose|k: int| #[trigger] is_init_of(rest_queue[i], rest, records, k);
                assert(rest[k] == order[k + 1]);
                assert(is_init_of(queue[i], order, records, k + 1));
            } else {
                assert(queue[i] == first.init_action());
                assert(is_init_of(queue[i], order, records, 0));
            }
        }
        assert forall|k: int|
            0 <= k < order.len() && records[#[trigger] order[k]].queues_init() implies queue.contains(
            records[order[k]].init_action(),
        ) by {
            if k == 0 {
                assert(queue[rest_queue.len() as int] == first.init_action());
            } else {
                assert(rest[k - 1] == order[k]);
                assert(rest_queue.contains(records[rest[k - 1]].init_action()));
                let i = choose|i: int|
                    0 <= i < rest_queue.len() && rest_queue[i] == records[order[k]].init_action();
                assert(queue[i] == rest_queue[i]);
            }
        }
    }
}

/// One frame's round of preload ticks: the loads to tick, and how the ticks
/// made so far have ended.
pub struct PreloadFrame {
    queue: Vec<Handle>,
    outcomes: Vec<Result<bool, Error>>,
}

impl PreloadFrame {
    /// The loads that the frame ticks, in their order.
    pub closed spec fn queue(&self) -> Seq<Handle> {
        self.queue@
    }

    /// How the ticks made so far have ended, in their order: whether the
    /// load finished, or the error that the tick ran into.
    pub closed spec fn outcomes(&self) -> Seq<Result<bool, Error>> {
        self.outcomes@
    }

    /// The load to tick next, or `None` once every load of the frame has
    /// been ticked.
    pub fn next(&self) -> (handle: Option<Handle>)
        ensures
            handle == (if self.outcomes().len() < self.queue().len() {
                Some(self.queue()[self.outcomes().len() as int])
            } else {
                None
            }),
    {
        if self.outcomes.len() < self.queue.len() {
            Some(self.queue[self.outcomes.len()])
        } else {
            None
        }
    }

    /// Takes the outcome of the tick of the load that `next` named. An
    /// error is kept like any other outcome, and the round goes on.
    pub fn report(&mut self, outcome: Result<bool, Error>)
        requires
            old(self).outcomes().len() < old(self).queue().len(),
        ensures
            final(self).queue() == old(self).queue(),
            final(self).outcomes() == old(self).outcomes().push(outcome),
    {
        self.outcomes.push(outcome);
    }

    /// Whether all loaders finished preloading in this frame: every load of
    /// the frame has been ticked, and every tick ended with the load
    /// finished.
    pub fn finish(&self) -> (all_finished: bool)
        ensures
            all_finished == (self.outcomes().len() == self.queue().len() && forall|i: int|
                0 <= i < self.outcomes().len() ==> self.outcomes()[i] == Ok::<bool, Error>(true)),
    {
        self.outcomes.len() == self.queue.len() && LoadManager::preload_tick(&self.outcomes)
    }
}

/// What a sweep queues when it visits the records under `order` from the
/// last to the first.
pub open spec fn sweep_queue(order: Seq<Handle>, records: Map<Handle, Loader>) -> Seq<Action>
    decreases order.len(),
{
    if order.len() == 0 {
        seq![]
    } else {
        sweep_queue(order.drop_first(), records) + records[order.first()].init_steps()
    }
}

impl LoadManager {
    /// Indicates that a movie clip has initialized (ran its first frame).
    ///
    /// The records are visited from the last slot to the first. Every movie
    /// load that has succeeded or failed is retired, and one that succeeded
    /// queues `onLoadInit` for its legacy broadcaster; every other record
    /// stays as it is.
    pub fn movie_clip_on_load(&mut self, queue: &mut Vec<Action>)
        requires
            old(self).wf(),
            old(self).removals() + old(self).records().len() <= u64::MAX,
        ensures
            final(self).wf(),
            old(self).consistent() ==> final(self).consistent(),
            final(self).advances_from(*old(self)),
            forall|h: Handle|
                final(self).records().contains_key(h) <==> old(self).records().contains_key(h)
                    && !old(self).records()[h].is_done(),
            forall|h: Handle|
                final(self).records().contains_key(h) ==> final(self).records()[h] == old(self).records()[h],
            final(self).removals() == old(self).removals() + old(self).records().len() - final(self).records().len(),
            exists|order: Seq<Handle>|
                is_slot_order(order, old(self).records().dom()) && final(queue)@ == old(queue)@
                    + sweep_queue(order, old(self).records()),
    {
        let handles = self.handles();
        let n = handles.len();
        let ghost order = handles@;
        let ghost records = self.records();
        proof {
            lemma_slot_order_len(order, records.dom());
        }
        let mut invalidated: Vec<Handle> = Vec::new();
        let mut i: usize = n;
        assert(order.subrange(n as int, n as int) =~= Seq::<Handle>::empty());
        while i > 0
            invariant
                0 <= i <= n,
                n == order.len(),
                handles@ == order,
                is_slot_order(order, records.dom()),
                order.no_duplicates(),
                *self == *old(self),
                records == old(self).records(),
                queue@ == old(queue)@ + sweep_queue(order.subrange(i as int, n as int), records),
                invalidated@.no_duplicates(),
                invalidated@.len() <= n - i,
                forall|h: Handle|
                    invalidated@.contains(h) <==> order.subrange(i as int, n as int).contains(h)
                        && records[h].is_done(),
            decreases i,
        {
            i -= 1;
            let handle = handles[i];
            let ghost visited = order.subrange(i as int + 1, n as int);
            let ghost now = order.subrange(i as int, n as int);
            proof {
                assert(order.contains(handle));
                assert(now.drop_first() =~= visited);
                assert(now.first() == handle);
                assert forall|h: Handle| now.contains(h) <==> visited.contains(h) || h
                    == handle by {
                    if now.contains(h) {
                        let k = choose|k: int| 0 <= k < now.len() && now[k] == h;
                        if k > 0 {
                            assert(visited[k - 1] == h);
                        }
                    }
                    if visited.contains(h) {
                        let k = choose|k: int| 0 <= k < visited.len() && visited[k] == h;
                        assert(now[k + 1] == h);
                    }
                    if h == handle {
                        assert(now[0] == h);
                    }
                }
                assert(!visited.contains(handle)) by {
                    if visited.contains(handle) {
                        let k = choose|k: int| 0 <= k < visited.len() && visited[k] == handle;
                        assert(order[i as int + 1 + k] == order[i as int]);
                    }
                }
            }
            match self.record(handle) {
                Some(loader) => {
                    if loader.movie_clip_loaded(queue) {
                        let ghost before = invalidated@;
                        invalidated.push(handle);
                        proof {
                            assert(!before.contains(handle));
                            assert forall|a: int, b: int|
                                0 <= a < invalidated@.len() && 0 <= b < invalidated@.len() && a
                                    != b implies invalidated@[a] != invalidated@[b] by {
                                if a == before.len() {
                                    assert(before.contains(invalidated@[b]));
                                } else if b == before.len() {
                                    assert(before.contains(invalidated@[a]));
                                } else {
                                    assert(before[a] != before[b]);
                                }
                            }
                            assert forall|h: Handle|
                                invalidated@.contains(h) <==> now.contains(h)
                                    && records[h].is_done() by {
                                if invalidated@.contains(h) {
                                    let k = choose|k: int|
                                        0 <= k < invalidated@.len() && invalidated@[k] == h;
                                    if k < before.len() {
                                        assert(before.contains(before[k]));
                                    }
                                }
                                if now.contains(h) && records[h].is_done() {
                                    if h == handle {
                                        assert(invalidated@[before.len() as int] == h);
                                    } else {
                                        assert(before.contains(h));
                                        let k = choose|k: int|
                                            0 <= k < before.len() && before[k] == h;
                                        assert(invalidated@[k] == h);
                                    }
                                }
                            }
                        }
                    }
                },
                None => {},
            }
            assert(queue@ =~= old(queue)@ + sweep_queue(now, records));
        }
        assert(order.subrange(0, n as int) =~= order);
        let m = invalidated.len();
        let mut j: usize = 0;
        assert(invalidated@.subrange(0, 0) =~= Seq::<Handle>::empty());
        while j < m
            invariant
                0 <= j <= m,
                m == invalidated@.len(),
                m <= n,
                n == records.len(),
                records == old(self).records(),
                records.dom().finite(),
                old(self).removals() + n <= u64::MAX,
                invalidated@.no_duplicates(),
                forall|h: Handle|
                    invalidated@.contains(h) <==> records.contains_key(h) && records[h].is_done(),
                self.wf(),
                self.removals() == old(self).removals() + j,
                self.records().dom().finite(),
                self.records().len() == records.len() - j,
                forall|h: Handle|
                    self.records().contains_key(h) <==> records.contains_key(h)
                        && !invalidated@.subrange(0, j as int).contains(h),
                forall|h: Handle|
                    self.records().contains_key(h) ==> self.records()[h] == records[h],
            decreases m - j,
        {
            let handle = invalidated[j];
            let ghost gone = invalidated@.subrange(0, j as int);
            let ghost next = invalidated@.subrange(0, j as int + 1);
            let ghost before = self.records();
            proof {
                assert(invalidated@.contains(handle));
                assert(!gone.contains(handle)) by {
                    if gone.contains(handle) {
                        let k = choose|k: int| 0 <= k < gone.len() && gone[k] == handle;
                        assert(invalidated@[k] == invalidated@[j as int]);
                    }
                }
                assert(before.contains_key(handle));
                assert forall|h: Handle| next.contains(h) <==> gone.contains(h) || h
                    == handle by {
                    if next.contains(h) {
                        let k = choose|k: int| 0 <= k < next.len() && next[k] == h;
                        if k < j {
                            assert(gone[k] == h);
                        }
                    }
                    if gone.contains(h) {
                        let k = choose|k: int| 0 <= k < gone.len() && gone[k] == h;
                        assert(next[k] == h);
                    }
                    if h == handle {
                        assert(next[j as int] == h);
                    }
                }
            }
            self.remove_loader(handle);
            proof {
                assert(self.records().dom() =~= before.dom().remove(handle));
                assert(next == invalidated@.subrange(0, j + 1));
                assert forall|h: Handle|
                    self.records().contains_key(h) <==> records.contains_key(h) && !next.contains(
                        h,
                    ) by {
                    assert(self.records().contains_key(h) <==> before.contains_key(h) && h
                        != handle);
                    assert(next.contains(h) <==> gone.contains(h) || h == handle);
                }
            }
            j += 1;
        }
        proof {
            assert(invalidated@.subrange(0, m as int) =~= invalidated@);
            assert(is_slot_order(order, old(self).records().dom()) && queue@ == old(queue)@
                + sweep_queue(order, old(self).records()));
            assert forall|h: Handle|
                self.records().contains_key(h) <==> records.contains_key(h)
                    && !records[h].is_done() by {
                assert(invalidated@.contains(h) <==> records.contains_key(h)
                    && records[h].is_done());
            }
            if old(self).consistent() {
                assert forall|h: Handle| #[trigger] self.records().contains_key(h) implies
                    self.records()[h].handle() == Some(h) && self.records()[h].coherent() by {
                    assert(records.contains_key(h));
                    assert(self.records()[h] == records[h]);
                }
            }
        }
    }

    /// The handles of the movie loads that are `Parsing`.
    pub open spec fn parsing_set(&self) -> Set<Handle> {
        Set::new(|h: Handle| self.parsing(h))
    }

    /// Opens a frame's round of preload ticks: the movie loads that are
    /// `Parsing` now, by rising slot, are the loads that the frame ticks,
    /// each once. A load of another kind or in another status is not among
    /// them.
    pub fn begin_preload(&self) -> (frame: PreloadFrame)
        ensures
            is_slot_order(frame.queue(), self.parsing_set()),
            frame.outcomes() == Seq::<Result<bool, Error>>::empty(),
    {
        let handles = self.handles();
        let n = handles.len();
        let mut queue: Vec<Handle> = Vec::new();
        let mut i: usize = 0;
        assert(handles@.subrange(0, 0) =~= Seq::<Handle>::empty());
        while i < n
            invariant
                0 <= i <= n,
                n == handles@.len(),
                is_slot_order(handles@, self.records().dom()),
                forall|h: Handle| #[trigger]
                    queue@.contains(h) <==> handles@.subrange(0, i as int).contains(h)
                        && self.parsing(h),
                forall|a: int, b: int|
                    0 <= a < b < queue@.len() ==> queue@[a].index < queue@[b].index,
                forall|a: int, k: int|
                    0 <= a < queue@.len() && i <= k < n ==> queue@[a].index < handles@[k].index,
            decreases n - i,
        {
            let handle = handles[i];
            let ghost before = queue@;
            let ghost seen = handles@.subrange(0, i as int);
            let ghost next = handles@.subrange(0, i as int + 1);
            proof {
                assert forall|h: Handle| next.contains(h) <==> seen.contains(h) || h
                    == handle by {
                    if next.contains(h) {
                        let k = choose|k: int| 0 <= k < next.len() && next[k] == h;
                        if k < i {
                            assert(seen[k] == h);
                        }
                    }
                    if seen.contains(h) {
                        let k = choose|k: int| 0 <= k < seen.len() && seen[k] == h;
                        assert(next[k] == h);
                    }
                    if h == handle {
                        assert(next[i as int] == h);
                    }
                }
            }
            let parsing = self.is_parsing(handle);
            if parsing {
                queue.push(handle);
            }
            proof {
                assert forall|h: Handle|
                    queue@.contains(h) <==> next.contains(h) && self.parsing(h) by {
                    assert(before.contains(h) <==> seen.contains(h) && self.parsing(h));
                    assert(next.contains(h) <==> seen.contains(h) || h == handle);
                    if parsing {
                        assert(queue@ == before.push(handle));
                        if queue@.contains(h) {
                            let k = choose|k: int| 0 <= k < queue@.len() && queue@[k] == h;
                            if k < before.len() {
                                assert(before[k] == h);
                                assert(before.contains(h));
                            } else {
                                assert(h == handle);
                            }
                        }
                        if before.contains(h) {
                            let k = choose|k: int| 0 <= k < before.len() && before[k] == h;
                            assert(queue@[k] == h);
                        }
                        if h == handle {
                            assert(queue@[before.len() as int] == h);
                        }
                    } else {
                        assert(queue@ == before);
                    }
                }
            }
            i += 1;
        }
        proof {
            assert(handles@.subrange(0, n as int) =~= handles@);
            assert forall|h: Handle| queue@.contains(h) <==> self.parsing_set().contains(h) by {
                if self.parsing(h) {
                    assert(self.records().dom().contains(h));
                }
            }
        }
        PreloadFrame { queue, outcomes: Vec::new() }
    }

    /// Whether all loaders have finished preloading after a frame's ticks:
    /// `outcomes` holds, for each movie load that was ticked, whether it
    /// finished or the error it ran into. The frame has finished only where
    /// every tick did: a load whose tick ended in an error was being parsed
    /// and has not finished.
    pub fn preload_tick(outcomes: &Vec<Result<bool, Error>>) -> (all_finished: bool)
        ensures
            all_finished == forall|i: int|
                0 <= i < outcomes@.len() ==> outcomes@[i] == Ok::<bool, Error>(true),
    {
        let mut did_finish = true;
        let mut i: usize = 0;
        while i < outcomes.len()
            invariant
                0 <= i <= outcomes@.len(),
                did_finish == forall|k: int|
                    0 <= k < i ==> outcomes@[k] == Ok::<bool, Error>(true),
            decreases outcomes@.len() - i,
        {
            match outcomes[i] {
                Ok(finished) => {
                    did_finish = did_finish && finished;
                },
                Err(_) => {
                    did_finish = false;
                },
            }
            i += 1;
        }
        did_finish
    }
}

} // verus!
