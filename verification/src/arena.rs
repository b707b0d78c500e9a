//! The generational arena that stores the records, seen through contracts.

use crate::record::{Handle, Loader};
use generational_arena::Arena;
use vstd::prelude::*;

verus! {

/// Makes `generational_arena::Arena` known to the verifier as a type whose
/// inside it cannot see. All that is said of an arena is said through the two
/// names below and the contracts of the calls into it.
#[verifier::external_type_specification]
#[verifier::external_body]
#[verifier::reject_recursive_types(T)]
pub struct ExArena<T>(Arena<T>);

/// The records that an arena holds, each under the handle that finds it.
pub uninterp spec fn arena_records(arena: Arena<Loader>) -> Map<Handle, Loader>;

/// The generation counter of an arena: the number that the arena stamps on
/// the handle of the next record it takes in.
pub uninterp spec fn arena_generation(arena: Arena<Loader>) -> u64;

/// Calls `Arena::new`, which makes an arena with no record in it and with its
/// generation counter at zero.
#[verifier::external_body]
pub(crate) fn arena_new() -> (r: Arena<Loader>)
    ensures
        arena_records(r) =~= Map::empty(),
        arena_generation(r) == 0,
{
    Arena::new()
}

/// Calls `Arena::insert`. The arena puts the record into a free slot, growing
/// if it has none, and stamps the handle with the current generation; the
/// counter itself moves only when a record leaves. The slot was free, so no
/// record answered to the new handle before.
#[verifier::external_body]
pub(crate) fn arena_insert(arena: &mut Arena<Loader>, loader: Loader) -> (r: Handle)
    ensures
        !arena_records(*old(arena)).contains_key(r),
        r.generation == arena_generation(*old(arena)),
        arena_records(*final(arena)) == arena_records(*old(arena)).insert(r, loader),
        arena_generation(*final(arena)) == arena_generation(*old(arena)),
{
    let (index, generation) = arena.insert(loader).into_raw_parts();
    Handle { index, generation }
}

/// Calls `Arena::get`: a shared borrow of the record under `handle`, or
/// `None` where the slot is free or filled in another generation. The arena
/// checks the slot against its bounds, here and in `get_mut` and `remove`,
/// so a handle made of any two numbers is safe to ask for.
#[verifier::external_body]
pub(crate) fn arena_get(arena: &Arena<Loader>, handle: Handle) -> (r: Option<&Loader>)
    ensures
        r == (if arena_records(*arena).contains_key(handle) {
            Some(&arena_records(*arena)[handle])
        } else {
            None
        }),
{
    arena.get(generational_arena::Index::from_raw_parts(handle.index, handle.generation))
}

/// Calls `Arena::get_mut`: a mutable borrow of the record under `handle`, or
/// `None` where no record answers to it. Whatever the borrower writes takes
/// the place of that record; nothing else in the arena changes.
#[verifier::external_body]
pub(crate) fn arena_get_mut(arena: &mut Arena<Loader>, handle: Handle) -> (r: Option<&mut Loader>)
    ensures
        arena_generation(*final(arena)) == arena_generation(*old(arena)),
        match r {
            Some(slot) => {
                &&& arena_records(*old(arena)).contains_key(handle)
                &&& *slot == arena_records(*old(arena))[handle]
                &&& arena_records(*final(arena)) == arena_records(*old(arena)).insert(
                    handle,
                    *final(slot),
                )
            },
            None => {
                &&& !arena_records(*old(arena)).contains_key(handle)
                &&& arena_records(*final(arena)) == arena_records(*old(arena))
            },
        },
{
    arena.get_mut(generational_arena::Index::from_raw_parts(handle.index, handle.generation))
}

/// Calls `Arena::remove`. A record that answers to `handle` leaves the arena
/// and is returned, and the generation counter goes up by one; otherwise
/// nothing changes. The counter is a `u64` that the arena increments without
/// a check, so the call is kept away from its last value.
#[verifier::external_body]
pub(crate) fn arena_remove(arena: &mut Arena<Loader>, handle: Handle) -> (r: Option<Loader>)
    requires
        arena_generation(*old(arena)) < u64::MAX,
    ensures
        r == (if arena_records(*old(arena)).contains_key(handle) {
            Some(arena_records(*old(arena))[handle])
        } else {
            None
        }),
        arena_records(*final(arena)) == arena_records(*old(arena)).remove(handle),
        arena_generation(*final(arena)) == (if arena_records(*old(arena)).contains_key(handle) {
            arena_generation(*old(arena)) + 1
        } else {
            arena_generation(*old(arena)) as int
        }),
{
    arena.remove(generational_arena::Index::from_raw_parts(handle.index, handle.generation))
}

/// Walks `Arena::iter` and collects the handles. The iterator visits the
/// slots from the first to the last and yields each filled one once, so the
/// handles come out in strictly rising slot order and are exactly those that
/// find a record. The order is what the arena does in the version this
/// crate builds with (0.2.9); its documentation leaves the order open.
#[verifier::external_body]
pub(crate) fn arena_handles(arena: &Arena<Loader>) -> (r: Vec<Handle>)
    ensures
        forall|h: Handle| r@.contains(h) <==> arena_records(*arena).contains_key(h),
        forall|i: int, j: int| 0 <= i < j < r@.len() ==> r@[i].index < r@[j].index,
{
    let mut handles: Vec<Handle> = Vec::new();
    for (i, _) in arena.iter() {
        let (index, generation) = i.into_raw_parts();
        handles.push(Handle { index, generation });
    }
    handles
}

} // verus!
