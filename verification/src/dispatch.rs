//! Sizing of a one-dimensional dispatch: how many thread groups of a fixed
//! size cover a vector, and how many invocations of the last group fall
//! beyond its end.

use vstd::prelude::*;

verus! {

/// Invocations scheduled together as one thread group.
pub const THREADS_PER_GROUP: u64 = 64;

/// Extent of a grid in three dimensions, as the device counts it.
#[derive(Clone, Copy, Debug, PartialEq, Eq, Structural)]
pub struct Size {
    pub width: u64,
    pub height: u64,
    pub depth: u64,
}

/// The dispatch of one pass: the grid of thread groups and the shape of each
/// group.
#[derive(Clone, Copy, Debug, PartialEq, Eq, Structural)]
pub struct Dispatch {
    pub threadgroups: Size,
    pub threads_per_threadgroup: Size,
}

/// The number of thread groups for `len` elements: `len / 64`, rounded up.
pub open spec fn groups_for(len: nat) -> nat {
    (len + THREADS_PER_GROUP - 1) as nat / (THREADS_PER_GROUP as nat)
}

/// The invocations of a dispatch for `len` elements that have no element to
/// work on.
pub open spec fn padding_for(len: nat) -> nat {
    (groups_for(len) * THREADS_PER_GROUP - len) as nat
}

/// The dispatch for `len` elements: `groups_for(len)` groups in a row, each a
/// row of `THREADS_PER_GROUP` invocations.
pub open spec fn dispatch_for(len: nat) -> Dispatch {
    Dispatch {
        threadgroups: Size { width: groups_for(len) as u64, height: 1, depth: 1 },
        threads_per_threadgroup: Size { width: THREADS_PER_GROUP, height: 1, depth: 1 },
    }
}

/// Whether invocation `index` of a dispatch for `len` elements has an element
/// of its own. The kernel tests this before it touches memory.
pub open spec fn in_bounds(index: nat, len: nat) -> bool {
    index < len
}

/// A grid that extends in one dimension only.
pub fn size_1d(width: u64) -> (size: Size)
    ensures
        size == (Size { width, height: 1, depth: 1 }),
{
    Size { width, height: 1, depth: 1 }
}

/// Counts the thread groups that cover `len` elements: as many as it takes,
/// and not one more.
pub fn group_count(len: usize) -> (groups: u64)
    ensures
        groups == groups_for(len as nat),
        groups * THREADS_PER_GROUP >= len,
        (groups - 1) * THREADS_PER_GROUP < len,
{
    let whole: u64 = (len as u64) / THREADS_PER_GROUP;
    if (len as u64) % THREADS_PER_GROUP == 0 {
        whole
    } else {
        whole + 1
    }
}

/// Counts the invocations of the last group that lie beyond element
/// `len - 1`.
pub fn padding(len: usize) -> (extra: u64)
    ensures
        extra == padding_for(len as nat),
        extra < THREADS_PER_GROUP,
        extra == 0 <==> len % 64 == 0,
{
    let used: u64 = (len as u64) % THREADS_PER_GROUP;
    if used == 0 {
        0
    } else {
        THREADS_PER_GROUP - used
    }
}

impl Dispatch {
    /// Sizes the dispatch for a vector of `len` elements: enough groups of
    /// `THREADS_PER_GROUP` invocations to give every element one invocation.
    pub fn covering(len: usize) -> (dispatch: Dispatch)
        ensures
            dispatch == dispatch_for(len as nat),
            dispatch.threadgroups.width == groups_for(len as nat),
            dispatch.threadgroups.width * dispatch.threads_per_threadgroup.width >= len,
    {
        Dispatch {
            threadgroups: size_1d(group_count(len)),
            threads_per_threadgroup: size_1d(THREADS_PER_GROUP),
        }
    }
}

/// The groups cover the vector, and one group fewer would not.
pub proof fn lemma_groups_cover_exactly(len: nat)
    ensures
        groups_for(len) * THREADS_PER_GROUP >= len,
        (groups_for(len) - 1) * THREADS_PER_GROUP < len,
{
}

/// No other count both covers the vector and would fail to with one group
/// fewer.
pub proof fn lemma_group_count_unique(len: nat, groups: int)
    requires
        groups * THREADS_PER_GROUP >= len,
        (groups - 1) * THREADS_PER_GROUP < len,
    ensures
        groups == groups_for(len),
{
}

/// Fewer than a full group is padding, and none at all exactly when the
/// length is a multiple of the group size. A vector that ends `r` elements
/// into its last group leaves the other `64 - r` invocations of it idle.
pub proof fn lemma_padding(len: nat)
    ensures
        padding_for(len) < THREADS_PER_GROUP,
        len + padding_for(len) == groups_for(len) * THREADS_PER_GROUP,
        padding_for(len) == 0 <==> len % 64 == 0,
        len % 64 != 0 ==> padding_for(len) == THREADS_PER_GROUP - len % 64,
{
}

/// One element more than a multiple of the group size opens one more group,
/// of which only the first invocation has an element.
pub proof fn lemma_one_past_a_multiple(len: nat)
    requires
        len % 64 == 1,
    ensures
        groups_for(len) == len / 64 + 1,
        groups_for(len) == groups_for((len - 1) as nat) + 1,
        padding_for(len) == THREADS_PER_GROUP - 1,
{
}

/// A single element takes a single group.
pub proof fn lemma_one_element_one_group()
    ensures
        groups_for(1) == 1,
{
}

/// Every invocation without an element belongs to the last group, and every
/// group before the last is full of invocations that have one.
pub proof fn lemma_padding_in_last_group(len: nat, index: nat)
    requires
        index < groups_for(len) * THREADS_PER_GROUP,
    ensures
        !in_bounds(index, len) ==> index / 64 == groups_for(len) - 1,
        index / 64 < groups_for(len) - 1 ==> in_bounds(index, len),
{
}

} // verus!
