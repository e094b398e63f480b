//! Region allocation for the kernel core.
//!
//! The allocator tracks cumulative allocation against a fixed capacity and
//! rejects invalid or over-budget requests. It is a logical capacity tracker:
//! regions are simulated address ranges, never real mappings, and there is no
//! deallocation.

use vstd::prelude::*;

verus! {

/// Errors an allocation request can fail with.
///
/// `SecurityViolation` is reserved for a future reservation/permission model
/// and is never raised by the current operations.
#[derive(Debug, PartialEq, Eq, Structural)]
pub enum MemoryError {
    OutOfMemory,
    InvalidAlignment,
    SecurityViolation,
}

/// A memory region issued to a process: a simulated address range described
/// by its base address and size.
#[derive(Debug, Clone, Copy)]
pub struct ProcessMemoryMap {
    pub base_address: usize,
    pub size_limit: usize,
}

/// Fixed simulated virtual base; every issued region starts at this base plus
/// the bytes allocated before it.
pub const VIRTUAL_BASE: usize = 0x4000_0000;

/// Does a request of `size` bytes succeed when `allocated` of `capacity`
/// bytes are already taken? Zero-size requests always fail, and the rest
/// must fit within the remaining capacity.
pub open spec fn alloc_grants(allocated: nat, capacity: nat, size: nat) -> bool {
    size > 0 && allocated + size <= capacity
}

/// The allocated-byte count after one request: it advances by exactly `size`
/// on success and stays unchanged on failure.
pub open spec fn alloc_step(allocated: nat, capacity: nat, size: nat) -> nat {
    if alloc_grants(allocated, capacity, size) {
        allocated + size
    } else {
        allocated
    }
}

pub struct MemoryManager {
    total_capacity: usize,
    allocated_bytes: usize,
}

impl MemoryManager {
    /// The fixed capacity this allocator was created with.
    pub closed spec fn capacity(&self) -> nat {
        self.total_capacity as nat
    }

    /// The bytes issued so far.
    pub closed spec fn allocated(&self) -> nat {
        self.allocated_bytes as nat
    }

    /// Well-formedness: usage never exceeds capacity, and the capacity is
    /// small enough that every base address fits in a `usize`.
    pub open spec fn wf(&self) -> bool {
        self.allocated() <= self.capacity() <= usize::MAX - VIRTUAL_BASE
    }

    /// Creates a manager with the given capacity and nothing allocated.
    pub fn new(capacity: usize) -> (manager: Self)
        requires
            capacity <= usize::MAX - VIRTUAL_BASE,
        ensures
            manager.wf(),
            manager.capacity() == capacity,
            manager.allocated() == 0,
    {
        Self { total_capacity: capacity, allocated_bytes: 0 }
    }

    /// Allocates a new region for a process.
    ///
    /// A zero-size request fails with `InvalidAlignment`; a request larger
    /// than the remaining capacity fails with `OutOfMemory`; both leave the
    /// usage untouched. Otherwise the region starting at `VIRTUAL_BASE` plus
    /// the current usage is issued and the usage advances by exactly `size`.
    pub fn allocate_region(&mut self, size: usize) -> (result: Result<
        ProcessMemoryMap,
        MemoryError,
    >)
        requires
            old(self).wf(),
        ensures
            final(self).wf(),
            final(self).capacity() == old(self).capacity(),
            final(self).allocated() == alloc_step(
                old(self).allocated(),
                old(self).capacity(),
                size as nat,
            ),
            size == 0 ==> result == Err::<ProcessMemoryMap, MemoryError>(
                MemoryError::InvalidAlignment,
            ),
            size > 0 && old(self).allocated() + size > old(self).capacity() ==> result
                == Err::<ProcessMemoryMap, MemoryError>(MemoryError::OutOfMemory),
            alloc_grants(old(self).allocated(), old(self).capacity(), size as nat) ==> result
                == Ok::<ProcessMemoryMap, MemoryError>(
                (ProcessMemoryMap {
                    base_address: (VIRTUAL_BASE + old(self).allocated()) as usize,
                    size_limit: size,
                }),
            ),
            !alloc_grants(old(self).allocated(), old(self).capacity(), size as nat) ==> *final(self)
                == *old(self),
    {
        if size == 0 {
            return Err(MemoryError::InvalidAlignment);
        }
        // Comparing against the remaining capacity cannot overflow, unlike
        // summing the usage with the request first.
        if size > self.total_capacity - self.allocated_bytes {
            return Err(MemoryError::OutOfMemory);
        }
        let new_region = ProcessMemoryMap {
            base_address: VIRTUAL_BASE + self.allocated_bytes,
            size_limit: size,
        };
        self.allocated_bytes = self.allocated_bytes + size;
        Ok(new_region)
    }

    /// Returns the current usage snapshot `(allocated, capacity)`.
    pub fn get_usage(&self) -> (usage: (usize, usize))
        ensures
            usage.0 == self.allocated(),
            usage.1 == self.capacity(),
    {
        (self.allocated_bytes, self.total_capacity)
    }
}

/// The usage after a whole sequence of requests, each handled by
/// `alloc_step`, starting from an empty allocator of the given capacity.
pub open spec fn usage_after(capacity: nat, sizes: Seq<nat>) -> nat
    decreases sizes.len(),
{
    if sizes.len() == 0 {
        0
    } else {
        alloc_step(usage_after(capacity, sizes.drop_last()), capacity, sizes.last())
    }
}

/// Whether the request at position `i` of the run succeeds.
pub open spec fn granted(capacity: nat, sizes: Seq<nat>, i: int) -> bool {
    alloc_grants(usage_after(capacity, sizes.take(i)), capacity, sizes[i])
}

/// The sum of the sizes of the requests that succeed during the run.
pub open spec fn granted_sum(capacity: nat, sizes: Seq<nat>) -> nat
    decreases sizes.len(),
{
    if sizes.len() == 0 {
        0
    } else {
        granted_sum(capacity, sizes.drop_last()) + if granted(
            capacity,
            sizes,
            sizes.len() - 1,
        ) {
            sizes.last()
        } else {
            0nat
        }
    }
}

/// The sum of a sequence of sizes.
pub open spec fn sum_of(sizes: Seq<nat>) -> nat
    decreases sizes.len(),
{
    if sizes.len() == 0 {
        0
    } else {
        sum_of(sizes.drop_last()) + sizes.last()
    }
}

/// The base address of the region that the request at position `i` would
/// receive: the virtual base plus the usage just before it.
pub open spec fn base_after(capacity: nat, sizes: Seq<nat>, i: int) -> nat {
    (VIRTUAL_BASE + usage_after(capacity, sizes.take(i))) as nat
}

proof fn lemma_sum_take_succ(sizes: Seq<nat>, i: int)
    requires
        0 <= i < sizes.len(),
    ensures
        sum_of(sizes.take(i + 1)) == sum_of(sizes.take(i)) + sizes[i],
{
    assert(sizes.take(i + 1).drop_last() =~= sizes.take(i));
    assert(sizes.take(i + 1).last() == sizes[i]);
}

proof fn lemma_sum_take_mono(sizes: Seq<nat>, i: int, j: int)
    requires
        0 <= i <= j <= sizes.len(),
    ensures
        sum_of(sizes.take(i)) <= sum_of(sizes.take(j)),
    decreases j - i,
{
    if i < j {
        lemma_sum_take_succ(sizes, i);
        lemma_sum_take_mono(sizes, i + 1, j);
    }
}

proof fn lemma_prefix_usage_is_sum(capacity: nat, sizes: Seq<nat>, i: int)
    requires
        0 <= i <= sizes.len(),
        forall|k: int| 0 <= k < sizes.len() ==> sizes[k] > 0,
        sum_of(sizes) <= capacity,
    ensures
        usage_after(capacity, sizes.take(i)) == sum_of(sizes.take(i)),
    decreases i,
{
    if i > 0 {
        lemma_prefix_usage_is_sum(capacity, sizes, i - 1);
        lemma_sum_take_succ(sizes, i - 1);
        lemma_sum_take_mono(sizes, i, sizes.len() as int);
        assert(sizes.take(sizes.len() as int) =~= sizes);
        assert(sizes.take(i).drop_last() =~= sizes.take(i - 1));
        assert(sizes.take(i).last() == sizes[i - 1]);
        assert(alloc_grants(usage_after(capacity, sizes.take(i - 1)), capacity, sizes[i - 1]));
    }
}

/// Law: for every capacity and every sequence of positive sizes whose sum
/// stays within the capacity, sequential allocation never fails, and the
/// issued regions have strictly increasing, non-overlapping base addresses.
pub proof fn lemma_sequential_allocations(capacity: nat, sizes: Seq<nat>)
    requires
        forall|k: int| 0 <= k < sizes.len() ==> sizes[k] > 0,
        sum_of(sizes) <= capacity,
    ensures
        forall|i: int| 0 <= i < sizes.len() ==> #[trigger] granted(capacity, sizes, i),
        forall|i: int, j: int|
            0 <= i < j < sizes.len() ==> #[trigger] base_after(capacity, sizes, i) + sizes[i]
                <= #[trigger] base_after(capacity, sizes, j),
        forall|i: int, j: int|
            0 <= i < j < sizes.len() ==> #[trigger] base_after(capacity, sizes, i)
                < #[trigger] base_after(capacity, sizes, j),
{
    assert(sizes.take(sizes.len() as int) =~= sizes);
    assert forall|i: int| 0 <= i < sizes.len() implies #[trigger] granted(
        capacity,
        sizes,
        i,
    ) by {
        lemma_prefix_usage_is_sum(capacity, sizes, i);
        lemma_sum_take_succ(sizes, i);
        lemma_sum_take_mono(sizes, i + 1, sizes.len() as int);
    }
    assert forall|i: int, j: int|
        0 <= i < j < sizes.len() implies #[trigger] base_after(capacity, sizes, i) + sizes[i]
        <= #[trigger] base_after(capacity, sizes, j) by {
        lemma_prefix_usage_is_sum(capacity, sizes, i);
        lemma_prefix_usage_is_sum(capacity, sizes, j);
        lemma_sum_take_succ(sizes, i);
        lemma_sum_take_mono(sizes, i + 1, j);
    }
    assert forall|i: int, j: int|
        0 <= i < j < sizes.len() implies #[trigger] base_after(capacity, sizes, i)
        < #[trigger] base_after(capacity, sizes, j) by {
        lemma_prefix_usage_is_sum(capacity, sizes, i);
        lemma_prefix_usage_is_sum(capacity, sizes, j);
        lemma_sum_take_succ(sizes, i);
        lemma_sum_take_mono(sizes, i + 1, j);
    }
}

/// Law: after any sequence of requests, the usage equals the sum of the
/// sizes of the requests that succeeded, and it never exceeds the capacity.
pub proof fn lemma_usage_is_granted_sum(capacity: nat, sizes: Seq<nat>)
    ensures
        usage_after(capacity, sizes) == granted_sum(capacity, sizes),
        usage_after(capacity, sizes) <= capacity,
    decreases sizes.len(),
{
    if sizes.len() > 0 {
        lemma_usage_is_granted_sum(capacity, sizes.drop_last());
        assert(sizes.take(sizes.len() - 1) =~= sizes.drop_last());
    }
}

} // verus!
