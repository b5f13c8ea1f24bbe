//! Allocation statistics for native-boundary diagnostics.
//!
//! The tracker is the bookkeeping state machine behind a tracking
//! allocator: counters wrap exactly like the atomic counters they mirror,
//! the peak is the running maximum of current usage, and outstanding
//! allocations saturate at zero. The unverified shell drives it from its
//! allocator hooks and reads the figures back for reporting.

use vstd::prelude::*;

verus! {

/// Counters describing allocation activity.
pub struct TrackedAllocator {
    allocation_count: usize,
    deallocation_count: usize,
    bytes_allocated: usize,
    bytes_deallocated: usize,
    peak_bytes: usize,
    current_bytes: usize,
}

impl TrackedAllocator {
    /// Total number of allocations recorded.
    pub closed spec fn allocation_count_spec(&self) -> usize {
        self.allocation_count
    }

    /// Total number of deallocations recorded.
    pub closed spec fn deallocation_count_spec(&self) -> usize {
        self.deallocation_count
    }

    /// Cumulative bytes allocated.
    pub closed spec fn bytes_allocated_spec(&self) -> usize {
        self.bytes_allocated
    }

    /// Cumulative bytes deallocated.
    pub closed spec fn bytes_deallocated_spec(&self) -> usize {
        self.bytes_deallocated
    }

    /// Peak of current usage.
    pub closed spec fn peak_bytes_spec(&self) -> usize {
        self.peak_bytes
    }

    /// Current usage.
    pub closed spec fn current_bytes_spec(&self) -> usize {
        self.current_bytes
    }

    /// A tracker with all counters at zero.
    pub fn new() -> (r: Self)
        ensures
            r.allocation_count_spec() == 0,
            r.deallocation_count_spec() == 0,
            r.bytes_allocated_spec() == 0,
            r.bytes_deallocated_spec() == 0,
            r.peak_bytes_spec() == 0,
            r.current_bytes_spec() == 0,
    {
        TrackedAllocator {
            allocation_count: 0,
            deallocation_count: 0,
            bytes_allocated: 0,
            bytes_deallocated: 0,
            peak_bytes: 0,
            current_bytes: 0,
        }
    }

    /// Total number of allocations.
    pub fn allocation_count(&self) -> (r: usize)
        ensures
            r == self.allocation_count_spec(),
    {
        self.allocation_count
    }

    /// Total number of deallocations.
    pub fn deallocation_count(&self) -> (r: usize)
        ensures
            r == self.deallocation_count_spec(),
    {
        self.deallocation_count
    }

    /// Total bytes allocated, cumulative.
    pub fn total_bytes_allocated(&self) -> (r: usize)
        ensures
            r == self.bytes_allocated_spec(),
    {
        self.bytes_allocated
    }

    /// Total bytes deallocated, cumulative.
    pub fn total_bytes_deallocated(&self) -> (r: usize)
        ensures
            r == self.bytes_deallocated_spec(),
    {
        self.bytes_deallocated
    }

    /// Current memory usage.
    pub fn current_bytes(&self) -> (r: usize)
        ensures
            r == self.current_bytes_spec(),
    {
        self.current_bytes
    }

    /// Peak memory usage.
    pub fn peak_bytes(&self) -> (r: usize)
        ensures
            r == self.peak_bytes_spec(),
    {
        self.peak_bytes
    }

    /// Number of allocations not yet freed; never negative, whatever the
    /// counters hold.
    pub fn outstanding_allocations(&self) -> (r: usize)
        ensures
            r == self.allocation_count_spec().saturating_sub(self.deallocation_count_spec()),
    {
        self.allocation_count.saturating_sub(self.deallocation_count)
    }

    /// Record one allocation of `size` bytes. Counters wrap like the
    /// machine-word atomics they stand for; the peak becomes the maximum
    /// of itself and the new current usage.
    pub fn track_alloc(&mut self, size: usize)
        ensures
            final(self).allocation_count_spec() == old(self).allocation_count_spec().wrapping_add(
                1,
            ),
            final(self).bytes_allocated_spec() == old(self).bytes_allocated_spec().wrapping_add(
                size,
            ),
            final(self).current_bytes_spec() == old(self).current_bytes_spec().wrapping_add(size),
            final(self).peak_bytes_spec() == if final(self).current_bytes_spec() > old(
                self,
            ).peak_bytes_spec() {
                final(self).current_bytes_spec()
            } else {
                old(self).peak_bytes_spec()
            },
            final(self).deallocation_count_spec() == old(self).deallocation_count_spec(),
            final(self).bytes_deallocated_spec() == old(self).bytes_deallocated_spec(),
    {
        self.allocation_count = self.allocation_count.wrapping_add(1);
        self.bytes_allocated = self.bytes_allocated.wrapping_add(size);
        self.current_bytes = self.current_bytes.wrapping_add(size);
        if self.current_bytes > self.peak_bytes {
            self.peak_bytes = self.current_bytes;
        }
    }

    /// Record one deallocation of `size` bytes.
    pub fn track_dealloc(&mut self, size: usize)
        ensures
            final(self).deallocation_count_spec() == old(
                self,
            ).deallocation_count_spec().wrapping_add(1),
            final(self).bytes_deallocated_spec() == old(
                self,
            ).bytes_deallocated_spec().wrapping_add(size),
            final(self).current_bytes_spec() == old(self).current_bytes_spec().wrapping_sub(size),
            final(self).allocation_count_spec() == old(self).allocation_count_spec(),
            final(self).bytes_allocated_spec() == old(self).bytes_allocated_spec(),
            final(self).peak_bytes_spec() == old(self).peak_bytes_spec(),
    {
        self.deallocation_count = self.deallocation_count.wrapping_add(1);
        self.bytes_deallocated = self.bytes_deallocated.wrapping_add(size);
        self.current_bytes = self.current_bytes.wrapping_sub(size);
    }
}

/// Whether one traced operation is notable enough to stand out in
/// diagnostics: it took over ten milliseconds, made over a hundred
/// allocations, or moved current usage by more than ten KiB either way.
pub fn notable_operation(elapsed_ms: u128, allocs_delta: usize, bytes_delta: i64) -> (r: bool)
    ensures
        r == (elapsed_ms > 10 || allocs_delta > 100 || bytes_delta > 10240 || bytes_delta
            < -10240),
{
    elapsed_ms > 10 || allocs_delta > 100 || bytes_delta > 10240 || bytes_delta < -10240
}

} // verus!
