//! Buffer reuse, bit strings, a fast encoder and a data validator.

use vstd::prelude::*;

pub mod bitstring;
pub mod perf;
pub mod validation;

verus! {

/// `Vec::capacity`: how many octets the buffer can hold without growing,
/// never fewer than it holds. What the allocator gave beyond that is left
/// unsaid.
#[verifier::external_body]
fn capacity_of(v: &Vec<u8>) -> (r: usize)
    ensures
        r >= v@.len(),
{
    v.capacity()
}

/// Buffer usage statistics.
#[derive(Debug)]
pub struct BufferStats {
    pub total_allocations: u64,
    pub buffer_reuses: u64,
    pub max_buffer_size_used: usize,
    pub total_bytes_encoded: u64,
    pub total_bytes_decoded: u64,
}

impl Default for BufferStats {
    fn default() -> (r: Self)
        ensures
            r.total_allocations == 0,
            r.buffer_reuses == 0,
            r.max_buffer_size_used == 0,
            r.total_bytes_encoded == 0,
            r.total_bytes_decoded == 0,
    {
        BufferStats {
            total_allocations: 0,
            buffer_reuses: 0,
            max_buffer_size_used: 0,
            total_bytes_encoded: 0,
            total_bytes_decoded: 0,
        }
    }
}

/// A pool of encoding buffers, kept for reuse.
#[derive(Debug)]
pub struct BufferManager {
    /// Reusable buffers for encoding operations
    encode_buffers: Vec<Vec<u8>>,
    /// Maximum buffer size to cache
    max_buffer_size: usize,
    /// Statistics for buffer usage
    pub stats: BufferStats,
}

/// The most buffers the pool keeps.
pub const MAX_POOLED_BUFFERS: usize = 16;

impl BufferManager {
    /// How many buffers wait in the pool.
    pub closed spec fn pooled(&self) -> nat {
        self.encode_buffers@.len()
    }

    /// The statistics.
    pub closed spec fn spec_stats(&self) -> BufferStats {
        self.stats
    }

    /// The largest buffer capacity the pool keeps.
    pub closed spec fn spec_max_buffer_size(&self) -> usize {
        self.max_buffer_size
    }

    /// Creates an empty pool keeping buffers of up to `max_buffer_size`
    /// octets of capacity.
    pub fn new(max_buffer_size: usize) -> (r: Self)
        ensures
            r.pooled() == 0,
            r.spec_max_buffer_size() == max_buffer_size,
            r.spec_stats().total_allocations == 0,
            r.spec_stats().buffer_reuses == 0,
            r.spec_stats().max_buffer_size_used == 0,
            r.spec_stats().total_bytes_encoded == 0,
            r.spec_stats().total_bytes_decoded == 0,
    {
        BufferManager {
            encode_buffers: Vec::with_capacity(8),
            max_buffer_size,
            stats: BufferStats::default(),
        }
    }

    /// An empty buffer: a pooled one, counted as a reuse, or a new one,
    /// counted as an allocation.
    pub fn get_encode_buffer(&mut self) -> (r: Vec<u8>)
        requires
            old(self).spec_stats().buffer_reuses < u64::MAX,
            old(self).spec_stats().total_allocations < u64::MAX,
        ensures
            r@ == Seq::<u8>::empty(),
            old(self).pooled() > 0 ==> final(self).pooled() == old(self).pooled() - 1
                && final(self).spec_stats().buffer_reuses == old(self).spec_stats().buffer_reuses + 1
                && final(self).spec_stats().total_allocations == old(self).spec_stats().total_allocations,
            old(self).pooled() == 0 ==> final(self).pooled() == 0
                && final(self).spec_stats().total_allocations == old(self).spec_stats().total_allocations + 1
                && final(self).spec_stats().buffer_reuses == old(self).spec_stats().buffer_reuses,
            final(self).spec_stats().total_bytes_encoded == old(self).spec_stats().total_bytes_encoded,
            final(self).spec_stats().total_bytes_decoded == old(self).spec_stats().total_bytes_decoded,
            final(self).spec_stats().max_buffer_size_used == old(self).spec_stats().max_buffer_size_used,
            final(self).spec_max_buffer_size() == old(self).spec_max_buffer_size(),
    {
        match self.encode_buffers.pop() {
            Some(mut buffer) => {
                buffer.clear();
                self.stats.buffer_reuses = self.stats.buffer_reuses + 1;
                buffer
            },
            None => {
                self.stats.total_allocations = self.stats.total_allocations + 1;
                Vec::with_capacity(256)
            },
        }
    }

    /// Takes a buffer back: its length is counted as encoded octets, and it
    /// is kept if its capacity is within the limit and the pool holds fewer
    /// than 16 buffers.
    pub fn return_buffer(&mut self, buffer: Vec<u8>)
        requires
            old(self).spec_stats().total_bytes_encoded + buffer@.len() <= u64::MAX,
        ensures
            final(self).spec_stats().total_bytes_encoded == old(self).spec_stats().total_bytes_encoded + buffer@.len(),
            final(self).pooled() == old(self).pooled() || final(self).pooled() == old(self).pooled() + 1,
            final(self).pooled() == old(self).pooled() + 1 ==> old(self).pooled() < MAX_POOLED_BUFFERS
                && buffer@.len() <= old(self).spec_max_buffer_size(),
            old(self).pooled() >= MAX_POOLED_BUFFERS ==> final(self).pooled() == old(self).pooled(),
            buffer@.len() > old(self).spec_max_buffer_size() ==> final(self).pooled() == old(self).pooled(),
            final(self).spec_stats().total_allocations == old(self).spec_stats().total_allocations,
            final(self).spec_stats().buffer_reuses == old(self).spec_stats().buffer_reuses,
            final(self).spec_stats().total_bytes_decoded == old(self).spec_stats().total_bytes_decoded,
            final(self).spec_stats().max_buffer_size_used == old(self).spec_stats().max_buffer_size_used,
            final(self).spec_max_buffer_size() == old(self).spec_max_buffer_size(),
    {
        self.stats.total_bytes_encoded = self.stats.total_bytes_encoded + buffer.len() as u64;
        if capacity_of(&buffer) <= self.max_buffer_size && self.encode_buffers.len() < MAX_POOLED_BUFFERS {
            self.encode_buffers.push(buffer);
        }
    }

    /// Counts `bytes_decoded` more decoded octets.
    pub fn update_decode_stats(&mut self, bytes_decoded: usize)
        requires
            old(self).spec_stats().total_bytes_decoded + bytes_decoded <= u64::MAX,
        ensures
            final(self).spec_stats().total_bytes_decoded == old(self).spec_stats().total_bytes_decoded + bytes_decoded,
            final(self).spec_stats().total_bytes_encoded == old(self).spec_stats().total_bytes_encoded,
            final(self).spec_stats().total_allocations == old(self).spec_stats().total_allocations,
            final(self).spec_stats().buffer_reuses == old(self).spec_stats().buffer_reuses,
            final(self).spec_stats().max_buffer_size_used == old(self).spec_stats().max_buffer_size_used,
            final(self).pooled() == old(self).pooled(),
            final(self).spec_max_buffer_size() == old(self).spec_max_buffer_size(),
    {
        self.stats.total_bytes_decoded = self.stats.total_bytes_decoded + bytes_decoded as u64;
    }
}

} // verus!
