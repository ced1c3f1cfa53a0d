use crate::scene::{rebase, rebase_fits, rebase_indices};
use crate::vertex::Vertex;
use vstd::prelude::*;

verus! {

/// Why an upload into the arena was refused. A refused upload changes nothing.
#[derive(Clone, Copy, Debug, PartialEq, Eq, Structural)]
pub enum ArenaError {
    /// The upload would run past the end of its fixed-capacity region.
    CapacityExceeded,
    /// A rebased index would no longer fit in 16 bits.
    IndexOutOfRange,
}

/// The two cursors of an arena: how many vertices and how many indices of
/// the current frame have been placed.
#[derive(Clone, Copy, Debug)]
pub struct BufferUsage {
    vertex: usize,
    index: usize,
}

impl BufferUsage {
    pub closed spec fn vertex_cursor(self) -> int {
        self.vertex as int
    }

    pub closed spec fn index_cursor(self) -> int {
        self.index as int
    }

    pub fn new() -> (r: BufferUsage)
        ensures
            r.vertex_cursor() == 0,
            r.index_cursor() == 0,
    {
        BufferUsage { vertex: 0, index: 0 }
    }

    pub fn vertex(&self) -> (r: usize)
        ensures
            r == self.vertex_cursor(),
    {
        self.vertex
    }

    pub fn index(&self) -> (r: usize)
        ensures
            r == self.index_cursor(),
    {
        self.index
    }
}

/// The number of bytes that a region of `bytes` takes once rounded up to a
/// multiple of `alignment`, and never less than `alignment` itself.
pub open spec fn aligned_size(bytes: int, alignment: int) -> int {
    let up = (bytes + alignment - 1) / alignment * alignment;
    if up < alignment {
        alignment
    } else {
        up
    }
}

/// A fixed-capacity, append-only arena of one vertex region and one index
/// region on the graphics device.
///
/// It keeps the bookkeeping: the capacities, fixed at construction, and the
/// cursors, which only an accepted upload advances and `reset` clears. The
/// caller writes the accepted data at the offsets that the uploads return.
#[derive(Debug)]
pub struct Buffers {
    vertex: usize,
    index: usize,
    usage: BufferUsage,
}

impl Buffers {
    #[verifier::type_invariant]
    spec fn inv(self) -> bool {
        self.usage.vertex <= self.vertex && self.usage.index <= self.index
    }

    /// How many vertices the vertex region holds.
    pub closed spec fn vertex_capacity(self) -> int {
        self.vertex as int
    }

    /// How many indices the index region holds.
    pub closed spec fn index_capacity(self) -> int {
        self.index as int
    }

    pub closed spec fn spec_usage(self) -> BufferUsage {
        self.usage
    }

    pub open spec fn vertex_cursor(self) -> int {
        self.spec_usage().vertex_cursor()
    }

    pub open spec fn index_cursor(self) -> int {
        self.spec_usage().index_cursor()
    }

    /// `self` and `other` have the same capacities.
    pub open spec fn same_capacity(self, other: Buffers) -> bool {
        self.vertex_capacity() == other.vertex_capacity() && self.index_capacity()
            == other.index_capacity()
    }

    /// An empty arena for `elements` vertices and `indexes` indices.
    pub fn new(elements: usize, indexes: usize) -> (r: Buffers)
        ensures
            r.vertex_capacity() == elements,
            r.index_capacity() == indexes,
            r.vertex_cursor() == 0,
            r.index_cursor() == 0,
    {
        Buffers { vertex: elements, index: indexes, usage: BufferUsage::new() }
    }

    /// The byte size of the vertex region, at `stride` bytes a vertex, or
    /// `None` where it does not fit in 64 bits.
    pub fn vertex_region_size(&self, stride: u64) -> (r: Option<u64>)
        ensures
            r == (if self.vertex_capacity() * stride <= u64::MAX {
                Some((self.vertex_capacity() * stride) as u64)
            } else {
                None
            }),
    {
        (self.vertex as u64).checked_mul(stride)
    }

    /// The byte size of the index region: two bytes an index, rounded up to
    /// the device's copy `alignment` and at least `alignment`; `None` where
    /// that does not fit in 64 bits.
    pub fn index_region_size(&self, alignment: u64) -> (r: Option<u64>)
        requires
            alignment > 0,
        ensures
            r == (if 2 * self.index_capacity() + alignment - 1 <= u64::MAX {
                Some(aligned_size(2 * self.index_capacity(), alignment as int) as u64)
            } else {
                None
            }),
    {
        let bytes = match (self.index as u64).checked_mul(2) {
            Some(b) => b,
            None => return None,
        };
        let padded = match bytes.checked_add(alignment - 1) {
            Some(p) => p,
            None => return None,
        };
        proof {
            assert(padded / alignment * alignment <= padded) by (nonlinear_arith)
                requires
                    alignment > 0,
                    padded >= 0,
            ;
        }
        let up = padded / alignment * alignment;
        Some(if up < alignment { alignment } else { up })
    }

    /// The vertex capacity.
    pub fn vertex(&self) -> (r: usize)
        ensures
            r == self.vertex_capacity(),
    {
        self.vertex
    }

    /// The index capacity.
    pub fn index(&self) -> (r: usize)
        ensures
            r == self.index_capacity(),
    {
        self.index
    }

    pub fn usage(&self) -> (r: &BufferUsage)
        ensures
            *r == self.spec_usage(),
    {
        &self.usage
    }

    /// Empties both regions for a new frame; the capacities stay.
    pub fn reset(&mut self)
        ensures
            final(self).same_capacity(*old(self)),
            final(self).vertex_cursor() == 0,
            final(self).index_cursor() == 0,
    {
        self.usage = BufferUsage::new();
    }

    /// Reserves room for `data` in the vertex region and returns where it
    /// starts (counted in vertices): the cursor before the call.
    ///
    /// All or nothing: where `data` does not fit in what is left, the
    /// upload fails with `CapacityExceeded` and the arena is unchanged.
    pub fn buffer_vertex(&mut self, data: &[Vertex]) -> (r: Result<usize, ArenaError>)
        ensures
            final(self).same_capacity(*old(self)),
            r is Ok <==> old(self).vertex_cursor() + data@.len() <= old(self).vertex_capacity(),
            r matches Ok(start) ==> {
                &&& start == old(self).vertex_cursor()
                &&& final(self).vertex_cursor() == start + data@.len()
                &&& final(self).index_cursor() == old(self).index_cursor()
            },
            r matches Err(e) ==> e == ArenaError::CapacityExceeded && *final(self) == *old(self),
    {
        proof {
            use_type_invariant(&*self);
        }
        let start = self.usage.vertex;
        if data.len() > self.vertex - start {
            return Err(ArenaError::CapacityExceeded);
        }
        self.usage.vertex = start + data.len();
        Ok(start)
    }

    /// Reserves room for `data` in the index region and returns where it
    /// starts (counted in indices) with `data` rebased by the vertex cursor
    /// as it stands now: indices that independent callers upload this way
    /// all refer into the one shared vertex region.
    ///
    /// All or nothing: where `data` does not fit in what is left the upload
    /// fails with `CapacityExceeded`; where it fits but a rebased index
    /// would exceed 16 bits it fails with `IndexOutOfRange`. Either way the
    /// arena is unchanged.
    pub fn buffer_index(&mut self, data: &[u16]) -> (r: Result<(usize, Vec<u16>), ArenaError>)
        ensures
            final(self).same_capacity(*old(self)),
            r is Ok <==> old(self).index_cursor() + data@.len() <= old(self).index_capacity()
                && rebase_fits(data@, old(self).vertex_cursor()),
            r matches Ok((start, rebased)) ==> {
                &&& start == old(self).index_cursor()
                &&& rebased@ == rebase(data@, old(self).vertex_cursor())
                &&& final(self).index_cursor() == start + data@.len()
                &&& final(self).vertex_cursor() == old(self).vertex_cursor()
            },
            r matches Err(e) ==> *final(self) == *old(self) && (e == ArenaError::CapacityExceeded
                <==> old(self).index_cursor() + data@.len() > old(self).index_capacity()),
    {
        proof {
            use_type_invariant(&*self);
        }
        let start = self.usage.index;
        if data.len() > self.index - start {
            return Err(ArenaError::CapacityExceeded);
        }
        match rebase_indices(data, self.usage.vertex) {
            Some(rebased) => {
                self.usage.index = start + data.len();
                Ok((start, rebased))
            },
            None => Err(ArenaError::IndexOutOfRange),
        }
    }
}

} // verus!
