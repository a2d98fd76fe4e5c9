//! Model of the host engine's non-heap, executable-memory allocator.
//!
//! Trampolines must live in read-write-execute memory, which the host hands
//! out from a dedicated allocator rather than from the ordinary heap.  The
//! allocator is modelled as a bump of an abstract address space together
//! with the multiset of live blocks, which is what the release protocol is
//! about: every block is released exactly once, with the same size it was
//! allocated with, before its addresses may be reused.  A second release of
//! the same block is refused, which is how a double free is caught.

use crate::error::{FatalError, ReleaseError};
use vstd::prelude::*;

verus! {

/// The room an allocation of `size` bytes takes from the address space; a
/// zero-sized request still consumes one address, so that every block gets
/// a base of its own.
pub open spec fn spec_bump(size: int) -> int {
    if size == 0 {
        1
    } else {
        size
    }
}

/// A block of read-write-execute memory: its base address and the size it
/// was allocated with.
#[derive(Clone, Copy, Debug, Eq, PartialEq, Structural)]
pub struct Block {
    pub addr: u64,
    pub size: usize,
}

/// The allocator model: an abstract bump pointer plus the blocks currently
/// allocated and not yet released.
pub struct ExecAllocator {
    next: u64,
    live: Vec<Block>,
}

impl ExecAllocator {
    /// The blocks currently allocated and not yet released.
    pub closed spec fn live_blocks(self) -> Seq<Block> {
        self.live@
    }

    /// Whether `b` is currently allocated.
    pub open spec fn is_live(self, b: Block) -> bool {
        self.live_blocks().contains(b)
    }

    /// Whether some currently allocated block starts at `addr`.
    pub open spec fn has_addr(self, addr: u64) -> bool {
        exists|i: int|
            0 <= i < self.live_blocks().len() && self.live_blocks()[i].addr == addr
    }

    /// How much of the abstract address space is still unallocated: an
    /// allocation succeeds exactly when the room it needs does not exceed
    /// this.
    pub closed spec fn spec_free_space(self) -> int {
        u64::MAX - self.next
    }

    /// Well-formedness: live base addresses are distinct, and every live
    /// block lies below the bump pointer.
    pub closed spec fn wf(self) -> bool {
        &&& forall|i: int, j: int|
            0 <= i < j < self.live@.len() ==> self.live@[i].addr != self.live@[j].addr
        &&& forall|i: int|
            0 <= i < self.live@.len()
                ==> self.live@[i].addr < self.next
                    && self.live@[i].addr + self.live@[i].size <= self.next
    }

    /// A fresh allocator with no live blocks.
    pub fn new() -> (r: Self)
        ensures
            r.wf(),
            r.live_blocks() == Seq::<Block>::empty(),
            r.spec_free_space() == u64::MAX - 0x1000,
    {
        ExecAllocator { next: 0x1000, live: Vec::new() }
    }

    /// Requests a read-write-execute block of `size` bytes.  Failure is
    /// fatal for the embedding program: it cannot proceed without the
    /// callback bridge, so the error is surfaced for a clean abort rather
    /// than a retry.
    pub fn allocate(&mut self, size: usize) -> (r: Result<Block, FatalError>)
        requires
            old(self).wf(),
        ensures
            final(self).wf(),
            r is Ok <==> spec_bump(size as int) <= old(self).spec_free_space(),
            match r {
                Ok(b) => {
                    &&& b.size == size
                    &&& b.addr + b.size <= u64::MAX
                    &&& !old(self).has_addr(b.addr)
                    &&& final(self).live_blocks() == old(self).live_blocks().push(b)
                    &&& final(self).spec_free_space() == old(self).spec_free_space() - spec_bump(
                        size as int,
                    )
                },
                Err(e) => {
                    &&& e == FatalError::OutOfExecutableMemory
                    &&& *final(self) == *old(self)
                },
            },
    {
        let bump: u64 = if size == 0 { 1 } else { size as u64 };
        if bump > u64::MAX - self.next {
            return Err(FatalError::OutOfExecutableMemory);
        }
        let b = Block { addr: self.next, size };
        proof {
            assert(!self.has_addr(b.addr));
        }
        self.next = self.next + bump;
        self.live.push(b);
        Ok(b)
    }

    /// Releases the block starting at `addr`, which must be handed back
    /// with the same size used at allocation.  Succeeds exactly once per
    /// allocation: a repeated release reports `UnknownBlock` and changes
    /// nothing, and a release with the wrong size reports `SizeMismatch`
    /// and changes nothing.
    pub fn release(&mut self, addr: u64, size: usize) -> (r: Result<(), ReleaseError>)
        requires
            old(self).wf(),
        ensures
            final(self).wf(),
            final(self).spec_free_space() == old(self).spec_free_space(),
            match r {
                Ok(()) => {
                    &&& old(self).is_live((Block { addr, size }))
                    &&& !final(self).has_addr(addr)
                    &&& final(self).live_blocks().len() == old(self).live_blocks().len() - 1
                    &&& forall|b: Block|
                        b.addr != addr ==> (final(self).is_live(b) <==> old(self).is_live(b))
                    &&& exists|i: int|
                        0 <= i < old(self).live_blocks().len()
                            && old(self).live_blocks()[i] == (Block { addr, size })
                            && final(self).live_blocks() == old(self).live_blocks().remove(i)
                },
                Err(ReleaseError::UnknownBlock) => {
                    &&& !old(self).has_addr(addr)
                    &&& *final(self) == *old(self)
                },
                Err(ReleaseError::SizeMismatch) => {
                    &&& old(self).has_addr(addr)
                    &&& !old(self).is_live((Block { addr, size }))
                    &&& *final(self) == *old(self)
                },
            },
    {
        let n = self.live.len();
        let mut i: usize = 0;
        while i < n
            invariant
                *self == *old(self),
                old(self).wf(),
                n == self.live@.len(),
                0 <= i <= n,
                forall|j: int| 0 <= j < i ==> self.live@[j].addr != addr,
            decreases n - i,
        {
            if self.live[i].addr == addr {
                if self.live[i].size != size {
                    proof {
                        assert(self.live@[i as int].addr == addr);
                        assert(self.live@[i as int] != (Block { addr, size }));
                        assert forall|k: int|
                            0 <= k < self.live@.len() && self.live@[k] == (Block { addr, size })
                            implies false by {
                            if k < i {
                                assert(self.live@[k].addr != self.live@[i as int].addr);
                            } else if k > i {
                                assert(self.live@[i as int].addr != self.live@[k].addr);
                            }
                        }
                    }
                    return Err(ReleaseError::SizeMismatch);
                }
                let ghost prev = self.live@;
                self.live.remove(i);
                proof {
                    assert(prev[i as int] == (Block { addr, size }));
                    assert(prev.contains((Block { addr, size })));
                    assert forall|b: Block| b.addr != addr implies
                        (self.live@.contains(b) <==> prev.contains(b)) by {
                        lemma_remove_contains(prev, i as int, b);
                    }
                    assert forall|k: int|
                        0 <= k < self.live@.len() && self.live@[k].addr == addr
                        implies false by {
                        if k < i {
                            assert(self.live@[k] == prev[k]);
                            assert(prev[k].addr != prev[i as int].addr);
                        } else {
                            assert(self.live@[k] == prev[k + 1]);
                            assert(prev[i as int].addr != prev[k + 1].addr);
                        }
                    }
                    assert forall|a: int, b: int|
                        0 <= a < b < self.live@.len()
                        implies self.live@[a].addr != self.live@[b].addr by {
                        let pa: int = if a < i { a } else { a + 1 };
                        let pb: int = if b < i { b } else { b + 1 };
                        assert(self.live@[a] == prev[pa]);
                        assert(self.live@[b] == prev[pb]);
                        assert(prev[pa].addr != prev[pb].addr);
                    }
                    assert forall|a: int|
                        0 <= a < self.live@.len()
                        implies self.live@[a].addr + self.live@[a].size <= self.next by {
                        let pa: int = if a < i { a } else { a + 1 };
                        assert(self.live@[a] == prev[pa]);
                    }
                }
                return Ok(());
            }
            i = i + 1;
        }
        Err(ReleaseError::UnknownBlock)
    }

    /// Number of blocks currently allocated and not yet released.
    pub fn live_count(&self) -> (r: usize)
        ensures
            r == self.live_blocks().len(),
    {
        self.live.len()
    }

    /// Whether the block starting at `addr` with size `size` is currently
    /// allocated.
    pub fn is_allocated(&self, addr: u64, size: usize) -> (r: bool)
        requires
            self.wf(),
        ensures
            r == self.is_live((Block { addr, size })),
    {
        let n = self.live.len();
        let mut i: usize = 0;
        while i < n
            invariant
                n == self.live@.len(),
                0 <= i <= n,
                forall|j: int| 0 <= j < i ==> self.live@[j] != (Block { addr, size }),
            decreases n - i,
        {
            if self.live[i].addr == addr && self.live[i].size == size {
                proof {
                    assert(self.live@.contains((Block { addr, size })));
                }
                return true;
            }
            i = i + 1;
        }
        false
    }
}

/// A live block's base address is accounted among the allocator's live
/// addresses.
pub proof fn lemma_live_has_addr(a: ExecAllocator, b: Block)
    requires
        a.is_live(b),
    ensures
        a.has_addr(b.addr),
{
    let i = choose|i: int| 0 <= i < a.live_blocks().len() && a.live_blocks()[i] == b;
    assert(a.live_blocks()[i].addr == b.addr);
}

/// A live address is witnessed by some live block.
pub proof fn lemma_has_addr_witness(a: ExecAllocator, addr: u64)
    requires
        a.has_addr(addr),
    ensures
        exists|b: Block| a.is_live(b) && b.addr == addr,
{
    let i = choose|i: int| 0 <= i < a.live_blocks().len() && a.live_blocks()[i].addr == addr;
    let b = a.live_blocks()[i];
    assert(a.live_blocks().contains(b));
    assert(a.is_live(b) && b.addr == addr);
}

/// The absence of any block at `addr` survives the release of a block at a
/// different address, described by the preservation fact a release
/// guarantees.
pub proof fn lemma_addr_absence_preserved(
    pre: ExecAllocator,
    post: ExecAllocator,
    addr: u64,
    other: u64,
)
    requires
        !pre.has_addr(addr),
        addr != other,
        forall|b: Block| b.addr != other ==> (post.is_live(b) <==> pre.is_live(b)),
    ensures
        !post.has_addr(addr),
{
    if post.has_addr(addr) {
        lemma_has_addr_witness(post, addr);
        let b = choose|b: Block| post.is_live(b) && b.addr == addr;
        assert(pre.is_live(b));
        lemma_live_has_addr(pre, b);
    }
}

/// Removing index `i` from a sequence neither adds nor removes any element
/// other than the one at `i`.
proof fn lemma_remove_contains<A>(s: Seq<A>, i: int, x: A)
    requires
        0 <= i < s.len(),
        x != s[i],
    ensures
        s.remove(i).contains(x) <==> s.contains(x),
{
    let t = s.remove(i);
    if s.contains(x) {
        let k = choose|k: int| 0 <= k < s.len() && s[k] == x;
        if k < i {
            assert(t[k] == x);
        } else {
            assert(t[k - 1] == x);
        }
    }
    if t.contains(x) {
        let k = choose|k: int| 0 <= k < t.len() && t[k] == x;
        if k < i {
            assert(s[k] == x);
        } else {
            assert(s[k + 1] == x);
        }
    }
}

} // verus!
