//! The allocator bridge: request-scoped memory routed through the host's
//! own allocator, and host-owned null-terminated strings.
//!
//! The host's arena is modeled explicitly as a [`RequestArena`] value that
//! tracks which blocks are live.  The real host performs the bookkeeping
//! itself; the model makes its caller contracts checkable: every block is
//! released through the matching free operation, exactly once, and only
//! blocks obtained from this arena may be handed back to it.

use vstd::prelude::*;

use crate::Error;
use crate::contains_nul;
use crate::has_nul;

verus! {

/// A request for scratch memory: a size and an alignment.
///
/// Alignment is advisory: the host allocator does not take one, so the
/// bridge records it but does not act on it.  This preserves the host's
/// documented limitation instead of promising more than the host does.
#[derive(Clone, Copy, Debug, PartialEq, Eq, Structural)]
pub struct AllocationRequest {
    /// Number of bytes requested.
    pub size: usize,
    /// Requested alignment; advisory only.
    pub alignment: usize,
}

/// A null-terminated byte buffer shaped like a host-owned string.
///
/// Invariant: the buffer ends with exactly one terminator and holds no
/// embedded terminator before it.
#[derive(Debug, PartialEq, Eq)]
pub struct OwnedHostString {
    bytes: Vec<u8>,
}

impl OwnedHostString {
    /// The whole buffer, terminator included.
    pub closed spec fn raw(self) -> Seq<u8> {
        self.bytes@
    }

    /// Well-formedness: non-empty, terminated, no embedded terminator.
    pub open spec fn wf(self) -> bool {
        &&& self.raw().len() >= 1
        &&& self.raw().last() == 0u8
        &&& !has_nul(self.raw().drop_last())
    }

    /// The string contents, without the terminator.
    pub open spec fn content(self) -> Seq<u8> {
        self.raw().drop_last()
    }

    /// Converts a byte sequence into a host string by appending one
    /// terminator, rejecting sequences that already hold one.
    pub fn from_bytes(bytes: &[u8]) -> (r: Result<OwnedHostString, Error>)
        ensures
            r is Ok <==> !has_nul(bytes@),
            r matches Ok(s) ==> s.wf() && s.raw() == bytes@.push(0u8),
            r matches Err(e) ==> e == Error::StringConversionFailure,
    {
        if contains_nul(bytes) {
            return Err(Error::StringConversionFailure);
        }
        let mut buf: Vec<u8> = Vec::new();
        let mut i: usize = 0;
        while i < bytes.len()
            invariant
                0 <= i <= bytes@.len(),
                buf@ == bytes@.take(i as int),
            decreases bytes@.len() - i,
        {
            buf.push(bytes[i]);
            i += 1;
        }
        proof {
            assert(buf@ == bytes@);
        }
        buf.push(0u8);
        let s = OwnedHostString { bytes: buf };
        proof {
            assert(s.raw() == bytes@.push(0u8));
            assert(s.raw().drop_last() == bytes@);
        }
        Ok(s)
    }

    /// Number of content bytes, terminator excluded.
    pub fn content_len(&self) -> (n: usize)
        requires
            self.wf(),
        ensures
            n == self.content().len(),
            n < usize::MAX,
    {
        self.bytes.len() - 1
    }

    /// Reads the string back: the content bytes, terminator excluded.
    pub fn contents(&self) -> (r: Vec<u8>)
        requires
            self.wf(),
        ensures
            r@ == self.content(),
    {
        let mut out: Vec<u8> = Vec::new();
        let mut i: usize = 0;
        let n = self.bytes.len() - 1;
        while i < n
            invariant
                0 <= i <= n,
                n == self.raw().len() - 1,
                out@ == self.raw().take(i as int),
            decreases n - i,
        {
            out.push(self.bytes[i]);
            i += 1;
        }
        proof {
            assert(out@ == self.content());
        }
        out
    }
}

/// Reading a duplicated string back yields the original bytes exactly,
/// with one added terminator: for every byte sequence without an embedded
/// terminator, the string built from it carries those bytes and nothing
/// else before the terminator.
pub proof fn lemma_duplicate_round_trip(bytes: Seq<u8>, s: OwnedHostString)
    requires
        !has_nul(bytes),
        s.raw() == bytes.push(0u8),
    ensures
        s.wf(),
        s.content() == bytes,
        s.raw().len() == bytes.len() + 1,
{
    assert(s.raw().last() == 0u8);
    assert(s.raw().drop_last() == bytes);
}

/// Position of the first occurrence of `h` in `v`.
fn first_position(v: &Vec<u64>, h: u64) -> (i: usize)
    requires
        v@.contains(h),
    ensures
        0 <= i < v@.len(),
        v@[i as int] == h,
        forall|j: int| 0 <= j < i ==> v@[j] != h,
{
    let mut i: usize = 0;
    let n = v.len();
    proof {
        let w = choose|w: int| 0 <= w < v@.len() && v@[w] == h;
        assert(v@.len() > 0);
    }
    loop
        invariant
            v@.contains(h),
            n == v@.len(),
            0 <= i < n,
            forall|j: int| 0 <= j < i ==> v@[j] != h,
        decreases v@.len() - i,
    {
        if v[i] == h {
            return i;
        }
        proof {
            let w = choose|w: int| 0 <= w < v@.len() && v@[w] == h;
            assert(w > i);
        }
        i += 1;
    }
}

/// The model of the host's request-scoped arena: the set of live blocks,
/// each named by a handle the arena issued.
pub struct RequestArena {
    next_block: u64,
    live: Vec<u64>,
}

impl RequestArena {
    /// Handles of the blocks currently live, in allocation order.
    pub closed spec fn live_blocks(self) -> Seq<u64> {
        self.live@
    }

    /// The next handle the arena will issue.
    pub closed spec fn next(self) -> u64 {
        self.next_block
    }

    /// Arena sanity: issued handles are below the next one and distinct.
    pub closed spec fn wf(self) -> bool {
        &&& forall|i: int| 0 <= i < self.live@.len() ==> self.live@[i] < self.next_block
        &&& forall|i: int, j: int|
            0 <= i < j < self.live@.len() ==> self.live@[i] != self.live@[j]
    }

    /// An empty arena, as at the start of a request.
    pub fn new() -> (a: RequestArena)
        ensures
            a.wf(),
            a.live_blocks() == Seq::<u64>::empty(),
    {
        RequestArena { next_block: 0, live: Vec::new() }
    }

    /// Requests memory from the host allocator.  The returned handle is
    /// fresh; the block stays live until released through [`Self::efree`].
    /// The request's alignment is advisory and not enforced, matching the
    /// host's documented behavior.
    pub fn emalloc(&mut self, request: AllocationRequest) -> (h: u64)
        requires
            old(self).wf(),
            old(self).next() < u64::MAX,
        ensures
            final(self).wf(),
            !old(self).live_blocks().contains(h),
            final(self).live_blocks() == old(self).live_blocks().push(h),
    {
        let h = self.next_block;
        self.next_block = self.next_block + 1;
        self.live.push(h);
        h
    }

    /// Releases a block previously obtained from this arena.  The caller
    /// contract of the host's free operation becomes a precondition: the
    /// handle must be live here, never one from elsewhere and never one
    /// already freed.
    pub fn efree(&mut self, h: u64)
        requires
            old(self).wf(),
            old(self).live_blocks().contains(h),
        ensures
            final(self).wf(),
            final(self).live_blocks() == old(self).live_blocks().remove_value(h),
            !final(self).live_blocks().contains(h),
    {
        let i = first_position(&self.live, h);
        proof {
            let pre = self.live@;
            pre.index_of_first_ensures(h);
            let idx = pre.index_of_first(h).unwrap();
            if idx < i as int {
                assert(pre[idx] != h);
            }
            if (i as int) < idx {
                assert(pre[i as int] != h);
            }
            assert(pre.index_of_first(h) == Some(i as int));
        }
        self.live.remove(i);
        proof {
            let pre = old(self).live@;
            let cur = self.live@;
            assert(cur == pre.remove_value(h));
            pre.remove_ensures(i as int);
            assert forall|k: int| 0 <= k < cur.len() implies cur[k] != h by {
                if k < i as int {
                    assert(cur[k] == pre[k]);
                } else {
                    assert(cur[k] == pre[k + 1]);
                }
            }
            assert forall|a: int, b: int|
                0 <= a < b < cur.len() implies cur[a] != cur[b] by {
                let pa: int = if a < i as int { a } else { a + 1 };
                let pb: int = if b < i as int { b } else { b + 1 };
                assert(cur[a] == pre[pa]);
                assert(cur[b] == pre[pb]);
            }
            assert forall|k: int|
                0 <= k < cur.len() implies cur[k] < self.next_block by {
                let pk: int = if k < i as int { k } else { k + 1 };
                assert(cur[k] == pre[pk]);
            }
        }
    }

    /// Copies `bytes` into host-owned, null-terminated memory: the host
    /// duplication primitive performs the allocation, so one fresh block
    /// becomes live alongside the returned string.
    pub fn estrdup(&mut self, bytes: &[u8]) -> (r: Result<OwnedHostString, Error>)
        requires
            old(self).wf(),
            old(self).next() < u64::MAX,
        ensures
            final(self).wf(),
            r is Ok <==> !has_nul(bytes@),
            r matches Ok(s) ==> s.wf() && s.raw() == bytes@.push(0u8)
                && final(self).live_blocks().len() == old(self).live_blocks().len() + 1,
            r matches Err(e) ==> e == Error::StringConversionFailure
                && *final(self) == *old(self),
    {
        let s = OwnedHostString::from_bytes(bytes)?;
        let request = AllocationRequest { size: s.content_len() + 1, alignment: 1 };
        let _block = self.emalloc(request);
        Ok(s)
    }
}

} // verus!
