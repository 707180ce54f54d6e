use vstd::prelude::*;

use crate::page::{page_roundup, round_up_to_page};

verus! {

/// The address that the mapping call returns when it fails.
pub const MAP_FAILED_ADDR: usize = usize::MAX;

/// What to ask the kernel for when mapping physical memory: the physical
/// offset and the page-rounded byte length.
#[derive(Debug, Clone, Copy, PartialEq, Eq, Structural)]
pub struct MapRequest {
    pub offset: usize,
    pub length: usize,
}

/// The mapping request for `size` bytes of physical memory at `phys_addr`.
pub fn map_request(phys_addr: usize, size: usize) -> (r: MapRequest)
    requires
        size <= usize::MAX - 4095,
    ensures
        r.offset == phys_addr,
        r.length == round_up_to_page(size as int),
{
    MapRequest { offset: phys_addr, length: page_roundup(size) }
}

/// A process-visible mapping of physical memory: its base address (zero once
/// released) and the byte length it was mapped with.
pub struct Segment {
    base: usize,
    length: usize,
}

/// The mathematical content of a [`Segment`].
pub struct SegmentView {
    pub base: usize,
    pub length: usize,
}

impl View for Segment {
    type V = SegmentView;

    closed spec fn view(&self) -> SegmentView {
        SegmentView { base: self.base, length: self.length }
    }
}

/// One release of a mapping: a live mapping hands out its base and length
/// to unmap and becomes released; a released one (null base) hands out
/// nothing and stays as it is.
pub open spec fn release_step(s: SegmentView) -> (SegmentView, Option<(usize, usize)>) {
    if s.base == 0 {
        (s, None)
    } else {
        (SegmentView { base: 0, ..s }, Some((s.base, s.length)))
    }
}

impl Segment {
    /// Records the mapping that the kernel returned at `base` for `req`, or
    /// `None` where the mapping call failed.
    pub fn mapped(req: &MapRequest, base: usize) -> (r: Option<Segment>)
        ensures
            base == MAP_FAILED_ADDR <==> r is None,
            r matches Some(s) ==> s@ == (SegmentView { base, length: req.length }),
    {
        if base == MAP_FAILED_ADDR {
            None
        } else {
            Some(Segment { base, length: req.length })
        }
    }

    /// Records a mapping of `size` bytes at `base`; its length is `size`
    /// rounded up to whole pages. A null `base` stands for a mapping that is
    /// already released.
    pub fn new(base: usize, size: usize) -> (s: Segment)
        requires
            size <= usize::MAX - 4095,
        ensures
            s@ == (SegmentView { base, length: round_up_to_page(size as int) as usize }),
    {
        Segment { base, length: page_roundup(size) }
    }

    /// Releases the mapping: returns the base and length to unmap, once. A
    /// mapping already released returns `None` and is left as it is.
    pub fn release(&mut self) -> (r: Option<(usize, usize)>)
        ensures
            (final(self)@, r) == release_step(old(self)@),
    {
        if self.base == 0 {
            None
        } else {
            let out = (self.base, self.length);
            self.base = 0;
            Some(out)
        }
    }

    /// The mapping's base address; zero once released.
    pub fn base(&self) -> (r: usize)
        ensures
            r == self@.base,
    {
        self.base
    }

    /// The byte length the mapping was made with.
    pub fn length(&self) -> (r: usize)
        ensures
            r == self@.length,
    {
        self.length
    }
}

/// Releasing a mapping twice unmaps it once: the second release hands out
/// nothing and changes nothing.
pub proof fn lemma_release_twice(s: SegmentView)
    ensures
        release_step(release_step(s).0).1 is None,
        release_step(release_step(s).0).0 == release_step(s).0,
{
}

} // verus!
