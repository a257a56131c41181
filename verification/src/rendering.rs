//! The render backend's pass scheduling.
//!
//! Drawing commands are batched into three render passes and flushed to the
//! GPU in a fixed order.  The GPU resources and the batches' vertex data live
//! with the embedding program's renderer; what is owned and verified here is
//! the scheduling state and every decision about it: when a new command
//! forces a flush, and whether the next pass clears its target or keeps it.

use vstd::prelude::*;

verus! {

/// An RGBA color with 8-bit channels, as the drawing commands carry it.
#[derive(Clone, Copy, Debug, PartialEq, Eq, Structural)]
pub struct Color {
    pub r: u8,
    pub g: u8,
    pub b: u8,
    pub a: u8,
}

/// How a render pass treats the previous contents of its target.
#[derive(Clone, Copy, Debug, PartialEq, Eq, Structural)]
pub enum LoadOp {
    /// Keep what is there.
    Load,
    /// Clear to this color first.
    Clear(Color),
}

/// The pending load operation of the next render pass.
#[derive(Clone, Copy, Debug, PartialEq, Eq, Structural)]
pub struct ClearOps {
    pub color: LoadOp,
}

impl Default for ClearOps {
    /// By default a pass keeps the previous contents of its target.
    fn default() -> (r: Self)
        ensures
            r == (ClearOps { color: LoadOp::Load }),
    {
        ClearOps { color: LoadOp::Load }
    }
}

impl ClearOps {
    /// Takes the pending operations, leaving the default in their place.
    pub fn take(&mut self) -> (r: ClearOps)
        ensures
            r == *old(self),
            *final(self) == (ClearOps { color: LoadOp::Load }),
    {
        let r = *self;
        *self = ClearOps { color: LoadOp::Load };
        r
    }
}

/// The batched render passes, in the order one flush submits them.
#[derive(Clone, Copy, Debug, PartialEq, Eq, Structural)]
pub enum Pass {
    RoundedRects,
    Lines,
    Images,
}

/// Where a pass stands in the flush order.
pub open spec fn pass_rank(p: Pass) -> int {
    match p {
        Pass::RoundedRects => 0,
        Pass::Lines => 1,
        Pass::Images => 2,
    }
}

/// Where a pass stands in the flush order.
pub fn rank_of(p: Pass) -> (r: u8)
    ensures
        r == pass_rank(p),
{
    match p {
        Pass::RoundedRects => 0,
        Pass::Lines => 1,
        Pass::Images => 2,
    }
}

/// The pass-scheduling slice of the render backend's state: which batched
/// pass the most recent drawing command fell into, and the clear requested
/// for the next flush.
pub struct PassScheduler {
    /// The pass of the most recent batched command since the last flush.
    pub last_pass: Option<Pass>,
    /// The clear requested for the next flush, if any.
    pub clear: Option<Color>,
}

impl PassScheduler {
    /// A fresh frame: no pass pending, no clear requested.
    pub fn new() -> (r: PassScheduler)
        ensures
            r.last_pass is None,
            r.clear is None,
    {
        PassScheduler { last_pass: None, clear: None }
    }

    /// Begins a new frame: whatever was batched has been submitted or
    /// abandoned, so no pass is pending.
    pub fn rewind(&mut self)
        ensures
            final(self).last_pass is None,
            final(self).clear == old(self).clear,
    {
        self.last_pass = None;
    }

    /// Records that the next drawing command belongs to `new_pass`, and says
    /// whether the batches must be flushed first.  They must exactly when the
    /// submission order would run backwards: when a pass earlier in the flush
    /// order than the pending one begins.
    pub fn switch_pass(&mut self, new_pass: Pass) -> (flush_needed: bool)
        ensures
            final(self).last_pass == Some(new_pass),
            final(self).clear == old(self).clear,
            flush_needed <==> (old(self).last_pass matches Some(p) && pass_rank(new_pass)
                < pass_rank(p)),
    {
        let last = self.last_pass;
        self.last_pass = Some(new_pass);
        match last {
            Some(p) => rank_of(new_pass) < rank_of(p),
            None => false,
        }
    }

    /// Requests that the next flush clear the target to `color`.
    pub fn clear(&mut self, color: Color)
        ensures
            final(self).clear == Some(color),
            final(self).last_pass == old(self).last_pass,
    {
        self.clear = Some(color);
    }

    /// Consumes the pending clear request: the next pass clears to the
    /// requested color when there was one, and keeps the previous contents
    /// otherwise.
    pub fn clear_ops(&mut self) -> (r: ClearOps)
        ensures
            final(self).clear is None,
            final(self).last_pass == old(self).last_pass,
            old(self).clear matches Some(c) ==> r == (ClearOps { color: LoadOp::Clear(c) }),
            old(self).clear is None ==> r == (ClearOps { color: LoadOp::Load }),
    {
        let c = self.clear;
        self.clear = None;
        match c {
            Some(color) => ClearOps { color: LoadOp::Clear(color) },
            None => ClearOps { color: LoadOp::Load },
        }
    }

    /// The state change of one flush: the pending clear is consumed into the
    /// submitted pass's load operation, and afterwards no pass is pending.
    pub fn flush(&mut self) -> (r: ClearOps)
        ensures
            final(self).last_pass is None,
            final(self).clear is None,
            old(self).clear matches Some(c) ==> r == (ClearOps { color: LoadOp::Clear(c) }),
            old(self).clear is None ==> r == (ClearOps { color: LoadOp::Load }),
    {
        let mut ops = self.clear_ops();
        let taken = ops.take();
        self.last_pass = None;
        taken
    }
}

/// An offscreen render target.
pub struct Framebuffer;

impl Framebuffer {
    /// The framebuffer's size in pixels.
    pub fn size(&self) -> (r: (u32, u32))
        ensures
            r == (256u32, 256u32),
    {
        (256, 256)
    }
}

/// A font face.  Sizing and measuring text are floating-point work and live
/// with the embedding program's renderer.
pub struct Font;

} // verus!
