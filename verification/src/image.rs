//! The Pixel Buffer Handle: one engine image object together with the
//! geometry and format metadata describing its pixel bytes.
//!
//! The handle owns the decision of who frees the backing byte array: once
//! bytes are attached, they belong to the buffer and are released exactly once
//! when the buffer is destroyed (or when its reference count falls to zero).
//! A destroyed handle is inert: mutating calls are no-ops and never touch a
//! stale engine reference, so destruction is safe to repeat.

use vstd::prelude::*;

use crate::format::geometry_matches;

verus! {

/// One image buffer: alive-or-destroyed state, geometry, format tag,
/// reference count, and the owned pixel bytes, if any are attached.
pub struct ZBarImage {
    live: bool,
    w: u32,
    h: u32,
    fmt: u32,
    refs: isize,
    bytes: Option<Vec<u8>>,
}

impl ZBarImage {
    /// Whether the underlying engine object has not been released yet.
    pub closed spec fn alive(self) -> bool {
        self.live
    }

    /// The declared image width in pixels.
    pub closed spec fn width(self) -> u32 {
        self.w
    }

    /// The declared image height in pixels.
    pub closed spec fn height(self) -> u32 {
        self.h
    }

    /// The packed four-character format tag.
    pub closed spec fn format(self) -> u32 {
        self.fmt
    }

    /// The buffer's reference count.
    pub closed spec fn refs(self) -> int {
        self.refs as int
    }

    /// The pixel bytes the buffer currently owns, if any.
    pub closed spec fn data(self) -> Option<Seq<u8>> {
        match self.bytes {
            Some(b) => Some(b@),
            None => None,
        }
    }

    /// Allocates a fresh, empty image buffer: alive, zero geometry, no format,
    /// one reference, and no pixel data attached.
    pub fn new() -> (r: ZBarImage)
        ensures
            r.alive(),
            r.width() == 0,
            r.height() == 0,
            r.format() == 0,
            r.refs() == 1,
            r.data() is None,
    {
        ZBarImage { live: true, w: 0, h: 0, fmt: 0, refs: 1, bytes: None }
    }

    /// Declares the buffer's format tag. On a destroyed handle this is a
    /// no-op: the engine is never re-entered with a stale reference.
    pub fn set_format(&mut self, format: u32)
        ensures
            !old(self).alive() ==> *final(self) == *old(self),
            old(self).alive() ==> final(self).format() == format,
            old(self).alive() ==> final(self).alive(),
            old(self).alive() ==> final(self).width() == old(self).width(),
            old(self).alive() ==> final(self).height() == old(self).height(),
            old(self).alive() ==> final(self).refs() == old(self).refs(),
            old(self).alive() ==> final(self).data() == old(self).data(),
    {
        if self.live {
            self.fmt = format;
        }
    }

    /// Declares the buffer's width and height. On a destroyed handle this is
    /// a no-op.
    pub fn set_size(&mut self, width: u32, height: u32)
        ensures
            !old(self).alive() ==> *final(self) == *old(self),
            old(self).alive() ==> final(self).width() == width && final(self).height() == height,
            old(self).alive() ==> final(self).alive(),
            old(self).alive() ==> final(self).format() == old(self).format(),
            old(self).alive() ==> final(self).refs() == old(self).refs(),
            old(self).alive() ==> final(self).data() == old(self).data(),
    {
        if self.live {
            self.w = width;
            self.h = height;
        }
    }

    /// Adjusts the buffer's reference count by `r`. When the count falls to
    /// zero or below, the buffer is released and its pixel bytes are freed.
    /// On a destroyed handle this is a no-op.
    pub fn set_ref(&mut self, r: isize)
        requires
            old(self).alive() ==> isize::MIN <= old(self).refs() + r <= isize::MAX,
        ensures
            !old(self).alive() ==> *final(self) == *old(self),
            old(self).alive() ==> final(self).refs() == old(self).refs() + r,
            old(self).alive() && old(self).refs() + r <= 0 ==> !final(self).alive(),
            old(self).alive() && old(self).refs() + r <= 0 ==> final(self).data() is None,
            old(self).alive() && old(self).refs() + r > 0 ==> final(self).alive(),
            old(self).alive() && old(self).refs() + r > 0 ==> final(self).data() == old(self).data(),
            old(self).alive() ==> final(self).width() == old(self).width(),
            old(self).alive() ==> final(self).height() == old(self).height(),
            old(self).alive() ==> final(self).format() == old(self).format(),
    {
        if self.live {
            let n: isize = self.refs + r;
            self.refs = n;
            if n <= 0 {
                self.live = false;
                self.bytes = None;
            }
        }
    }

    /// Transfers ownership of `bytes` into the buffer; they will be freed
    /// exactly once, during teardown or when replaced. The byte count must
    /// match the geometry the format tag implies: a mismatch is undefined at
    /// the engine boundary and is the caller's responsibility, so it is ruled
    /// out here.
    pub fn attach_data(&mut self, bytes: Vec<u8>)
        requires
            old(self).alive(),
            geometry_matches(old(self).format(), old(self).width(), old(self).height(), bytes@.len()),
        ensures
            final(self).alive(),
            final(self).data() == Some(bytes@),
            final(self).width() == old(self).width(),
            final(self).height() == old(self).height(),
            final(self).format() == old(self).format(),
            final(self).refs() == old(self).refs(),
    {
        self.bytes = Some(bytes);
    }

    /// Releases the engine object exactly once; any still-attached pixel
    /// bytes are freed with it. A second call is a no-op, never a double
    /// free: the destroyed handle stays inert.
    pub fn destroy(&mut self)
        ensures
            !final(self).alive(),
            !old(self).alive() ==> *final(self) == *old(self),
            old(self).alive() ==> final(self).data() is None && final(self).refs() == 0,
            final(self).width() == old(self).width(),
            final(self).height() == old(self).height(),
            final(self).format() == old(self).format(),
    {
        if self.live {
            self.live = false;
            self.refs = 0;
            self.bytes = None;
        }
    }

    /// Whether the handle is still alive.
    pub fn is_alive(&self) -> (r: bool)
        ensures
            r == self.alive(),
    {
        self.live
    }

    /// The declared width.
    pub fn get_width(&self) -> (r: u32)
        ensures
            r == self.width(),
    {
        self.w
    }

    /// The declared height.
    pub fn get_height(&self) -> (r: u32)
        ensures
            r == self.height(),
    {
        self.h
    }

    /// The declared format tag.
    pub fn get_format(&self) -> (r: u32)
        ensures
            r == self.format(),
    {
        self.fmt
    }
}

impl Default for ZBarImage {
    /// The default buffer is a fresh one, exactly as `new` makes it.
    fn default() -> (r: Self)
        ensures
            r.alive(),
            r.width() == 0,
            r.height() == 0,
            r.format() == 0,
            r.refs() == 1,
            r.data() is None,
    {
        ZBarImage::new()
    }
}

} // verus!
