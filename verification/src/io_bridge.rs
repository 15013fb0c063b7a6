use vstd::prelude::*;
use crate::AVERROR_EOF;

verus! {

/// Positioning mode for an absolute seek: from the start.
pub const SEEK_WHENCE_SET: i32 = 0;

/// Positioning mode for a relative seek: from the current position.
pub const SEEK_WHENCE_CUR: i32 = 1;

/// Positioning mode for an end-relative seek.
pub const SEEK_WHENCE_END: i32 = 2;

/// Whether a pull request of `size` bytes must fail closed: a request
/// at or beyond the address-space-safe maximum is answered with the
/// end-of-stream sentinel instead of being attempted, so no
/// overflow-driven out-of-bounds read can happen.
pub fn oversized_read_request(size: i64) -> (r: bool)
    ensures
        r == (size >= isize::MAX as i64),
{
    size >= isize::MAX as i64
}

/// The reply the engine's pull callback gives for one read attempt on
/// the adapted object: a zero-byte read signals end of stream, a read
/// error is compressed to the same sentinel (the engine has no richer
/// channel), and a successful read reports its byte count.
pub fn map_read_outcome(read: Option<usize>) -> (r: i32)
    requires
        read matches Some(n) ==> n <= 0x7fff_ffff,
    ensures
        match read {
            None => r == AVERROR_EOF,
            Some(n) => if n == 0 {
                r == AVERROR_EOF
            } else {
                r == n as i32
            },
        },
{
    match read {
        None => AVERROR_EOF,
        Some(n) => {
            if n == 0 {
                AVERROR_EOF
            } else {
                n as i32
            }
        },
    }
}

/// The reply the engine's push callback gives after writing one byte
/// range: the full requested size when every byte went out, the error
/// sentinel otherwise.
pub fn map_write_outcome(wrote_all: bool, size: i32) -> (r: i32)
    ensures
        wrote_all ==> r == size,
        !wrote_all ==> r == AVERROR_EOF,
{
    if wrote_all {
        size
    } else {
        AVERROR_EOF
    }
}

/// Where one seek request points on the adapted object.
#[derive(Clone, Copy, Debug, PartialEq, Eq, Structural)]
pub enum SeekTarget {
    /// `offset` bytes from the start; the offset is non-negative here.
    Start(i64),
    /// `offset` bytes from the current position.
    Current(i64),
    /// `offset` bytes from the end.
    End(i64),
}

/// Sort one seek request into a target on the adapted object; `None`
/// for a positioning mode this bridge does not support.
pub fn seek_target(whence: i32, offset: i64) -> (r: Option<SeekTarget>)
    requires
        whence == SEEK_WHENCE_SET ==> offset >= 0,
    ensures
        whence == SEEK_WHENCE_SET ==> r == Some(SeekTarget::Start(offset)),
        whence == SEEK_WHENCE_CUR ==> r == Some(SeekTarget::Current(offset)),
        whence == SEEK_WHENCE_END ==> r == Some(SeekTarget::End(offset)),
        whence != SEEK_WHENCE_SET && whence != SEEK_WHENCE_CUR && whence != SEEK_WHENCE_END ==> r
            is None,
{
    if whence == SEEK_WHENCE_SET {
        Some(SeekTarget::Start(offset))
    } else if whence == SEEK_WHENCE_CUR {
        Some(SeekTarget::Current(offset))
    } else if whence == SEEK_WHENCE_END {
        Some(SeekTarget::End(offset))
    } else {
        None
    }
}

/// The station where the adapted byte source or sink crosses the
/// engine boundary: it is parked here at setup, and teardown reclaims
/// it exactly once. The second reclaim attempt yields nothing instead
/// of a second release, and the backing buffer the engine allocates is
/// a different resource altogether — never this one.
#[derive(Debug)]
pub struct AdapterSlot<T> {
    obj: Option<T>,
}

impl<T> AdapterSlot<T> {
    /// What the slot holds.
    pub closed spec fn spec_obj(self) -> Option<T> {
        self.obj
    }

    /// Park the adapted object in the slot.
    pub fn new(obj: T) -> (r: AdapterSlot<T>)
        ensures
            r.spec_obj() == Some(obj),
    {
        AdapterSlot { obj: Some(obj) }
    }

    /// Whether the slot still holds the object.
    pub fn is_engaged(&self) -> (r: bool)
        ensures
            r == (self.spec_obj() is Some),
    {
        self.obj.is_some()
    }

    /// Take the object back out. The first reclaim returns it and
    /// empties the slot; every later one returns nothing, so the object
    /// can never be released twice through this station.
    pub fn reclaim(&mut self) -> (r: Option<T>)
        ensures
            r == old(self).spec_obj(),
            final(self).spec_obj() is None,
    {
        self.obj.take()
    }
}

} // verus!
