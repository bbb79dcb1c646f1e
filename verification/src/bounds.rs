//! The bounds check: every overlay of the frame buffer starts here.

use vstd::prelude::*;

verus! {

/// The one way an overlay can fail: the requested bytes do not lie inside the
/// buffer.
#[derive(Clone, Copy, Debug, PartialEq, Eq, Structural)]
pub struct OutOfBounds;

impl OutOfBounds {
    /// The numeric code under which the failure is reported to callers that
    /// carry errors as integers.
    pub open spec fn spec_code(self) -> u16 {
        1
    }

    /// The numeric code under which the failure is reported to callers that
    /// carry errors as integers.
    #[verifier::when_used_as_spec(spec_code)]
    pub fn code(self) -> (c: u16)
        ensures
            c == self.spec_code(),
    {
        1
    }
}

/// A byte range that was proven to lie inside a buffer. Values of this type
/// come out of [`check`] only.
#[derive(Clone, Copy, Debug)]
pub struct ValidRange {
    start: usize,
    end: usize,
}

impl ValidRange {
    #[verifier::type_invariant]
    spec fn ordered(self) -> bool {
        self.start <= self.end
    }

    /// Position of the first byte of the range.
    pub closed spec fn spec_start(&self) -> usize {
        self.start
    }

    /// Position one past the last byte of the range.
    pub closed spec fn spec_end(&self) -> usize {
        self.end
    }

    /// Position of the first byte of the range.
    #[verifier::when_used_as_spec(spec_start)]
    pub fn start(&self) -> (s: usize)
        ensures
            s == self.spec_start(),
    {
        self.start
    }

    /// Position one past the last byte of the range.
    #[verifier::when_used_as_spec(spec_end)]
    pub fn end(&self) -> (e: usize)
        ensures
            e == self.spec_end(),
    {
        self.end
    }

    /// Number of bytes in the range.
    pub fn size(&self) -> (n: usize)
        ensures
            n == self.spec_end() - self.spec_start(),
    {
        proof {
            use_type_invariant(self);
        }
        self.end - self.start
    }
}

/// Whether `size` bytes at `offset` from `buffer_start` end at or before
/// `buffer_end`. The sum is taken over the integers, so a request that would
/// wrap around the address space does not fit.
pub open spec fn fits(buffer_start: usize, buffer_end: usize, offset: usize, size: usize) -> bool {
    buffer_start + offset + size <= buffer_end
}

/// The `len` bytes of `s` that begin at `offset`.
pub open spec fn window(s: Seq<u8>, offset: usize, len: nat) -> Seq<u8> {
    s.subrange(offset as int, offset + len)
}

/// Validates an access of `size` bytes at `offset` into the buffer
/// `[buffer_start, buffer_end)`.
///
/// Succeeds exactly when the access fits; the range that comes back is the
/// access in absolute positions. Nothing is read or written.
pub fn check(buffer_start: usize, buffer_end: usize, offset: usize, size: usize) -> (r: Result<
    ValidRange,
    OutOfBounds,
>)
    ensures
        r is Ok <==> fits(buffer_start, buffer_end, offset, size),
        r matches Ok(v) ==> v.spec_start() == buffer_start + offset && v.spec_end() == buffer_start
            + offset + size,
{
    let first = match buffer_start.checked_add(offset) {
        Some(p) => p,
        None => {
            return Err(OutOfBounds);
        },
    };
    let last = match first.checked_add(size) {
        Some(p) => p,
        None => {
            return Err(OutOfBounds);
        },
    };
    if last > buffer_end {
        return Err(OutOfBounds);
    }
    Ok(ValidRange { start: first, end: last })
}

/// The window of `frame` that holds `size` bytes at `offset`, once [`check`]
/// has accepted it.
pub fn overlay<'a>(frame: &'a [u8], offset: usize, size: usize) -> (r: Result<&'a [u8], OutOfBounds>)
    ensures
        r is Ok <==> offset + size <= frame@.len(),
        r matches Ok(w) ==> w@ == window(frame@, offset, size as nat),
{
    match check(0, frame.len(), offset, size) {
        Ok(range) => Ok(vstd::slice::slice_subrange(frame, range.start(), range.end())),
        Err(e) => Err(e),
    }
}

/// The writable window of `frame` that holds `size` bytes at `offset`, once
/// [`check`] has accepted it. What is written through the window lands in the
/// frame, at the same place; the bytes around it stay as they were.
pub fn overlay_mut<'a>(frame: &'a mut [u8], offset: usize, size: usize) -> (r: Result<
    &'a mut [u8],
    OutOfBounds,
>)
    ensures
        r is Ok <==> offset + size <= old(frame)@.len(),
        r matches Ok(w) ==> {
            &&& w@ == window(old(frame)@, offset, size as nat)
            &&& final(frame)@ == old(frame)@.subrange(0, offset as int) + final(w)@ + old(
                frame,
            )@.subrange(offset + size, old(frame)@.len() as int)
        },
        r is Err ==> final(frame)@ == old(frame)@,
{
    match check(0, frame.len(), offset, size) {
        Ok(range) => {
            let (_, rest) = frame.split_at_mut(range.start());
            let (w, _) = rest.split_at_mut(size);
            Ok(w)
        },
        Err(e) => Err(e),
    }
}

} // verus!
