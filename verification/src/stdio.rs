//! A carrier for a native blocking stream. The protocol engine itself never
//! touches the stream; the embedding program wraps its stream in this type
//! and gives it the stream-facing read/write adapters it needs.
use vstd::prelude::*;

verus! {

/// Wraps a native duplex stream so the embedding program can adapt it to the
/// byte-stream interface the protocol requires.
pub struct StdIo<IO> {
    io: IO,
}

impl<IO> StdIo<IO> {
    /// The wrapped stream.
    pub closed spec fn inner(&self) -> IO {
        self.io
    }

    /// Borrow the wrapped stream.
    pub fn get_inner(&mut self) -> (r: &IO)
        ensures
            *final(self) == *old(self),
            *r == old(self).inner(),
    {
        &self.io
    }

    /// Borrow the wrapped stream mutably, to drive it directly (for example
    /// to shut a connection down).
    pub fn get_inner_mut(&mut self) -> (r: &mut IO)
        ensures
            *r == old(self).inner(),
            final(self).inner() == *final(r),
    {
        &mut self.io
    }
}

impl<IO> From<IO> for StdIo<IO> {
    fn from(value: IO) -> (r: Self) {
        StdIo { io: value }
    }
}

impl<IO> vstd::std_specs::convert::FromSpecImpl<IO> for StdIo<IO> {
    open spec fn obeys_from_spec() -> bool {
        true
    }

    closed spec fn from_spec(v: IO) -> Self {
        StdIo { io: v }
    }
}

} // verus!
