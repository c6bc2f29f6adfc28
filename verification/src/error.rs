//! The closed error taxonomy shared by both roles: transport failures wrap
//! the stream's native error, protocol failures carry the offending request's
//! coordinates.
use crate::nak::NakCode;
use vstd::prelude::*;

verus! {

/// Errors a Primary client or Secondary server can return.
#[derive(Debug, PartialEq, PartialOrd, Clone, Copy)]
pub enum Error<E> {
    /// Underlying stream failure, wrapping the transport's native error.
    Io(E),
    /// The peer explicitly rejected the request with this NAK code.
    Nak(NakCode),
    SecondaryFailure,
    BadCrc,
    /// Attempted to access this register index, which is out of bounds.
    OutOfBounds(u16),
    /// The stream closed mid-packet.
    IncompletePacket,
    /// Attempted to write this many registers from this index into a
    /// write-protected range.
    IndexWriteProtected(u8, u16),
    /// Accessing this many registers from this index exceeds bounds.
    CountExceedsBounds(u8, u16),
}

impl<E> From<E> for Error<E> {
    fn from(value: E) -> (r: Self) {
        Error::Io(value)
    }
}

impl<E> vstd::std_specs::convert::FromSpecImpl<E> for Error<E> {
    open spec fn obeys_from_spec() -> bool {
        true
    }

    open spec fn from_spec(v: E) -> Self {
        Error::Io(v)
    }
}

/// The error a server records when a polled packet carried this NAK code,
/// with the packet's count and start register for the range-related codes.
/// An `Unknown` code is kept as a NAK rather than treated as fatal.
pub open spec fn spec_error_of_nak<E>(code: NakCode, count: u8, start_register: u16) -> Error<E> {
    match code {
        NakCode::Unknown => Error::Nak(NakCode::Unknown),
        NakCode::SecondaryFailure => Error::SecondaryFailure,
        NakCode::BadCrc => Error::BadCrc,
        NakCode::OutOfBounds => Error::OutOfBounds(start_register),
        NakCode::IncompletePacket => Error::IncompletePacket,
        NakCode::IndexWriteProtected => Error::IndexWriteProtected(count, start_register),
        NakCode::CountExceedsBounds => Error::CountExceedsBounds(count, start_register),
    }
}

/// Turn a NAK code carried by a polled packet into the error a server logs.
pub fn error_of_nak<E>(code: NakCode, count: u8, start_register: u16) -> (r: Error<E>)
    ensures
        r == spec_error_of_nak::<E>(code, count, start_register),
{
    match code {
        NakCode::Unknown => Error::Nak(NakCode::Unknown),
        NakCode::SecondaryFailure => Error::SecondaryFailure,
        NakCode::BadCrc => Error::BadCrc,
        NakCode::OutOfBounds => Error::OutOfBounds(start_register),
        NakCode::IncompletePacket => Error::IncompletePacket,
        NakCode::IndexWriteProtected => Error::IndexWriteProtected(count, start_register),
        NakCode::CountExceedsBounds => Error::CountExceedsBounds(count, start_register),
    }
}

} // verus!
