//! Protocol-level rejection reasons. A request the Secondary cannot honor is
//! answered with a single NAK byte carrying one of these codes in place of
//! the ACK byte.
use vstd::prelude::*;

verus! {

/// Possible NAK codes a Secondary can answer with in place of an ACK.
#[derive(Debug, PartialEq, PartialOrd, Clone, Copy)]
pub enum NakCode {
    Unknown,
    SecondaryFailure,
    BadCrc,
    OutOfBounds,
    IncompletePacket,
    IndexWriteProtected,
    CountExceedsBounds,
}

/// The single wire byte that carries a NAK code.
pub open spec fn spec_nak_byte(code: NakCode) -> u8 {
    match code {
        NakCode::Unknown => 0,
        NakCode::SecondaryFailure => 1,
        NakCode::BadCrc => 2,
        NakCode::OutOfBounds => 3,
        NakCode::IncompletePacket => 4,
        NakCode::IndexWriteProtected => 5,
        NakCode::CountExceedsBounds => 6,
    }
}

/// The NAK code a wire byte names. A byte outside the defined enumeration
/// decodes to `Unknown` rather than failing: an unrecognized rejection is
/// still a rejection.
pub open spec fn spec_nak_of_byte(value: u8) -> NakCode {
    if value == 1 {
        NakCode::SecondaryFailure
    } else if value == 2 {
        NakCode::BadCrc
    } else if value == 3 {
        NakCode::OutOfBounds
    } else if value == 4 {
        NakCode::IncompletePacket
    } else if value == 5 {
        NakCode::IndexWriteProtected
    } else if value == 6 {
        NakCode::CountExceedsBounds
    } else {
        NakCode::Unknown
    }
}

impl NakCode {
    /// The wire byte of this NAK code.
    pub fn to_byte(&self) -> (r: u8)
        ensures
            r == spec_nak_byte(*self),
    {
        match self {
            NakCode::Unknown => 0,
            NakCode::SecondaryFailure => 1,
            NakCode::BadCrc => 2,
            NakCode::OutOfBounds => 3,
            NakCode::IncompletePacket => 4,
            NakCode::IndexWriteProtected => 5,
            NakCode::CountExceedsBounds => 6,
        }
    }
}

impl From<u8> for NakCode {
    fn from(value: u8) -> (r: Self) {
        if value == 1 {
            NakCode::SecondaryFailure
        } else if value == 2 {
            NakCode::BadCrc
        } else if value == 3 {
            NakCode::OutOfBounds
        } else if value == 4 {
            NakCode::IncompletePacket
        } else if value == 5 {
            NakCode::IndexWriteProtected
        } else if value == 6 {
            NakCode::CountExceedsBounds
        } else {
            NakCode::Unknown
        }
    }
}

impl vstd::std_specs::convert::FromSpecImpl<u8> for NakCode {
    open spec fn obeys_from_spec() -> bool {
        true
    }

    open spec fn from_spec(v: u8) -> Self {
        spec_nak_of_byte(v)
    }
}

/// Every defined NAK code survives the trip onto the wire and back: its byte
/// lies inside the enumeration, so the receiver decodes the same code.
pub proof fn lemma_nak_byte_round_trip(code: NakCode)
    ensures
        spec_nak_of_byte(spec_nak_byte(code)) == code,
{
}

} // verus!
