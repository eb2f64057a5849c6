//! The ways in which a signaling message can be refused.

use vstd::prelude::*;

verus! {

/// Why a pasted signaling message, or a payload, was not accepted.
#[derive(Clone, Copy, Debug, PartialEq, Eq, Structural)]
pub enum SignalError {
    /// The text is not padded standard base64 in canonical form.
    InvalidBase64,
    /// The bytes are not UTF-8 text.
    InvalidUtf8,
    /// The text is not a JSON document.
    InvalidJson,
    /// The JSON document has no member `type` that is a string.
    MissingType,
    /// The member `type` is none of the four descriptor kinds.
    UnknownType,
    /// The JSON document has no member `sdp` that is a string.
    MissingSdp,
    /// The descriptor is of another kind than the role expects from its peer.
    UnexpectedKind,
    /// The text is too long for its base64 form to be addressed.
    TooLong,
}

impl SignalError {
    /// What went wrong, in words.
    pub open spec fn text(self) -> Seq<char> {
        match self {
            SignalError::InvalidBase64 => "the text is not base64"@,
            SignalError::InvalidUtf8 => "the bytes are not UTF-8 text"@,
            SignalError::InvalidJson => "the text is not JSON"@,
            SignalError::MissingType => "the descriptor has no type"@,
            SignalError::UnknownType => "the descriptor is of no known type"@,
            SignalError::MissingSdp => "the descriptor has no sdp"@,
            SignalError::UnexpectedKind => "the descriptor is not of the kind that was expected"@,
            SignalError::TooLong => "the descriptor is too long"@,
        }
    }

    /// What went wrong, in words.
    pub fn describe(&self) -> (r: &'static str)
        ensures
            r@ == self.text(),
    {
        match self {
            SignalError::InvalidBase64 => "the text is not base64",
            SignalError::InvalidUtf8 => "the bytes are not UTF-8 text",
            SignalError::InvalidJson => "the text is not JSON",
            SignalError::MissingType => "the descriptor has no type",
            SignalError::UnknownType => "the descriptor is of no known type",
            SignalError::MissingSdp => "the descriptor has no sdp",
            SignalError::UnexpectedKind => "the descriptor is not of the kind that was expected",
            SignalError::TooLong => "the descriptor is too long",
        }
    }
}

} // verus!
