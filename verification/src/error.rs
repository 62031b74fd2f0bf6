use vstd::prelude::*;

verus! {

/// An error raised while decoding a protocol field.
#[derive(Debug, PartialEq, Eq, Structural, Clone, Copy)]
pub enum DecodeError {
    /// The value is not a hash algorithm code this library knows.
    UnknownAlgorithmTypeValue(u8),
    /// A domain-name label is empty or longer than a wire-format label allows.
    InvalidLabel,
}

/// The result of decoding a protocol field.
pub type DecodeResult<T> = Result<T, DecodeError>;

/// An error raised when a buffer is offered to a transport that has
/// already been torn down.
#[derive(Debug, PartialEq, Eq, Structural, Clone, Copy)]
pub enum SendError {
    /// The consuming side of the outbound queue is gone.
    Closed,
}

} // verus!
