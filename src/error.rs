use crate::text::push_str;
use vstd::prelude::*;

verus! {

/// The kinds of failure of the pipeline and its components. The kinds that
/// wrap a cause keep that cause's description.
#[derive(Debug, Clone, PartialEq, Eq)]
pub enum Error {
    /// The byte source or sink failed.
    Io(String),
    /// The container's structural bytes are malformed or not recognised.
    InvalidFormat,
    /// The codec is invalid or not supported.
    InvalidCodec,
    /// A decoder failed on its input.
    DecodeError(String),
    /// An encoder failed on its input.
    EncodeError(String),
    /// A failure of a collaborator that fits none of the other kinds.
    Custom(String),
}

pub type Result<T> = core::result::Result<T, Error>;

/// The message that describes an error.
pub open spec fn error_text(e: Error) -> Seq<char> {
    match e {
        Error::Io(c) => "IO error: "@ + c@,
        Error::InvalidFormat => "Invalid format"@,
        Error::InvalidCodec => "Invalid codec"@,
        Error::DecodeError(c) => "Decode error: "@ + c@,
        Error::EncodeError(c) => "Encode error: "@ + c@,
        Error::Custom(c) => "Custom error: "@ + c@,
    }
}

impl Error {
    /// The message that describes the error, with its cause where it has one.
    pub fn to_string(&self) -> (r: String)
        ensures
            r@ == error_text(*self),
    {
        let mut s = String::new();
        match self {
            Error::Io(c) => {
                push_str(&mut s, "IO error: ");
                push_str(&mut s, c.as_str());
            },
            Error::InvalidFormat => push_str(&mut s, "Invalid format"),
            Error::InvalidCodec => push_str(&mut s, "Invalid codec"),
            Error::DecodeError(c) => {
                push_str(&mut s, "Decode error: ");
                push_str(&mut s, c.as_str());
            },
            Error::EncodeError(c) => {
                push_str(&mut s, "Encode error: ");
                push_str(&mut s, c.as_str());
            },
            Error::Custom(c) => {
                push_str(&mut s, "Custom error: ");
                push_str(&mut s, c.as_str());
            },
        }
        s
    }
}

} // verus!
