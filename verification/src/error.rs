//! The errors surfaced by envelope conversion.

use vstd::prelude::*;

use vstd::string::StringExecFns;

verus! {

/// An error returned when converting between envelopes and typed messages.
#[derive(Debug, Clone, PartialEq, Eq)]
pub enum Error {
    /// The envelope's type identifier did not match the expected one.
    /// Carries both identifiers so that a caller trying several candidate
    /// types in turn can report what was actually found.
    MsgType { expected: &'static str, found: String },
    /// The payload bytes could not be decoded as the expected message, or a
    /// value could not be encoded.  Carries a short description of the defect.
    Codec { detail: String },
}

impl Error {
    /// True exactly when this error reports a mismatched type identifier.
    pub fn is_msg_type(&self) -> (r: bool)
        ensures
            r == (self is MsgType),
    {
        match self {
            Error::MsgType { .. } => true,
            Error::Codec { .. } => false,
        }
    }

    /// A readable description of the error, naming the expected and the found
    /// identifier on a mismatch, and the defect on a codec failure.
    pub fn describe(&self) -> (r: String)
        ensures
            (self matches Error::MsgType { expected, found } ==> r@ == (
            "unexpected message type: found "@ + found@ + ", expected "@ + expected@)),
            (self matches Error::Codec { detail } ==> r@ == "codec error: "@ + detail@),
    {
        match self {
            Error::MsgType { expected, found } => {
                let mut out: String = "unexpected message type: found ".to_owned();
                out.append(found.as_str());
                out.append(", expected ");
                out.append(expected);
                proof {
                    assert(out@ =~= "unexpected message type: found "@ + found@ + ", expected "@
                        + expected@);
                }
                out
            },
            Error::Codec { detail } => {
                let mut out: String = "codec error: ".to_owned();
                out.append(detail.as_str());
                out
            },
        }
    }

    /// True exactly when this error reports a codec failure.
    pub fn is_codec(&self) -> (r: bool)
        ensures
            r == (self is Codec),
    {
        match self {
            Error::MsgType { .. } => false,
            Error::Codec { .. } => true,
        }
    }
}

} // verus!
