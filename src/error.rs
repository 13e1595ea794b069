use vstd::prelude::*;

use hyper::Error as HttpFailure;
use std::io::Error as IoFailure;

verus! {

#[verifier::external_type_specification]
#[verifier::external_body]
pub struct ExIoError(IoFailure);

#[verifier::external_type_specification]
#[verifier::external_body]
pub struct ExHyperError(HttpFailure);

/// Every failure of the library: the first four classify a datagram that
/// could not be turned into a message, the last two come from the network.
#[derive(Debug)]
pub enum Error {
    /// A mandatory header is absent or unusable; holds the header's name.
    InvalidHeader(String),
    /// The request line names a method other than `M-SEARCH` or `NOTIFY`.
    InvalidMethod(String),
    /// The datagram ends before its header block does.
    InvalidFormat,
    /// The datagram follows neither the request nor the response grammar.
    InvalidPacket,
    /// A socket or stream operation failed.
    IOError(IoFailure),
    /// The HTTP client failed while fetching a descriptor.
    HyperError(HttpFailure),
}

/// What a datagram that failed to parse is rejected as.
pub enum ParseFailure {
    InvalidHeader(Seq<char>),
    InvalidMethod(Seq<char>),
    InvalidFormat,
    InvalidPacket,
}

impl Error {
    /// How the error classifies a rejected datagram, if it is such an error.
    pub open spec fn failure(&self) -> Option<ParseFailure> {
        match *self {
            Error::InvalidHeader(h) => Some(ParseFailure::InvalidHeader(h@)),
            Error::InvalidMethod(m) => Some(ParseFailure::InvalidMethod(m@)),
            Error::InvalidFormat => Some(ParseFailure::InvalidFormat),
            Error::InvalidPacket => Some(ParseFailure::InvalidPacket),
            _ => None,
        }
    }

    /// The error classifies a rejected datagram as `f`.
    pub open spec fn is_failure(&self, f: ParseFailure) -> bool {
        self.failure() == Some(f)
    }

    /// The error is a failure of the socket or stream (fatal to a receive loop).
    pub open spec fn is_io(&self) -> bool {
        self is IOError
    }

    /// Whether this error is a failure of the socket or stream.
    pub fn io_failure(&self) -> (r: bool)
        ensures
            r == self.is_io(),
    {
        match self {
            Error::IOError(_) => true,
            _ => false,
        }
    }
}

} // verus!
