use vstd::prelude::*;

verus! {

/// The error taxonomy of the library.  Every failure surfaces immediately to
/// the caller as one of these variants; there are no retries and no partial
/// results.
#[derive(Clone, Copy, Debug, PartialEq, Eq, Structural)]
pub enum Error {
    /// A supplied timestamp string cannot be parsed into the protocol's
    /// date representation.
    DateFormatError,
    /// A fixed-field value supplied at runtime does not match its spec's
    /// required length.
    FixedFieldLengthError,
    /// Unknown message code, insufficient text for a fixed field, or invalid
    /// text encoding.
    MessageFormatError,
    /// A connect, write or shutdown failure on the transport.
    NetworkError,
    /// The peer sent zero bytes: nothing was answered, though the transport
    /// itself did not break.
    NoResponseError,
}

impl Error {
    /// A short human-readable description of the error.
    pub fn message(&self) -> (r: String)
        ensures
            r@ == self.message_text(),
    {
        match self {
            Error::DateFormatError => "date format error".to_owned(),
            Error::FixedFieldLengthError => "fixed field length error".to_owned(),
            Error::MessageFormatError => "sip message format error".to_owned(),
            Error::NetworkError => "network error".to_owned(),
            Error::NoResponseError => "no response error".to_owned(),
        }
    }

    /// What `message` returns for each variant.
    pub open spec fn message_text(self) -> Seq<char> {
        match self {
            Error::DateFormatError => "date format error"@,
            Error::FixedFieldLengthError => "fixed field length error"@,
            Error::MessageFormatError => "sip message format error"@,
            Error::NetworkError => "network error"@,
            Error::NoResponseError => "no response error"@,
        }
    }
}

} // verus!
