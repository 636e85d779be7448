use vstd::prelude::*;

verus! {

/// The category of data that a decoded response lacked.
#[derive(Debug, Clone, Copy, PartialEq, Eq, Structural)]
pub enum ExtractionError {
    Image,
    Metadata,
}

/// A failure returned as a value by the library.
#[derive(Debug)]
pub enum Error {
    /// A decoded response lacked an expected field.
    Extraction(ExtractionError, &'static str),
    /// A transport-level failure, with the text of its cause.
    Network(String),
    /// A rate limit was exceeded; the duration is the wait required.
    Wait(std::time::Duration),
}

/// The extraction category of an error, if it is an extraction failure.
pub open spec fn extraction_kind(e: Error) -> Option<ExtractionError> {
    match e {
        Error::Extraction(k, _) => Some(k),
        _ => None,
    }
}

impl Error {
    /// The extraction category of this error, if it is an extraction failure.
    pub fn extraction(&self) -> (r: Option<ExtractionError>)
        ensures
            r == extraction_kind(*self),
    {
        match self {
            Error::Extraction(k, _) => Some(*k),
            _ => None,
        }
    }

    /// A short human-readable description of the failure.
    pub fn describe(&self) -> (r: String)
        ensures
            match *self {
                Error::Extraction(ExtractionError::Image, m) => r@ == "Image extraction failure: "@
                    + m@,
                Error::Extraction(ExtractionError::Metadata, m) => r@
                    == "Metadata extraction failure: "@ + m@,
                Error::Network(cause) => r@ == cause@,
                Error::Wait(_) => r@ == "Rate limit exceeded"@,
            },
    {
        match self {
            Error::Extraction(ExtractionError::Image, m) => {
                let mut s = String::from_str("Image extraction failure: ");
                s.append(m);
                s
            },
            Error::Extraction(ExtractionError::Metadata, m) => {
                let mut s = String::from_str("Metadata extraction failure: ");
                s.append(m);
                s
            },
            Error::Network(cause) => cause.clone(),
            Error::Wait(_) => String::from_str("Rate limit exceeded"),
        }
    }
}

} // verus!
