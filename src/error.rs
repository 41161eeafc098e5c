use vstd::prelude::*;

verus! {

/// The one error of the library: an argument that is not understood.
#[derive(Debug, Clone)]
pub enum RandomGeojsonError {
    InvalidArgument(String),
}

/// The text that an error carries.
pub open spec fn detail_of(e: RandomGeojsonError) -> Seq<char> {
    match e {
        RandomGeojsonError::InvalidArgument(m) => m@,
    }
}

/// The human-readable form of an error.
pub open spec fn message_of(e: RandomGeojsonError) -> Seq<char> {
    "Invalid argument: "@ + detail_of(e)
}

impl RandomGeojsonError {
    /// The human-readable form of the error: `Invalid argument: <detail>`.
    pub fn message(&self) -> (r: String)
        ensures
            r@ == message_of(*self),
    {
        let head = String::from_str("Invalid argument: ");
        match self {
            RandomGeojsonError::InvalidArgument(m) => head.concat(m.as_str()),
        }
    }
}

} // verus!
