use vstd::prelude::*;

verus! {

/// Errors surfaced while building the combat dataset or resolving lookups.
///
/// `ParseError` covers a malformed or missing configuration block,
/// `BoundsError` an out-of-range or unknown value requested by a caller,
/// and `ConversionError` a move record used against the sign of its energy
/// delta.
#[derive(Debug)]
pub enum Error {
    ParseError(String),
    BoundsError(String),
    ConversionError(String),
}

impl Error {
    pub open spec fn is_parse(&self) -> bool {
        self matches Error::ParseError(_)
    }

    pub open spec fn is_bounds(&self) -> bool {
        self matches Error::BoundsError(_)
    }

    pub open spec fn is_conversion(&self) -> bool {
        self matches Error::ConversionError(_)
    }

    /// A short description of the error, for callers that print it.
    pub fn describe(&self) -> (r: &str)
        ensures
            self.is_parse() ==> r@ == "configuration parse error"@,
            self.is_bounds() ==> r@ == "value out of bounds"@,
            self.is_conversion() ==> r@ == "move record conversion error"@,
    {
        match self {
            Error::ParseError(_) => "configuration parse error",
            Error::BoundsError(_) => "value out of bounds",
            Error::ConversionError(_) => "move record conversion error",
        }
    }
}

} // verus!
