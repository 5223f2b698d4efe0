use vstd::prelude::*;

verus! {

/// Errors raised while turning Neovim messages into grid data.
#[derive(Debug, PartialEq, Eq, Clone, Copy)]
pub enum BridgeErrors {
    ConversionError,
}

impl BridgeErrors {
    /// The human-readable description of the error.
    pub fn to_string(&self) -> (s: String)
        ensures
            s@ == "Got conversion error"@,
    {
        match self {
            BridgeErrors::ConversionError => String::from_str("Got conversion error"),
        }
    }
}

} // verus!
