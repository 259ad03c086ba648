//! Error types for the library.
//!
//! The taxonomy follows this layer's needs: configuration errors abort
//! circuit construction, validation errors reject bad witness input before
//! any synthesis work, and synthesis errors report a witness that does not
//! satisfy the constraint system.
use vstd::prelude::*;
use vstd::string::StringExecFns;

verus! {

/// Main error type for the library's operations.
#[derive(Debug, Clone)]
pub enum PoneglyphError {
    /// Circuit synthesis error: a witness failed the constraint system.
    Synthesis(String),
    /// Invalid input data error.
    InvalidInput(String),
    /// Validation error: input rejected before synthesis.
    Validation(String),
    /// Serialization/deserialization error.
    Serialization(String),
    /// Configuration error: a malformed or unsupported circuit setup.
    Configuration(String),
}

/// Result type alias for the library's operations.
pub type PoneglyphResult<T> = Result<T, PoneglyphError>;

impl PoneglyphError {
    /// The human-readable description of the error.
    pub open spec fn spec_message(&self) -> Seq<char> {
        match self {
            PoneglyphError::Synthesis(m) => "Synthesis error: "@ + m@,
            PoneglyphError::InvalidInput(m) => "Invalid input: "@ + m@,
            PoneglyphError::Validation(m) => "Validation error: "@ + m@,
            PoneglyphError::Serialization(m) => "Serialization error: "@ + m@,
            PoneglyphError::Configuration(m) => "Configuration error: "@ + m@,
        }
    }

    /// Renders the error as a string, a category prefix followed by the
    /// message the error was raised with.
    pub fn message(&self) -> (r: String)
        ensures
            r@ == self.spec_message(),
    {
        match self {
            PoneglyphError::Synthesis(m) => String::from_str("Synthesis error: ").concat(
                m.as_str(),
            ),
            PoneglyphError::InvalidInput(m) => String::from_str("Invalid input: ").concat(
                m.as_str(),
            ),
            PoneglyphError::Validation(m) => String::from_str("Validation error: ").concat(
                m.as_str(),
            ),
            PoneglyphError::Serialization(m) => String::from_str("Serialization error: ").concat(
                m.as_str(),
            ),
            PoneglyphError::Configuration(m) => String::from_str("Configuration error: ").concat(
                m.as_str(),
            ),
        }
    }
}

} // verus!
