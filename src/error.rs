//! The library's error type.
use vstd::prelude::*;

verus! {

/// Why an operation failed; each variant carries a diagnostic text.
#[derive(Debug, PartialEq, Eq)]
pub enum UnifyError {
    /// The binary's structural view could not be produced.
    Parse(String),
    /// The caller handed in a malformed value, such as a bad hex pattern.
    InvalidArgument(String),
    /// No disassembler exists for the binary's architecture.
    UnsupportedArch(String),
    /// The disassembler failed on the code it was given.
    DisasmError(String),
    /// A file could not be read or written.
    Io(String),
    /// The operation exists only as an interface.
    NotImplemented(String),
    /// Any other failure.
    Internal(String),
}

impl UnifyError {
    /// The diagnostic text that the error carries.
    pub fn detail(&self) -> (r: &String)
        ensures
            r == match self {
                UnifyError::Parse(m) => m,
                UnifyError::InvalidArgument(m) => m,
                UnifyError::UnsupportedArch(m) => m,
                UnifyError::DisasmError(m) => m,
                UnifyError::Io(m) => m,
                UnifyError::NotImplemented(m) => m,
                UnifyError::Internal(m) => m,
            },
    {
        match self {
            UnifyError::Parse(m) => m,
            UnifyError::InvalidArgument(m) => m,
            UnifyError::UnsupportedArch(m) => m,
            UnifyError::DisasmError(m) => m,
            UnifyError::Io(m) => m,
            UnifyError::NotImplemented(m) => m,
            UnifyError::Internal(m) => m,
        }
    }
}

} // verus!
