//! Error types: the hard generation-time failures, and the error values
//! that the emitted wrappers report at call time.
use vstd::prelude::*;

verus! {

/// A hard generation-time failure: the whole scope is abandoned.
#[derive(Debug)]
pub enum GenError {
    /// The scope configuration names no library.
    MissingLibraryName,
    /// The scope configuration names no argument-conversion mode.
    MissingArgConvert,
    /// A declared function has no return type; the payload is its name.
    MissingReturnType(String),
    /// An annotation payload does not lex as an expression; the payload is
    /// the offending text.
    InvalidExpression(String),
}

/// The general-purpose error of emitted wrapper code.
pub enum CFFIGeneralError {
    /// A value that must not be null was null.
    NullAssertError,
    /// Any other failure, carrying a message.
    Other(String),
}

/// The error reported by the wrappers emitted for the example library
/// scope: dedicated variants for the lifecycle pair, one generic variant
/// carrying the failing wrapper's name for everything else.
pub enum DxLibError {
    InitializeError,
    FinalizeError,
    Other(String),
}

impl CFFIGeneralError {
    /// A diagnostic message for the error.
    pub fn message(&self) -> (r: String)
        ensures
            self is NullAssertError ==> r@ == "The value is null."@,
            self matches CFFIGeneralError::Other(m) ==> r@ == m@,
    {
        match self {
            CFFIGeneralError::NullAssertError => "The value is null.".to_owned(),
            CFFIGeneralError::Other(m) => m.clone(),
        }
    }
}

impl DxLibError {
    /// A diagnostic message for the error.
    pub fn message(&self) -> (r: String)
        ensures
            self is InitializeError ==> r@ == "Failed to DxLib_Init()"@,
            self is FinalizeError ==> r@ == "Failed to DxLib_End()"@,
            self matches DxLibError::Other(m) ==> r@ == m@,
    {
        match self {
            DxLibError::InitializeError => "Failed to DxLib_Init()".to_owned(),
            DxLibError::FinalizeError => "Failed to DxLib_End()".to_owned(),
            DxLibError::Other(m) => m.clone(),
        }
    }
}

} // verus!
