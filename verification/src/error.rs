//! Error taxonomy of the proxy: errors of the translation step itself,
//! and the wider set a session can report, from engine loading failures to
//! protocol-level faults that end a connection.

use vstd::prelude::*;

verus! {

/// An error of the translation step itself.
#[derive(Debug, Clone)]
pub enum TransErr {
    /// The translate call returned a null pointer.
    NullPointer,
    /// Translation failed.
    Failed,
    /// The engine's reply could not be decoded from EUC-KR.
    EucKrDecodeFailed,
}

impl TransErr {
    /// The human-readable description of the error.
    pub open spec fn spec_message(&self) -> Seq<char> {
        match self {
            TransErr::NullPointer => "TRANSLATE func returned a null pointer"@,
            TransErr::Failed => "Translation failed"@,
            TransErr::EucKrDecodeFailed => "EUC-KR decoding failed"@,
        }
    }

    /// Renders the human-readable description of the error.
    pub fn message(&self) -> (r: String)
        ensures
            r@ == self.spec_message(),
    {
        match self {
            TransErr::NullPointer => String::from_str("TRANSLATE func returned a null pointer"),
            TransErr::Failed => String::from_str("Translation failed"),
            TransErr::EucKrDecodeFailed => String::from_str("EUC-KR decoding failed"),
        }
    }
}

/// The standard-library error for ill-formed UTF-16, so that it can be
/// converted into the session's own error type.
#[verifier::external_type_specification]
#[verifier::external_body]
pub struct ExFromUtf16Error(std::string::FromUtf16Error);

/// Any error a session can report: engine failures, bad inputs, and the
/// protocol-level faults that end a connection.
#[derive(Debug)]
pub enum EzTransError {
    /// A translation failed.
    TranslationError(TransErr),
    /// A string held an interior NUL and could not be passed to the engine.
    InvalidString,
    /// A buffer was not valid UTF-16.
    Utf16Error,
    /// The engine library path was not valid.
    InvalidPath,
    /// The engine library could not be loaded.
    DllLoadError(String),
    /// A required engine function was missing.
    FunctionLoadError(String),
    /// An engine function reported failure.
    FunctionCallFailed(String),
    /// The duplex channel could not be set up.
    PipeError(String),
    /// A read returned fewer bytes than the record requires.
    IncompleteRead,
    /// A write accepted fewer bytes than the record holds.
    IncompleteWrite,
    /// A header carried a command code outside the protocol.
    InvalidCommand(u32),
}

impl EzTransError {
    /// The human-readable description of the error.
    pub open spec fn spec_message(&self) -> Seq<char> {
        match self {
            EzTransError::TranslationError(e) => "Failed to translate: "@ + e.spec_message(),
            EzTransError::InvalidString => "Invalid string"@,
            EzTransError::Utf16Error => "utf16 error"@,
            EzTransError::InvalidPath => "Invalid dll path"@,
            EzTransError::DllLoadError(d) => "Failed to load dll: "@ + d@,
            EzTransError::FunctionLoadError(d) => "Failed to load funtion: "@ + d@,
            EzTransError::FunctionCallFailed(d) => "Failed to call function: "@ + d@,
            EzTransError::PipeError(d) => "Pipe error: "@ + d@,
            EzTransError::IncompleteRead => "Incomplete read"@,
            EzTransError::IncompleteWrite => "Incomplete write"@,
            EzTransError::InvalidCommand(_) => "Invalid command"@,
        }
    }

    /// Renders the human-readable description of the error.
    pub fn message(&self) -> (r: String)
        ensures
            r@ == self.spec_message(),
    {
        match self {
            EzTransError::TranslationError(e) => String::from_str(
                "Failed to translate: ",
            ).concat(e.message().as_str()),
            EzTransError::InvalidString => String::from_str("Invalid string"),
            EzTransError::Utf16Error => String::from_str("utf16 error"),
            EzTransError::InvalidPath => String::from_str("Invalid dll path"),
            EzTransError::DllLoadError(d) => String::from_str("Failed to load dll: ").concat(
                d.as_str(),
            ),
            EzTransError::FunctionLoadError(d) => String::from_str(
                "Failed to load funtion: ",
            ).concat(d.as_str()),
            EzTransError::FunctionCallFailed(d) => String::from_str(
                "Failed to call function: ",
            ).concat(d.as_str()),
            EzTransError::PipeError(d) => String::from_str("Pipe error: ").concat(d.as_str()),
            EzTransError::IncompleteRead => String::from_str("Incomplete read"),
            EzTransError::IncompleteWrite => String::from_str("Incomplete write"),
            EzTransError::InvalidCommand(_) => String::from_str("Invalid command"),
        }
    }
}

impl core::convert::From<TransErr> for EzTransError {
    /// A translation error becomes a session error carrying it.
    fn from(e: TransErr) -> (r: EzTransError) {
        EzTransError::TranslationError(e)
    }
}

impl vstd::std_specs::convert::FromSpecImpl<TransErr> for EzTransError {
    open spec fn obeys_from_spec() -> bool {
        true
    }

    open spec fn from_spec(e: TransErr) -> EzTransError {
        EzTransError::TranslationError(e)
    }
}

impl core::convert::From<std::string::FromUtf16Error> for EzTransError {
    /// An ill-formed UTF-16 buffer becomes a session error.
    fn from(_e: std::string::FromUtf16Error) -> (r: EzTransError) {
        EzTransError::Utf16Error
    }
}

impl vstd::std_specs::convert::FromSpecImpl<std::string::FromUtf16Error> for EzTransError {
    open spec fn obeys_from_spec() -> bool {
        true
    }

    open spec fn from_spec(_e: std::string::FromUtf16Error) -> EzTransError {
        EzTransError::Utf16Error
    }
}

} // verus!
