//! The error type shared by the kernels and the exporters.
use vstd::prelude::*;
use vstd::string::to_string_from_display_ensures;

verus! {

/// `std::io::Error`, carried through `CoreError::Io` without looking inside.
#[verifier::external_type_specification]
#[verifier::external_body]
pub struct ExIoError(std::io::Error);

/// `serde_json::Error`, carried through `CoreError::Serde` without looking inside.
#[verifier::external_type_specification]
#[verifier::external_body]
pub struct ExJsonError(serde_json::Error);

/// Everything that can go wrong while ingesting or exporting a model.
#[derive(Debug)]
pub enum CoreError {
    /// The geometry kernel failed; the text says how.
    Kernel(String),
    /// The STEP data could not be read; the text says why.
    StepParse(String),
    /// A kernel handle that names no shape.
    InvalidHandle,
    /// A scale factor that is not positive.
    InvalidScale,
    /// An I/O failure.
    Io(std::io::Error),
    /// A JSON (de)serialisation failure.
    Serde(serde_json::Error),
    /// A feature that is not there yet; the text names it.
    NotImplemented(&'static str),
}

impl CoreError {
    /// The human readable text of the error, the one its `Display` gives.
    pub fn message(&self) -> (text: String)
        ensures
            match self {
                CoreError::Kernel(s) => text@ == "kernel error: "@ + s@,
                CoreError::StepParse(s) => text@ == "STEP parsing failed: "@ + s@,
                CoreError::InvalidHandle => text@ == "invalid handle"@,
                CoreError::InvalidScale => text@ == "scale factor must be > 0"@,
                CoreError::Io(e) => exists|t: String|
                    to_string_from_display_ensures::<std::io::Error>(e, t) && text@ == "I/O error: "@ + t@,
                CoreError::Serde(e) => exists|t: String|
                    to_string_from_display_ensures::<serde_json::Error>(e, t)
                        && text@ == "serialization error: "@ + t@,
                CoreError::NotImplemented(s) => text@ == "not implemented: "@ + s@,
            },
    {
        match self {
            CoreError::Kernel(s) => String::from_str("kernel error: ").concat(s.as_str()),
            CoreError::StepParse(s) => String::from_str("STEP parsing failed: ").concat(s.as_str()),
            CoreError::InvalidHandle => String::from_str("invalid handle"),
            CoreError::InvalidScale => String::from_str("scale factor must be > 0"),
            CoreError::Io(e) => {
                let t = e.to_string();
                String::from_str("I/O error: ").concat(t.as_str())
            },
            CoreError::Serde(e) => {
                let t = e.to_string();
                String::from_str("serialization error: ").concat(t.as_str())
            },
            CoreError::NotImplemented(s) => String::from_str("not implemented: ").concat(*s),
        }
    }
}

impl From<std::io::Error> for CoreError {
    fn from(e: std::io::Error) -> (r: Self) {
        CoreError::Io(e)
    }
}

impl vstd::std_specs::convert::FromSpecImpl<std::io::Error> for CoreError {
    open spec fn obeys_from_spec() -> bool {
        true
    }

    open spec fn from_spec(e: std::io::Error) -> Self {
        CoreError::Io(e)
    }
}

impl From<serde_json::Error> for CoreError {
    fn from(e: serde_json::Error) -> (r: Self) {
        CoreError::Serde(e)
    }
}

impl vstd::std_specs::convert::FromSpecImpl<serde_json::Error> for CoreError {
    open spec fn obeys_from_spec() -> bool {
        true
    }

    open spec fn from_spec(e: serde_json::Error) -> Self {
        CoreError::Serde(e)
    }
}

} // verus!
