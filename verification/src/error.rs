//! Errors reported by the vision library.
use vstd::prelude::*;

verus! {

/// The failures that the vision logic can report.
#[derive(Debug, Clone, PartialEq, Eq)]
pub enum VisionError {
    /// A required tool parameter (its name) was not supplied.
    MissingParameter(String),
    /// The `close` session action was requested without a session id.
    MissingCloseSessionId,
    /// The session tool was given an action it does not know.
    UnknownAction(String),
    /// The (lower-cased) file extension is not a supported image format.
    UnsupportedImageFormat(String),
    /// No client configuration was given and the manager has no default.
    NoClientConfiguration,
    /// The vision model has not been configured for the tools.
    VisionModelNotConfigured,
    /// No session with the requested id exists.
    SessionNotFound,
}

/// The human-readable text of an error.
pub open spec fn error_message(e: VisionError) -> Seq<char> {
    match e {
        VisionError::MissingParameter(name) => "Missing required parameter: "@ + name@,
        VisionError::MissingCloseSessionId =>
            "Missing required parameter: session_id for 'close' action"@,
        VisionError::UnknownAction(action) => "Unknown action: "@ + action@,
        VisionError::UnsupportedImageFormat(ext) => "Unsupported image format: "@ + ext@,
        VisionError::NoClientConfiguration => "No vision client configuration provided"@,
        VisionError::VisionModelNotConfigured =>
            "Vision model not configured. Please set up vision_model in config.toml"@,
        VisionError::SessionNotFound => "Session not found"@,
    }
}

impl VisionError {
    /// The human-readable text of this error.
    pub fn message(&self) -> (r: String)
        ensures
            r@ == error_message(*self),
    {
        match self {
            VisionError::MissingParameter(name) => {
                String::from_str("Missing required parameter: ").concat(name.as_str())
            },
            VisionError::MissingCloseSessionId => {
                String::from_str("Missing required parameter: session_id for 'close' action")
            },
            VisionError::UnknownAction(action) => {
                String::from_str("Unknown action: ").concat(action.as_str())
            },
            VisionError::UnsupportedImageFormat(ext) => {
                String::from_str("Unsupported image format: ").concat(ext.as_str())
            },
            VisionError::NoClientConfiguration => {
                String::from_str("No vision client configuration provided")
            },
            VisionError::VisionModelNotConfigured => {
                String::from_str(
                    "Vision model not configured. Please set up vision_model in config.toml",
                )
            },
            VisionError::SessionNotFound => String::from_str("Session not found"),
        }
    }
}

} // verus!
