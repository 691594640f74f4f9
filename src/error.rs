use vstd::prelude::*;
use crate::auth::AuthConfigError;
use crate::fill::TemplateFillError;

verus! {

/// The first failure of a provisioning run.
#[derive(Debug, Clone, PartialEq, Eq)]
pub enum SetupError {
    /// The template could not be read from the given path.
    TemplateNotFound(String),
    /// No single authentication method was supplied.
    Auth(AuthConfigError),
    /// The template could not be filled.
    Fill(TemplateFillError),
    /// The platform offers no per-user configuration directory.
    DestinationUnresolvable,
    /// The configuration file could not be written.
    WriteFailed,
    /// The file was written, but its permissions could not be restricted:
    /// it stays on disk unhardened.
    WrittenUnhardened,
}

pub open spec fn not_found_message(path: Seq<char>) -> Seq<char> {
    "Unable to find "@ + path + "; did you execute the script from the same directory?"@
}

/// The human-readable text of each error.
pub open spec fn error_message(e: SetupError) -> Seq<char> {
    match e {
        SetupError::TemplateNotFound(path) => not_found_message(path@),
        SetupError::Auth(AuthConfigError::MissingCredential) =>
            "Either a bot password or an OAuth2 token must be given"@,
        SetupError::Auth(AuthConfigError::ConflictingCredentials) =>
            "A bot password and an OAuth2 token cannot both be given"@,
        SetupError::Fill(TemplateFillError::PlaceholderMismatch) =>
            "The template's placeholders do not match the supplied values"@,
        SetupError::DestinationUnresolvable =>
            "This platform offers no configuration directory for the current user"@,
        SetupError::WriteFailed => "Unable to write the bot config file"@,
        SetupError::WrittenUnhardened =>
            "The bot config file was written, but its permissions could not be restricted; it is readable by others"@,
    }
}

impl SetupError {
    /// Describes the error for the operator.
    pub fn message(&self) -> (r: String)
        ensures
            r@ == error_message(*self),
    {
        match self {
            SetupError::TemplateNotFound(path) => {
                let r = String::from_str("Unable to find ").concat(path.as_str());
                r.concat("; did you execute the script from the same directory?")
            },
            SetupError::Auth(AuthConfigError::MissingCredential) => String::from_str(
                "Either a bot password or an OAuth2 token must be given",
            ),
            SetupError::Auth(AuthConfigError::ConflictingCredentials) => String::from_str(
                "A bot password and an OAuth2 token cannot both be given",
            ),
            SetupError::Fill(TemplateFillError::PlaceholderMismatch) => String::from_str(
                "The template's placeholders do not match the supplied values",
            ),
            SetupError::DestinationUnresolvable => String::from_str(
                "This platform offers no configuration directory for the current user",
            ),
            SetupError::WriteFailed => String::from_str("Unable to write the bot config file"),
            SetupError::WrittenUnhardened => String::from_str(
                "The bot config file was written, but its permissions could not be restricted; it is readable by others",
            ),
        }
    }
}

} // verus!
