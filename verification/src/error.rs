use vstd::prelude::*;
use vstd::string::StringExecFns;

verus! {

/// What went wrong while extracting a typed field from a document.
#[derive(Debug, Clone, Copy, PartialEq, Eq, Structural)]
pub enum FieldErrorKind {
    /// A required field is absent.
    MissingField,
    /// The field is present but holds a value of the wrong shape.
    TypeMismatch,
    /// The field holds a string that names no variant of the target enum.
    InvalidEnumVariant,
}

/// The errors of configuration resolution. Every variant carries enough
/// context (message, service name, or field path) to diagnose the failure.
#[derive(Debug)]
pub enum ConfigError {
    /// The raw text is not a valid configuration document.
    Parse { message: String },
    /// The requested service name has no section in the document.
    SectionNotFound { name: String },
    /// The merged document does not conform to the expected typed shape;
    /// `path` is the exact field path at which conversion failed.
    Deserialize { path: String, kind: FieldErrorKind },
}

impl ConfigError {
    /// What `message` spells out, character by character.
    pub open spec fn spec_message(&self) -> Seq<char> {
        match self {
            ConfigError::Parse { message } => "failed to parse config: "@ + message@,
            ConfigError::SectionNotFound { name } => "no config section found for service: "@
                + name@,
            ConfigError::Deserialize { path, kind } => "failed to parse config at "@ + path@ + (
            match kind {
                FieldErrorKind::MissingField => ": missing field"@,
                FieldErrorKind::TypeMismatch => ": type mismatch"@,
                FieldErrorKind::InvalidEnumVariant => ": unknown variant"@,
            }),
        }
    }

    /// A human-readable description of the error, carrying the context —
    /// message, service name, or field path — needed to diagnose it.
    pub fn message(&self) -> (r: String)
        ensures
            r@ == self.spec_message(),
    {
        match self {
            ConfigError::Parse { message } => {
                let mut s = String::new();
                s.append("failed to parse config: ");
                s.append(message.as_str());
                s
            },
            ConfigError::SectionNotFound { name } => {
                let mut s = String::new();
                s.append("no config section found for service: ");
                s.append(name.as_str());
                s
            },
            ConfigError::Deserialize { path, kind } => {
                let mut s = String::new();
                s.append("failed to parse config at ");
                s.append(path.as_str());
                match kind {
                    FieldErrorKind::MissingField => s.append(": missing field"),
                    FieldErrorKind::TypeMismatch => s.append(": type mismatch"),
                    FieldErrorKind::InvalidEnumVariant => s.append(": unknown variant"),
                }
                s
            },
        }
    }
}

} // verus!
