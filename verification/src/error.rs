//! The errors that superfuse reports.
use vstd::prelude::*;
use crate::text::push_all;

verus! {

/// Everything that can go wrong in superfuse. Causes that come from the
/// operating system, the database or the configuration service are kept as
/// the text they were reported with.
#[derive(Debug)]
pub enum SuperfuseError {
    /// No home directory, so no place for the data directory.
    NoDataDir,
    /// A directory of the data tree could not be created.
    CreateDir { path: String, source: String },
    /// The mapping database failed.
    Database(String),
    /// No mapping exists for this virtual path.
    MappingNotFound(String),
    /// A mapping for this virtual path exists already.
    MappingAlreadyExists(String),
    /// The template file does not exist.
    TemplateNotFound(String),
    /// A template could not be rendered.
    Template(String),
    /// An input/output operation failed.
    Io(String),
    /// The configuration provider could not be started.
    Provider(String),
    /// A required environment variable, named here, is not set.
    MissingSetting(String),
}

/// The text that describes an error to the user.
pub open spec fn error_text(e: SuperfuseError) -> Seq<char> {
    match e {
        SuperfuseError::NoDataDir => "could not determine data directory for superfuse"@,
        SuperfuseError::CreateDir { path, source } => "failed to create directory "@ + path@
            + ": "@ + source@,
        SuperfuseError::Database(cause) => "database error: "@ + cause@,
        SuperfuseError::MappingNotFound(p) => "mapping not found for path: "@ + p@,
        SuperfuseError::MappingAlreadyExists(p) => "mapping already exists for path: "@ + p@,
        SuperfuseError::TemplateNotFound(p) => "template file not found: "@ + p@,
        SuperfuseError::Template(cause) => "template error: "@ + cause@,
        SuperfuseError::Io(cause) => "io error: "@ + cause@,
        SuperfuseError::Provider(cause) => "superposition provider error: "@ + cause@,
        SuperfuseError::MissingSetting(name) => "missing required environment variable: "@ + name@,
    }
}

/// A prefix followed by a detail.
fn prefixed(prefix: &str, detail: &String) -> (r: String)
    ensures
        r@ == prefix@ + detail@,
{
    let mut r = prefix.to_owned();
    push_all(&mut r, detail.as_str());
    r
}

impl SuperfuseError {
    /// The text that describes this error to the user.
    pub fn message(&self) -> (text: String)
        ensures
            text@ == error_text(*self),
    {
        match self {
            SuperfuseError::NoDataDir => "could not determine data directory for superfuse".to_owned(),
            SuperfuseError::CreateDir { path, source } => {
                let mut r = prefixed("failed to create directory ", path);
                push_all(&mut r, ": ");
                push_all(&mut r, source.as_str());
                r
            },
            SuperfuseError::Database(cause) => prefixed("database error: ", cause),
            SuperfuseError::MappingNotFound(p) => prefixed("mapping not found for path: ", p),
            SuperfuseError::MappingAlreadyExists(p) => prefixed(
                "mapping already exists for path: ",
                p,
            ),
            SuperfuseError::TemplateNotFound(p) => prefixed("template file not found: ", p),
            SuperfuseError::Template(cause) => prefixed("template error: ", cause),
            SuperfuseError::Io(cause) => prefixed("io error: ", cause),
            SuperfuseError::Provider(cause) => prefixed("superposition provider error: ", cause),
            SuperfuseError::MissingSetting(name) => prefixed(
                "missing required environment variable: ",
                name,
            ),
        }
    }
}

} // verus!
