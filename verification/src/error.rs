//! The error taxonomy of the backend, and its rendering as protocol error
//! objects.

use vstd::prelude::*;

use crate::platform::Platform;

verus! {

/// A failure of one request against the backend: configuration errors
/// (missing manifest fields, unsupported platforms) and
/// dependency-resolution errors (unsupported source dependencies).
#[derive(Debug, PartialEq, Eq)]
pub enum BackendError {
    /// The manifest could not be loaded or parsed; the loader's message is
    /// carried along.
    InvalidManifest(String),
    /// The manifest has no project name.
    MissingProjectName,
    /// The project name is not a valid package name.
    InvalidPackageName(String),
    /// The manifest does not declare the requested target platform.
    UnsupportedTargetPlatform(Platform),
    /// A dependency refers to a source tree other than the project itself;
    /// the offending dependency's name is carried along.
    RecursiveSourceDependency(String),
}

pub enum BackendErrorV {
    InvalidManifest(Seq<char>),
    MissingProjectName,
    InvalidPackageName(Seq<char>),
    UnsupportedTargetPlatform(Platform),
    RecursiveSourceDependency(Seq<char>),
}

impl View for BackendError {
    type V = BackendErrorV;

    open spec fn view(&self) -> BackendErrorV {
        match self {
            BackendError::InvalidManifest(message) => BackendErrorV::InvalidManifest(message@),
            BackendError::MissingProjectName => BackendErrorV::MissingProjectName,
            BackendError::InvalidPackageName(name) => BackendErrorV::InvalidPackageName(name@),
            BackendError::UnsupportedTargetPlatform(p) => BackendErrorV::UnsupportedTargetPlatform(
                *p,
            ),
            BackendError::RecursiveSourceDependency(name) => {
                BackendErrorV::RecursiveSourceDependency(name@)
            },
        }
    }
}

/// The human-readable message of an error.
pub open spec fn message_of(e: BackendErrorV) -> Seq<char> {
    match e {
            BackendErrorV::InvalidManifest(message) => {
                "failed to parse manifest: "@ + message
            },
            BackendErrorV::MissingProjectName => {
                "a 'name' field is required in the project manifest"@
            },
            BackendErrorV::InvalidPackageName(name) => {
                "'"@ + name + "' is not a valid package name"@
            },
            BackendErrorV::UnsupportedTargetPlatform(p) => {
                "the project does not support the target platform ("@ + p.as_str_spec() + ")"@
            },
            BackendErrorV::RecursiveSourceDependency(name) => {
                "recursive source dependencies are not yet supported ("@ + name + ")"@
            },
    }
}

impl BackendError {
    /// Renders the human-readable message of this error.
    pub fn message(&self) -> (r: String)
        ensures
            r@ == message_of(self@),
    {
        match self {
            BackendError::InvalidManifest(message) => {
                let mut m = String::from_str("failed to parse manifest: ");
                m.append(message.as_str());
                m
            },
            BackendError::MissingProjectName => {
                String::from_str("a 'name' field is required in the project manifest")
            },
            BackendError::InvalidPackageName(name) => {
                let mut m = String::from_str("'");
                m.append(name.as_str());
                m.append("' is not a valid package name");
                m
            },
            BackendError::UnsupportedTargetPlatform(p) => {
                let mut m = String::from_str("the project does not support the target platform (");
                m.append(p.as_str());
                m.append(")");
                m
            },
            BackendError::RecursiveSourceDependency(name) => {
                let mut m = String::from_str(
                    "recursive source dependencies are not yet supported (",
                );
                m.append(name.as_str());
                m.append(")");
                m
            },
        }
    }
}

/// A structured protocol error object: a machine-readable code and a
/// human-readable message.
#[derive(Debug)]
pub struct ErrorObject {
    pub code: i64,
    pub message: String,
}

/// The protocol code for a request that is invalid in the current server
/// state.
pub const INVALID_REQUEST_CODE: i64 = -32600;

/// The protocol code for a request that failed inside the backend.
pub const SERVER_ERROR_CODE: i64 = -32000;

/// The error object for a request that is invalid in the current server
/// state (initialize after initialize, or any other request before it).
pub fn invalid_request() -> (r: ErrorObject)
    ensures
        r.code == INVALID_REQUEST_CODE,
        r.message@ == "Invalid request"@,
{
    ErrorObject { code: INVALID_REQUEST_CODE, message: String::from_str("Invalid request") }
}

/// Renders a backend failure as a structured protocol error object carrying
/// the server-error code and the error's message.
pub fn convert_error(err: &BackendError) -> (r: ErrorObject)
    ensures
        r.code == SERVER_ERROR_CODE,
        r.message@ == message_of(err@),
{
    ErrorObject { code: SERVER_ERROR_CODE, message: err.message() }
}

} // verus!
