//! What can go wrong.
use vstd::prelude::*;

use crate::text::{cat2, cat4};

verus! {

/// An error of the agent. Errors of the systems around it are held by their text.
#[derive(Debug)]
pub enum DroidError {
    OciRegistry(String),
    Http(String),
    Filesystem(String),
    Json(String),
    KubeApi(String),
    Process(String),
    ImageNotFound(String),
    DigestMismatch { expected: String, actual: String },
    Workload(String),
    ProbeFailed(String),
    NodeRegistration(String),
    Config(String),
    Unsupported(String),
}

impl DroidError {
    /// The error as a sentence.
    pub open spec fn text(self) -> Seq<char> {
        match self {
            DroidError::OciRegistry(m) => "OCI registry error: "@ + m@,
            DroidError::Http(m) => "HTTP error: "@ + m@,
            DroidError::Filesystem(m) => "Filesystem error: "@ + m@,
            DroidError::Json(m) => "JSON error: "@ + m@,
            DroidError::KubeApi(m) => "Kubernetes API error: "@ + m@,
            DroidError::Process(m) => "Process execution error: "@ + m@,
            DroidError::ImageNotFound(m) => "Image not found: "@ + m@,
            DroidError::DigestMismatch { expected, actual } => "Layer digest mismatch: expected "@
                + expected@ + ", got "@ + actual@,
            DroidError::Workload(m) => "Workload error: "@ + m@,
            DroidError::ProbeFailed(m) => "Health probe failed: "@ + m@,
            DroidError::NodeRegistration(m) => "Node registration error: "@ + m@,
            DroidError::Config(m) => "Configuration error: "@ + m@,
            DroidError::Unsupported(m) => "Unsupported operation: "@ + m@,
        }
    }

    /// The error as a sentence.
    pub fn describe(&self) -> (r: String)
        ensures
            r@ == self.text(),
    {
        match self {
            DroidError::OciRegistry(m) => cat2("OCI registry error: ", m.as_str()),
            DroidError::Http(m) => cat2("HTTP error: ", m.as_str()),
            DroidError::Filesystem(m) => cat2("Filesystem error: ", m.as_str()),
            DroidError::Json(m) => cat2("JSON error: ", m.as_str()),
            DroidError::KubeApi(m) => cat2("Kubernetes API error: ", m.as_str()),
            DroidError::Process(m) => cat2("Process execution error: ", m.as_str()),
            DroidError::ImageNotFound(m) => cat2("Image not found: ", m.as_str()),
            DroidError::DigestMismatch { expected, actual } => cat4(
                "Layer digest mismatch: expected ",
                expected.as_str(),
                ", got ",
                actual.as_str(),
            ),
            DroidError::Workload(m) => cat2("Workload error: ", m.as_str()),
            DroidError::ProbeFailed(m) => cat2("Health probe failed: ", m.as_str()),
            DroidError::NodeRegistration(m) => cat2("Node registration error: ", m.as_str()),
            DroidError::Config(m) => cat2("Configuration error: ", m.as_str()),
            DroidError::Unsupported(m) => cat2("Unsupported operation: ", m.as_str()),
        }
    }
}

/// An error as a sentence says what kind of error it is, and then what happened.
pub proof fn law_errors_say_what_happened(e: &DroidError, r: String)
    requires
        call_ensures(DroidError::describe, (e,), r),
    ensures
        r@ == e.text(),
        r@ == match e {
            DroidError::OciRegistry(m) => "OCI registry error: "@ + m@,
            DroidError::Http(m) => "HTTP error: "@ + m@,
            DroidError::Filesystem(m) => "Filesystem error: "@ + m@,
            DroidError::Json(m) => "JSON error: "@ + m@,
            DroidError::KubeApi(m) => "Kubernetes API error: "@ + m@,
            DroidError::Process(m) => "Process execution error: "@ + m@,
            DroidError::ImageNotFound(m) => "Image not found: "@ + m@,
            DroidError::DigestMismatch { expected, actual } => "Layer digest mismatch: expected "@
                + expected@ + ", got "@ + actual@,
            DroidError::Workload(m) => "Workload error: "@ + m@,
            DroidError::ProbeFailed(m) => "Health probe failed: "@ + m@,
            DroidError::NodeRegistration(m) => "Node registration error: "@ + m@,
            DroidError::Config(m) => "Configuration error: "@ + m@,
            DroidError::Unsupported(m) => "Unsupported operation: "@ + m@,
        },
{
}

} // verus!
