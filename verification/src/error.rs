//! The errors of the tool, and the message each one is reported with.

use vstd::prelude::*;
use vstd::string::*;

verus! {

/// What can go wrong. Errors that come from the Docker client, from the file
/// system or from the YAML reader carry that error's own message.
#[derive(Debug)]
pub enum FoundryError {
    Config(String),
    ConfigNotFound(String),
    Docker(String),
    DockerError(String),
    ServiceNotFound(String),
    ProjectNotInitialized,
    DockerNotAvailable,
    Io(String),
    Yaml(String),
}

/// The abstract value of a [`FoundryError`]: its kind and the text it carries.
pub enum FoundryErrorView {
    Config(Seq<char>),
    ConfigNotFound(Seq<char>),
    Docker(Seq<char>),
    DockerError(Seq<char>),
    ServiceNotFound(Seq<char>),
    ProjectNotInitialized,
    DockerNotAvailable,
    Io(Seq<char>),
    Yaml(Seq<char>),
}

impl View for FoundryError {
    type V = FoundryErrorView;

    open spec fn view(&self) -> FoundryErrorView {
        match self {
            FoundryError::Config(s) => FoundryErrorView::Config(s@),
            FoundryError::ConfigNotFound(s) => FoundryErrorView::ConfigNotFound(s@),
            FoundryError::Docker(s) => FoundryErrorView::Docker(s@),
            FoundryError::DockerError(s) => FoundryErrorView::DockerError(s@),
            FoundryError::ServiceNotFound(s) => FoundryErrorView::ServiceNotFound(s@),
            FoundryError::ProjectNotInitialized => FoundryErrorView::ProjectNotInitialized,
            FoundryError::DockerNotAvailable => FoundryErrorView::DockerNotAvailable,
            FoundryError::Io(s) => FoundryErrorView::Io(s@),
            FoundryError::Yaml(s) => FoundryErrorView::Yaml(s@),
        }
    }
}

impl FoundryError {
    /// The message the error is reported with.
    pub open spec fn message_spec(&self) -> Seq<char> {
        match self {
            FoundryError::Config(s) => "Configuration error: "@ + s@,
            FoundryError::ConfigNotFound(s) => "Configuration file not found: "@ + s@,
            FoundryError::Docker(s) => "Docker error: "@ + s@,
            FoundryError::DockerError(s) => "Docker operation failed: "@ + s@,
            FoundryError::ServiceNotFound(s) => "Service not found: "@ + s@,
            FoundryError::ProjectNotInitialized =>
                "Project not initialized. Run 'foundry init' or create a foundry.yaml file"@,
            FoundryError::DockerNotAvailable => "Docker is not running or not accessible"@,
            FoundryError::Io(s) => "IO error: "@ + s@,
            FoundryError::Yaml(s) => "YAML parsing error: "@ + s@,
        }
    }

    /// The message the error is reported with.
    pub fn message(&self) -> (m: String)
        ensures
            m@ == self.message_spec(),
    {
        match self {
            FoundryError::Config(s) => "Configuration error: ".to_owned().concat(s.as_str()),
            FoundryError::ConfigNotFound(s) => "Configuration file not found: ".to_owned().concat(
                s.as_str(),
            ),
            FoundryError::Docker(s) => "Docker error: ".to_owned().concat(s.as_str()),
            FoundryError::DockerError(s) => "Docker operation failed: ".to_owned().concat(
                s.as_str(),
            ),
            FoundryError::ServiceNotFound(s) => "Service not found: ".to_owned().concat(s.as_str()),
            FoundryError::ProjectNotInitialized =>
                "Project not initialized. Run 'foundry init' or create a foundry.yaml file".to_owned(),
            FoundryError::DockerNotAvailable => "Docker is not running or not accessible".to_owned(),
            FoundryError::Io(s) => "IO error: ".to_owned().concat(s.as_str()),
            FoundryError::Yaml(s) => "YAML parsing error: ".to_owned().concat(s.as_str()),
        }
    }
}

} // verus!
