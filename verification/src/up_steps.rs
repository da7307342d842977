//! The work `up` does for one service, as a state machine: the program
//! performs each action against Docker and hands back what Docker answered.

use vstd::prelude::*;
use vstd::string::*;

use crate::config::{Service, ServiceView, opt_view};
use crate::docker::container_name_spec;
use crate::error::{FoundryError, FoundryErrorView};
use crate::text::decimal;
use crate::up::{
    ContainerAction,
    already_running_message,
    container_action,
    started_message,
    started_message_spec,
    starting_message,
};

verus! {

/// Where `up` stands with one service.
#[derive(Debug, Clone, Copy, PartialEq, Eq, Structural)]
pub enum UpState {
    /// Waiting for the state of the service's container.
    Inspecting,
    /// Starting a container that exists but is stopped.
    StartingExisting,
    /// Waiting to learn whether the service's image is present.
    CheckingImage,
    /// Pulling the service's image.
    Pulling,
    /// Creating the service's container.
    Creating,
    /// Starting the container just created.
    StartingCreated,
    /// Done with the service.
    Finished,
}

/// What Docker answered to the last action.
#[derive(Debug)]
pub enum UpEvent {
    /// The state of the container, `None` where there is no such container.
    ContainerState(Option<String>),
    /// Whether the image is present.
    ImageChecked(bool),
    /// The action succeeded.
    Done,
    /// The container was created with this id.
    Created(String),
    /// The action failed with this message.
    Failed(String),
}

/// The abstract value of an [`UpEvent`].
pub enum UpEventView {
    ContainerState(Option<Seq<char>>),
    ImageChecked(bool),
    Done,
    Created(Seq<char>),
    Failed(Seq<char>),
}

impl View for UpEvent {
    type V = UpEventView;

    open spec fn view(&self) -> UpEventView {
        match self {
            UpEvent::ContainerState(s) => UpEventView::ContainerState(opt_view(*s)),
            UpEvent::ImageChecked(b) => UpEventView::ImageChecked(*b),
            UpEvent::Done => UpEventView::Done,
            UpEvent::Created(id) => UpEventView::Created(id@),
            UpEvent::Failed(e) => UpEventView::Failed(e@),
        }
    }
}

/// What `up` does next for the service.
#[derive(Debug)]
pub enum UpAction {
    /// Ask Docker for the state of this container.
    Inspect(String),
    /// Start this container.
    Start(String),
    /// Ask Docker whether this image is present.
    CheckImage(String),
    /// Pull this image.
    Pull(String),
    /// Create the service's container, as `container_spec` describes it.
    Create,
    /// Go on to the next service.
    Next,
    /// Stop with this error.
    Fail(FoundryError),
}

/// The abstract value of an [`UpAction`].
pub enum UpActionView {
    Inspect(Seq<char>),
    Start(Seq<char>),
    CheckImage(Seq<char>),
    Pull(Seq<char>),
    Create,
    Next,
    Fail(FoundryErrorView),
}

impl View for UpAction {
    type V = UpActionView;

    open spec fn view(&self) -> UpActionView {
        match self {
            UpAction::Inspect(c) => UpActionView::Inspect(c@),
            UpAction::Start(c) => UpActionView::Start(c@),
            UpAction::CheckImage(i) => UpActionView::CheckImage(i@),
            UpAction::Pull(i) => UpActionView::Pull(i@),
            UpAction::Create => UpActionView::Create,
            UpAction::Next => UpActionView::Next,
            UpAction::Fail(e) => UpActionView::Fail(e@),
        }
    }
}

/// One step: the next state, a line to report before acting, and the action.
pub struct UpStep {
    pub state: UpState,
    pub report: Option<String>,
    pub action: UpAction,
}

/// The first step for a service: inspect its container.
pub open spec fn up_begin_spec(project: Seq<char>, service: ServiceView) -> (UpState, Option<Seq<char>>, UpActionView) {
    (UpState::Inspecting, None, UpActionView::Inspect(container_name_spec(project, service.name)))
}

/// The step that follows `event` in `state`. A container that is running is
/// left alone; a stopped one is started; a missing one is created, from an
/// image that is pulled first where it is not present, then started. A
/// failure, in any state but `Finished`, ends the service with an error; any
/// other event that does not answer the action of `state` ends the service.
pub open spec fn up_step_spec(
    project: Seq<char>,
    service: ServiceView,
    state: UpState,
    event: UpEventView,
) -> (UpState, Option<Seq<char>>, UpActionView) {
    let name = service.name;
    let starting = "Starting "@ + name + "..."@;
    let started = started_message_spec(name, service.port);
    match state {
        UpState::Inspecting => match event {
            UpEventView::ContainerState(Some(s)) => if s == "running"@ {
                (UpState::Finished, Some("\u{2713} "@ + name + " already running"@), UpActionView::Next)
            } else {
                (
                    UpState::StartingExisting,
                    Some(starting),
                    UpActionView::Start(container_name_spec(project, name)),
                )
            },
            UpEventView::ContainerState(None) => (
                UpState::CheckingImage,
                Some(starting),
                UpActionView::CheckImage(service.image),
            ),
            UpEventView::Failed(e) => (
                UpState::Finished,
                None,
                UpActionView::Fail(FoundryErrorView::Docker(e)),
            ),
            _ => (UpState::Finished, None, UpActionView::Next),
        },
        UpState::StartingExisting | UpState::StartingCreated => match event {
            UpEventView::Done => (UpState::Finished, Some(started), UpActionView::Next),
            UpEventView::Failed(e) => (
                UpState::Finished,
                None,
                UpActionView::Fail(FoundryErrorView::Docker(e)),
            ),
            _ => (UpState::Finished, None, UpActionView::Next),
        },
        UpState::CheckingImage => match event {
            UpEventView::ImageChecked(true) => (UpState::Creating, None, UpActionView::Create),
            UpEventView::ImageChecked(false) => (
                UpState::Pulling,
                Some("  Pulling "@ + service.image + "..."@),
                UpActionView::Pull(service.image),
            ),
            UpEventView::Failed(e) => (
                UpState::Finished,
                None,
                UpActionView::Fail(FoundryErrorView::Docker(e)),
            ),
            _ => (UpState::Finished, None, UpActionView::Next),
        },
        UpState::Pulling => match event {
            UpEventView::Done => (UpState::Creating, None, UpActionView::Create),
            UpEventView::Failed(e) => (
                UpState::Finished,
                None,
                UpActionView::Fail(
                    FoundryErrorView::DockerError("Failed to pull image "@ + service.image + ": "@ + e),
                ),
            ),
            _ => (UpState::Finished, None, UpActionView::Next),
        },
        UpState::Creating => match event {
            UpEventView::Created(id) => (UpState::StartingCreated, None, UpActionView::Start(id)),
            UpEventView::Failed(e) => (
                UpState::Finished,
                None,
                UpActionView::Fail(
                    FoundryErrorView::DockerError("Failed to create container "@ + name + ": "@ + e),
                ),
            ),
            _ => (UpState::Finished, None, UpActionView::Next),
        },
        UpState::Finished => (UpState::Finished, None, UpActionView::Next),
    }
}

/// The actions `up` takes for `service` from `state` on, as Docker answers with `events`.
pub open spec fn up_actions(
    project: Seq<char>,
    service: ServiceView,
    state: UpState,
    events: Seq<UpEventView>,
) -> Seq<UpActionView>
    decreases events.len(),
{
    if events.len() == 0 {
        Seq::empty()
    } else {
        let step = up_step_spec(project, service, state, events[0]);
        seq![step.2] + up_actions(project, service, step.0, events.drop_first())
    }
}

/// Whether an action changes a container or an image: a start, a pull or a create.
pub open spec fn changes_docker(a: UpActionView) -> bool {
    a is Start || a is Pull || a is Create
}

/// The view of a step.
pub open spec fn step_view(s: UpStep) -> (UpState, Option<Seq<char>>, UpActionView) {
    (s.state, opt_view(s.report), s.action@)
}

/// The first step for `service` of `project`: inspect its container.
pub fn up_begin(project: &str, service: &Service) -> (s: UpStep)
    ensures
        step_view(s) == up_begin_spec(project@, service@),
{
    let container = project.to_owned().concat("-").concat(service.name.as_str());
    UpStep { state: UpState::Inspecting, report: None, action: UpAction::Inspect(container) }
}

fn finished() -> (s: UpStep)
    ensures
        step_view(s) == (UpState::Finished, None::<Seq<char>>, UpActionView::Next),
{
    UpStep { state: UpState::Finished, report: None, action: UpAction::Next }
}

/// The step that follows `event` when `up` stands at `state` with `service` of `project`.
pub fn up_step(project: &str, service: &Service, state: UpState, event: &UpEvent) -> (s: UpStep)
    ensures
        step_view(s) == up_step_spec(project@, service@, state, event@),
{
    let name = service.name.as_str();
    match state {
        UpState::Inspecting => match event {
            UpEvent::ContainerState(Some(st)) => match container_action(Some(st.as_str())) {
                ContainerAction::AlreadyRunning => UpStep {
                    state: UpState::Finished,
                    report: Some(already_running_message(name)),
                    action: UpAction::Next,
                },
                _ => {
                    let container = project.to_owned().concat("-").concat(name);
                    UpStep {
                        state: UpState::StartingExisting,
                        report: Some(starting_message(name)),
                        action: UpAction::Start(container),
                    }
                },
            },
            UpEvent::ContainerState(None) => UpStep {
                state: UpState::CheckingImage,
                report: Some(starting_message(name)),
                action: UpAction::CheckImage(service.image.clone()),
            },
            UpEvent::Failed(e) => UpStep {
                state: UpState::Finished,
                report: None,
                action: UpAction::Fail(FoundryError::Docker(e.clone())),
            },
            _ => finished(),
        },
        UpState::StartingExisting | UpState::StartingCreated => match event {
            UpEvent::Done => UpStep {
                state: UpState::Finished,
                report: Some(started_message(name, service.port)),
                action: UpAction::Next,
            },
            UpEvent::Failed(e) => UpStep {
                state: UpState::Finished,
                report: None,
                action: UpAction::Fail(FoundryError::Docker(e.clone())),
            },
            _ => finished(),
        },
        UpState::CheckingImage => match event {
            UpEvent::ImageChecked(present) => {
                if *present {
                    UpStep { state: UpState::Creating, report: None, action: UpAction::Create }
                } else {
                    UpStep {
                        state: UpState::Pulling,
                        report: Some(
                            "  Pulling ".to_owned().concat(service.image.as_str()).concat("..."),
                        ),
                        action: UpAction::Pull(service.image.clone()),
                    }
                }
            },
            UpEvent::Failed(e) => UpStep {
                state: UpState::Finished,
                report: None,
                action: UpAction::Fail(FoundryError::Docker(e.clone())),
            },
            _ => finished(),
        },
        UpState::Pulling => match event {
            UpEvent::Done => UpStep { state: UpState::Creating, report: None, action: UpAction::Create },
            UpEvent::Failed(e) => UpStep {
                state: UpState::Finished,
                report: None,
                action: UpAction::Fail(
                    FoundryError::DockerError(
                        "Failed to pull image ".to_owned().concat(service.image.as_str()).concat(
                            ": ",
                        ).concat(e.as_str()),
                    ),
                ),
            },
            _ => finished(),
        },
        UpState::Creating => match event {
            UpEvent::Created(id) => UpStep {
                state: UpState::StartingCreated,
                report: None,
                action: UpAction::Start(id.clone()),
            },
            UpEvent::Failed(e) => UpStep {
                state: UpState::Finished,
                report: None,
                action: UpAction::Fail(
                    FoundryError::DockerError(
                        "Failed to create container ".to_owned().concat(name).concat(": ").concat(
                            e.as_str(),
                        ),
                    ),
                ),
            },
            _ => finished(),
        },
        UpState::Finished => finished(),
    }
}

/// Whether creating the container of `service` needs the host directory: it
/// does exactly where the service has a root to mount it at.
pub fn needs_host_path(service: &Service) -> (b: bool)
    ensures
        b == service.root is Some,
{
    service.root.is_some()
}

/// The error that creating the project's network failed with `detail`.
pub fn network_failed(detail: &str) -> (e: FoundryError)
    ensures
        e@ == FoundryErrorView::DockerError("Failed to create network: "@ + detail@),
{
    FoundryError::DockerError("Failed to create network: ".to_owned().concat(detail))
}

} // verus!
