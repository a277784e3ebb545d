//! The simulator's Kubernetes resources: their names and labels, the
//! selectors by which they are found, and the decision taken on each event
//! while waiting for a newly created pod to run.
use vstd::prelude::*;
use vstd::string::*;

verus! {

pub const LABEL_NAME: &'static str = "app.kubernetes.io/name";
pub const LABEL_VALUE: &'static str = "voodoo-doll";
pub const CONTAINER_NAME: &'static str = "app";
pub const CONTAINER_PORT: i32 = 3030;
pub const POD_NAME: &'static str = "voodoo-doll";
pub const ROLE_NAME: &'static str = "voodoo-doll-pod-access";
pub const ROLEBINDING_NAME: &'static str = ROLE_NAME;
pub const SERVICEACCOUNT_NAME: &'static str = POD_NAME;
/// The registry and repository of the simulator's image.
pub const IMAGE_REPOSITORY: &'static str = "ghcr.io/partiallyordered/voodoo-doll";
/// How long, in seconds, the watch for the new pod lasts.
pub const WATCH_TIMEOUT_SECS: u32 = 30;
/// The path of the websocket endpoint.
pub const VOODOO_PATH: &'static str = "voodoo";
/// The URI requested over a forwarded port to open the websocket.
pub const VOODOO_WS_URI: &'static str = "ws://host.ignored/voodoo";
/// The port on which the simulator serves.
pub const SERVER_PORT: u16 = 3030;

/// The label selector that finds the simulator's pod.
pub fn label_selector() -> (s: String)
    ensures
        s@ == LABEL_NAME@ + "="@ + LABEL_VALUE@,
{
    let mut s = LABEL_NAME.to_owned();
    s.append("=");
    s.append(LABEL_VALUE);
    s
}

/// The field selector that finds the simulator's pod by name.
pub fn pod_field_selector() -> (s: String)
    ensures
        s@ == "metadata.name="@ + POD_NAME@,
{
    let mut s = "metadata.name=".to_owned();
    s.append(POD_NAME);
    s
}

/// The image of the given version of the simulator.
pub fn container_image(version: &str) -> (image: String)
    ensures
        image@ == IMAGE_REPOSITORY@ + ":"@ + version@,
{
    let mut image = IMAGE_REPOSITORY.to_owned();
    image.append(":");
    image.append(version);
    image
}

/// An event seen while watching the simulator's pod.
#[derive(Debug)]
pub enum PodWatchEvent {
    /// The pod was added; holds its name.
    Added { name: String },
    /// The pod was modified; holds the phase in its status, if it has one.
    Modified { phase: Option<String> },
    /// Any other event.
    Other,
}

/// What to do on an event.
#[derive(Debug)]
pub enum WatchAction {
    /// Report that the pod with this name was added, and keep watching.
    ReportAdded(String),
    /// The pod runs: stop watching.
    Stop,
    /// Keep watching.
    Continue,
}

/// Whether the event shows the pod running.
pub open spec fn shows_running(event: PodWatchEvent) -> bool {
    match event {
        PodWatchEvent::Modified { phase: Some(p) } => p@ == "Running"@,
        _ => false,
    }
}

/// Decides what to do on an event while waiting for the pod to run.
pub fn watch_action(event: PodWatchEvent) -> (action: WatchAction)
    ensures
        action is Stop <==> shows_running(event),
        match event {
            PodWatchEvent::Added { name } => action == WatchAction::ReportAdded(name),
            _ => action is Stop || action is Continue,
        },
{
    match event {
        PodWatchEvent::Added { name } => WatchAction::ReportAdded(name),
        PodWatchEvent::Modified { phase } => {
            match phase {
                Some(p) => {
                    if p == "Running".to_owned() {
                        WatchAction::Stop
                    } else {
                        WatchAction::Continue
                    }
                },
                None => WatchAction::Continue,
            }
        },
        PodWatchEvent::Other => WatchAction::Continue,
    }
}

} // verus!
