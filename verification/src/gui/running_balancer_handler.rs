//! What the screen of a running balancer does.
use vstd::prelude::*;

use crate::gui::running_balancer_snapshot::RunningBalancerSnapshot;

verus! {

/// What the screen of a running balancer shows.
#[derive(Debug)]
pub struct RunningBalancerData {
    pub balancer_address: String,
    pub snapshot: RunningBalancerSnapshot,
    /// Whether the balancer was asked to stop.
    pub stopping: bool,
    pub web_admin_panel_address: Option<String>,
}

/// Something that happened on the screen, or to the balancer.
#[derive(Debug)]
pub enum Message {
    SnapshotUpdated(Box<RunningBalancerSnapshot>),
    Stop,
    CopyToClipboard(String),
    OpenUrl(String),
}

/// What follows from it.
#[derive(Debug)]
pub enum Action {
    /// Nothing.
    Stay,
    /// The balancer is stopped.
    Stop,
    CopyToClipboard(String),
    OpenUrl(String),
}

/// Whether `after` and `action` are what a message leads to.
pub open spec fn leads_to(
    before: RunningBalancerData,
    message: Message,
    after: RunningBalancerData,
    action: Action,
) -> bool {
    match message {
        Message::SnapshotUpdated(snapshot) => action is Stay && after == (RunningBalancerData {
            snapshot: *snapshot,
            ..before
        }),
        Message::Stop => action is Stop && after == (RunningBalancerData {
            stopping: true,
            ..before
        }),
        Message::CopyToClipboard(content) => action == Action::CopyToClipboard(content) && after
            == before,
        Message::OpenUrl(url) => action == Action::OpenUrl(url) && after == before,
    }
}

impl RunningBalancerData {
    /// Takes over what happened, and says what follows from it.
    pub fn update(&mut self, message: Message) -> (action: Action)
        ensures
            leads_to(*old(self), message, *final(self), action),
    {
        match message {
            Message::SnapshotUpdated(snapshot) => {
                self.snapshot = *snapshot;
                Action::Stay
            },
            Message::Stop => {
                self.stopping = true;
                Action::Stop
            },
            Message::CopyToClipboard(content) => Action::CopyToClipboard(content),
            Message::OpenUrl(url) => Action::OpenUrl(url),
        }
    }
}

/// A balancer is stopped exactly if that was asked for, and is from then on shown as
/// stopping; what is shown of it is the snapshot that came last, and where it is reached
/// never changes.
pub proof fn a_running_balancer_is_stopped_on_request(
    running: &mut RunningBalancerData,
    message: Message,
    action: Action,
)
    requires
        call_ensures(RunningBalancerData::update, (running, message), action),
    ensures
        action is Stop <==> message is Stop,
        final(running).stopping <==> old(running).stopping || message is Stop,
        final(running).snapshot == (match message {
            Message::SnapshotUpdated(snapshot) => *snapshot,
            _ => old(running).snapshot,
        }),
        action is CopyToClipboard <==> message is CopyToClipboard,
        message matches Message::CopyToClipboard(content) ==> action == Action::CopyToClipboard(
            content,
        ),
        action is OpenUrl <==> message is OpenUrl,
        message matches Message::OpenUrl(url) ==> action == Action::OpenUrl(url),
        final(running).balancer_address == old(running).balancer_address,
        final(running).web_admin_panel_address == old(running).web_admin_panel_address,
{
}

} // verus!
