//! The decisions of the service's workers: what the camera worker does with
//! a captured frame, when the frame socket gives up on a client, and how
//! the chat bot answers a snapshot request. The workers' loops, their
//! devices and sockets belong to the application.
use vstd::prelude::*;
use crate::config::TelegramConfig;
use crate::hub::{Hub, ReceivedView, Received, SubscriptionId};
use crate::message::{MessageView, WorkerMessage};
use crate::tunnel::{StopOutcome, TunnelController};

verus! {

/// The camera worker: captures frames, publishes each on the hub and, when
/// it has one, also sends it to the local video relay stream `S`.
pub struct DetectorVideo<S> {
    stream: Option<S>,
}

impl<S> DetectorVideo<S> {
    pub closed spec fn stream(&self) -> Option<S> {
        self.stream
    }

    pub fn new_with_rvideo(stream: S) -> (r: Self)
        ensures
            r.stream() == Some(stream),
    {
        DetectorVideo { stream: Some(stream) }
    }

    pub fn new() -> (r: Self)
        ensures
            r.stream() is None,
    {
        DetectorVideo { stream: None }
    }

    pub fn has_stream(&self) -> (r: bool)
        ensures
            r == self.stream() is Some,
    {
        self.stream.is_some()
    }

    /// The relay stream, for the application to send frames on.
    pub fn stream_mut(&mut self) -> (r: &mut Option<S>)
        ensures
            *r == old(self).stream(),
            final(self).stream() == *final(r),
    {
        &mut self.stream
    }

    /// Publishes a captured frame on the hub. When the worker has a relay
    /// stream, it also hands back a copy of the frame to send there.
    pub fn publish_frame(&self, hub: &mut Hub, frame: Vec<u8>) -> (r: Option<Vec<u8>>)
        requires
            old(hub).wf(),
        ensures
            final(hub).wf(),
            final(hub)@ == old(hub)@.publish(MessageView::Frame(frame@)),
            self.stream() is Some ==> (r matches Some(copy) && copy@ == frame@),
            self.stream() is None ==> r is None,
    {
        let copy = if self.stream.is_some() {
            let c = frame.clone();
            assert(c@ =~= frame@);
            Some(c)
        } else {
            None
        };
        hub.publish(WorkerMessage::Frame(frame));
        copy
    }
}

/// The worker that serves the local video relay.
pub struct RvideoSrv {}

/// The chat bot worker.
pub struct BotWorker {}

/// The worker that serves the web page and streams frames over a socket.
pub struct WebSocketWorker {}

/// Whether the administrator hears of each command that users send.
pub fn should_notify_admin() -> (r: bool)
    ensures
        r,
{
    true
}

/// Failed sends in a row after which a frame socket client is abandoned.
pub const MAX_SEND_RETRIES: u32 = 5;

/// What the frame socket does after a send.
#[derive(Debug, Clone, Copy, PartialEq, Eq, Structural)]
pub enum SendAction {
    /// The frame went out: go on with the next one.
    Continue,
    /// The frame was lost: wait a second, then go on with the next one.
    RetryAfterBackoff,
    /// Too many failures in a row: close the connection.
    Abandon,
}

/// Counts a frame socket client's failed sends in a row.
pub struct SendRetry {
    failures: u32,
}

impl SendRetry {
    pub closed spec fn failures(&self) -> nat {
        self.failures as nat
    }

    pub fn new() -> (r: SendRetry)
        ensures
            r.failures() == 0,
    {
        SendRetry { failures: 0 }
    }

    /// Records how a send went and says what to do next: a success clears
    /// the count, a failure is retried until `MAX_SEND_RETRIES` have been
    /// retried in a row, and the one after that abandons the client.
    pub fn after_send(&mut self, sent: bool) -> (r: SendAction)
        requires
            old(self).failures() <= MAX_SEND_RETRIES,
        ensures
            final(self).failures() <= MAX_SEND_RETRIES,
            sent ==> r == SendAction::Continue && final(self).failures() == 0,
            !sent && old(self).failures() < MAX_SEND_RETRIES ==> r == SendAction::RetryAfterBackoff
                && final(self).failures() == old(self).failures() + 1,
            !sent && old(self).failures() == MAX_SEND_RETRIES ==> r == SendAction::Abandon
                && final(self).failures() == old(self).failures(),
    {
        if sent {
            self.failures = 0;
            SendAction::Continue
        } else if self.failures < MAX_SEND_RETRIES {
            self.failures = self.failures + 1;
            SendAction::RetryAfterBackoff
        } else {
            SendAction::Abandon
        }
    }
}

/// The bot's answer to a snapshot request.
#[derive(Debug)]
pub enum PhotoReply {
    /// The latest frame.
    Photo(Vec<u8>),
    /// No frame arrived since the last snapshot.
    NoFrame,
    /// The sender is not among the allowed users, or is unknown.
    NotAllowed,
}

impl PhotoReply {
    pub open spec fn photo(&self) -> Option<Seq<u8>> {
        match self {
            PhotoReply::Photo(bytes) => Some(bytes@),
            _ => None,
        }
    }
}

/// Whether `user_id` is known and among the allowed users.
pub open spec fn may_request_photo(config: TelegramConfig, user_id: Option<i64>) -> bool {
    user_id matches Some(u) && config.allowed_user_ids@.contains(u)
}

/// The frame that a read found, if it found one.
pub open spec fn frame_of(found: ReceivedView) -> Option<Seq<u8>> {
    match found {
        ReceivedView::Message(MessageView::Frame(bytes)) => Some(bytes),
        _ => None,
    }
}

/// Answers a snapshot request from `user_id`. An allowed user gets the frame
/// waiting on the `snapshot` subscription, read once and without waiting;
/// anyone else is refused and the subscription is left alone.
pub fn photo_reply(config: &TelegramConfig, user_id: Option<i64>, hub: &mut Hub, snapshot: SubscriptionId) -> (r:
    PhotoReply)
    requires
        old(hub).wf(),
        snapshot@ < old(hub)@.slots.len(),
    ensures
        final(hub).wf(),
        !may_request_photo(*config, user_id) ==> r is NotAllowed && final(hub)@ == old(hub)@,
        may_request_photo(*config, user_id) ==> final(hub)@ == old(hub)@.receive(snapshot@ as int),
        may_request_photo(*config, user_id) ==> !(r is NotAllowed),
        may_request_photo(*config, user_id) ==> r.photo() == frame_of(
            old(hub)@.receive_outcome(snapshot@ as int),
        ),
{
    let allowed = match user_id {
        Some(u) => config.is_allowed(u),
        None => false,
    };
    if !allowed {
        return PhotoReply::NotAllowed;
    }
    match hub.try_recv(snapshot) {
        Received::Message(WorkerMessage::Frame(bytes)) => PhotoReply::Photo(bytes),
        _ => PhotoReply::NoFrame,
    }
}

/// The first step of shutting the service down: closes the hub, so that
/// every reader wakes to `Closed`, and stops the tunnel if it runs. Hands
/// back the tunnel's handle, which the caller cancels, if there was one.
pub fn begin_shutdown<H>(hub: &mut Hub, tunnel: &mut TunnelController<H>) -> (r: Option<H>)
    requires
        old(hub).wf(),
        old(tunnel)@.wf(),
    ensures
        final(hub).wf(),
        final(hub)@ == old(hub)@.publish(MessageView::Terminate),
        final(hub)@.closed,
        final(tunnel)@.wf(),
        final(tunnel)@ == old(tunnel)@.after_stop(),
        r == old(tunnel)@.handle(),
        !final(tunnel)@.is_active(),
{
    hub.publish(WorkerMessage::Terminate);
    match tunnel.stop() {
        StopOutcome::Stopped(handle) => Some(handle),
        StopOutcome::NotRunning => None,
    }
}

} // verus!
