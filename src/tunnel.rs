//! Lifecycle of the on-demand remote-access tunnel.
//!
//! The controller is one state value: idle, starting (the tunnel is being
//! established), or running (with the handle that cancels it). Each
//! operation looks at the state and changes it in one step, so a caller
//! that keeps the controller behind one lock can never launch two tunnels
//! or cancel one twice. The tunnel itself is opened and cancelled by the
//! caller: `begin_start` says when to open one, `stop` hands back the handle
//! to cancel.
use vstd::prelude::*;

verus! {

pub enum TunnelState<H> {
    Idle,
    Starting { session: u64 },
    Running { session: u64, handle: H },
}

/// What the caller is asked to open: a tunnel for `session`, with these
/// credentials, forwarding to `forward_to`.
pub struct TunnelRequest {
    pub session: u64,
    pub auth_token: String,
    pub domain: String,
    pub forward_to: String,
}

pub enum StartStep {
    /// The controller is now starting: open the tunnel, then report with
    /// `finish_start`.
    Launch(TunnelRequest),
    /// A tunnel is running or being started; nothing to do.
    AlreadyRunning,
}

#[derive(Debug)]
pub enum StartFailure {
    /// The tunnel could not be established, for this reason.
    Establish(String),
    /// No start of that session is in progress.
    NotStarting,
}

#[derive(Debug)]
pub enum StartOutcome {
    Started,
    AlreadyRunning,
    Failed(StartFailure),
}

pub enum StopOutcome<H> {
    /// The tunnel was running; this is its handle, to be cancelled once.
    Stopped(H),
    NotRunning,
}

/// The controller as the model sees it. `launched` counts the tunnels it has
/// asked the caller to open, `ended` those it has seen fail, stop or exit.
pub struct TunnelView<H> {
    pub state: TunnelState<H>,
    pub next_session: u64,
    pub launched: nat,
    pub ended: nat,
}

impl<H> TunnelView<H> {
    pub open spec fn wf(self) -> bool {
        &&& self.ended <= self.launched
        &&& self.live_tunnels() == if self.state is Idle {
            0int
        } else {
            1int
        }
    }

    /// Tunnels launched and not yet seen to end.
    pub open spec fn live_tunnels(self) -> int {
        self.launched - self.ended
    }

    pub open spec fn is_active(self) -> bool {
        self.state is Running
    }

    pub open spec fn handle(self) -> Option<H> {
        match self.state {
            TunnelState::Running { handle, .. } => Some(handle),
            _ => None,
        }
    }

    pub open spec fn ended_now(self) -> TunnelView<H> {
        TunnelView { state: TunnelState::Idle, ended: self.ended + 1, ..self }
    }

    pub open spec fn start_step(self, auth_token: String, domain: String, forward_to: String) -> StartStep {
        if self.state is Idle {
            StartStep::Launch(
                TunnelRequest { session: self.next_session, auth_token, domain, forward_to },
            )
        } else {
            StartStep::AlreadyRunning
        }
    }

    pub open spec fn after_begin_start(self) -> TunnelView<H> {
        if self.state is Idle {
            TunnelView {
                state: TunnelState::Starting { session: self.next_session },
                next_session: self.next_session.wrapping_add(1),
                launched: self.launched + 1,
                ended: self.ended,
            }
        } else {
            self
        }
    }

    pub open spec fn is_starting(self, session: u64) -> bool {
        self.state matches TunnelState::Starting { session: s } && s == session
    }

    pub open spec fn finish_outcome(self, session: u64, result: Result<H, String>) -> StartOutcome {
        if !self.is_starting(session) {
            StartOutcome::Failed(StartFailure::NotStarting)
        } else {
            match result {
                Ok(_) => StartOutcome::Started,
                Err(e) => StartOutcome::Failed(StartFailure::Establish(e)),
            }
        }
    }

    pub open spec fn after_finish(self, session: u64, result: Result<H, String>) -> TunnelView<H> {
        if !self.is_starting(session) {
            self
        } else {
            match result {
                Ok(h) => TunnelView { state: TunnelState::Running { session, handle: h }, ..self },
                Err(_) => self.ended_now(),
            }
        }
    }

    pub open spec fn stop_outcome(self) -> StopOutcome<H> {
        match self.state {
            TunnelState::Running { handle, .. } => StopOutcome::Stopped(handle),
            _ => StopOutcome::NotRunning,
        }
    }

    pub open spec fn after_stop(self) -> TunnelView<H> {
        if self.state is Running {
            self.ended_now()
        } else {
            self
        }
    }

    pub open spec fn is_running(self, session: u64) -> bool {
        self.state matches TunnelState::Running { session: s, .. } && s == session
    }
}

/// In every state the controller can reach, the tunnel is active exactly
/// when a cancellation handle is held, at most one tunnel is alive, and none
/// is alive once the controller is idle.
pub proof fn tunnel_state_consistent<H>(v: TunnelView<H>)
    requires
        v.wf(),
    ensures
        v.is_active() <==> v.handle() is Some,
        0 <= v.live_tunnels() <= 1,
        v.state is Idle <==> v.live_tunnels() == 0,
{
}

pub struct TunnelController<H> {
    state: TunnelState<H>,
    next_session: u64,
    launched: Ghost<nat>,
    ended: Ghost<nat>,
}

impl<H> View for TunnelController<H> {
    type V = TunnelView<H>;

    closed spec fn view(&self) -> TunnelView<H> {
        TunnelView {
            state: self.state,
            next_session: self.next_session,
            launched: self.launched@,
            ended: self.ended@,
        }
    }
}

impl<H> TunnelController<H> {
    pub fn new() -> (r: Self)
        ensures
            r@.wf(),
            r@.state is Idle,
            r@.next_session == 0,
            r@.launched == 0,
    {
        TunnelController { state: TunnelState::Idle, next_session: 0, launched: Ghost(0), ended: Ghost(0) }
    }

    pub fn is_active(&self) -> (r: bool)
        ensures
            r == self@.is_active(),
    {
        match self.state {
            TunnelState::Running { .. } => true,
            _ => false,
        }
    }

    /// Starts a tunnel if none is running or starting. From idle the
    /// controller moves to starting and asks the caller to open the tunnel;
    /// otherwise it changes nothing.
    pub fn begin_start(&mut self, auth_token: String, domain: String, forward_to: String) -> (r: StartStep)
        requires
            old(self)@.wf(),
        ensures
            final(self)@.wf(),
            r == old(self)@.start_step(auth_token, domain, forward_to),
            final(self)@ == old(self)@.after_begin_start(),
    {
        match self.state {
            TunnelState::Idle => {
                let session = self.next_session;
                self.state = TunnelState::Starting { session };
                self.next_session = session.wrapping_add(1);
                self.launched = Ghost(self.launched@ + 1);
                StartStep::Launch(TunnelRequest { session, auth_token, domain, forward_to })
            },
            _ => StartStep::AlreadyRunning,
        }
    }

    /// Reports how opening the tunnel of `session` went. On success the
    /// controller runs and keeps the handle; on failure it is idle again.
    /// When that session is not starting, nothing changes and a handle
    /// given is dropped.
    pub fn finish_start(&mut self, session: u64, result: Result<H, String>) -> (r: StartOutcome)
        requires
            old(self)@.wf(),
        ensures
            final(self)@.wf(),
            r == old(self)@.finish_outcome(session, result),
            final(self)@ == old(self)@.after_finish(session, result),
    {
        let starting = match self.state {
            TunnelState::Starting { session: s } => s == session,
            _ => false,
        };
        if !starting {
            return StartOutcome::Failed(StartFailure::NotStarting);
        }
        match result {
            Ok(handle) => {
                self.state = TunnelState::Running { session, handle };
                StartOutcome::Started
            },
            Err(reason) => {
                self.state = TunnelState::Idle;
                self.ended = Ghost(self.ended@ + 1);
                StartOutcome::Failed(StartFailure::Establish(reason))
            },
        }
    }

    /// Stops a running tunnel: the controller is idle again and hands back
    /// the handle, which the caller cancels. Starting or idle, it changes
    /// nothing and hands back nothing.
    pub fn stop(&mut self) -> (r: StopOutcome<H>)
        requires
            old(self)@.wf(),
        ensures
            final(self)@.wf(),
            r == old(self)@.stop_outcome(),
            final(self)@ == old(self)@.after_stop(),
    {
        if !self.is_active() {
            return StopOutcome::NotRunning;
        }
        let mut previous = TunnelState::Idle;
        std::mem::swap(&mut previous, &mut self.state);
        self.ended = Ghost(self.ended@ + 1);
        match previous {
            TunnelState::Running { handle, .. } => StopOutcome::Stopped(handle),
            _ => StopOutcome::NotRunning,
        }
    }

    /// Reports that the tunnel of `session` ended on its own. If that
    /// session is running, the controller is idle again and its handle is
    /// dropped, not cancelled.
    pub fn tunnel_exited(&mut self, session: u64) -> (r: bool)
        requires
            old(self)@.wf(),
        ensures
            final(self)@.wf(),
            r == old(self)@.is_running(session),
            r ==> final(self)@ == old(self)@.ended_now(),
            !r ==> final(self)@ == old(self)@,
    {
        let running = match self.state {
            TunnelState::Running { session: s, .. } => s == session,
            _ => false,
        };
        if running {
            self.state = TunnelState::Idle;
            self.ended = Ghost(self.ended@ + 1);
        }
        running
    }
}

} // verus!
