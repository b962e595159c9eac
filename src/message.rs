//! Messages carried by the hub and the filters that subscribers register.
use vstd::prelude::*;

verus! {

/// A message published on the hub: a camera frame, or the signal that the
/// service is shutting down.
#[derive(Debug)]
pub enum WorkerMessage {
    Frame(Vec<u8>),
    Terminate,
}

/// The mathematical value of a [`WorkerMessage`].
pub enum MessageView {
    Frame(Seq<u8>),
    Terminate,
}

impl View for WorkerMessage {
    type V = MessageView;

    open spec fn view(&self) -> MessageView {
        match self {
            WorkerMessage::Frame(bytes) => MessageView::Frame(bytes@),
            WorkerMessage::Terminate => MessageView::Terminate,
        }
    }
}

impl WorkerMessage {
    /// A copy of the message, with the same bytes.
    pub fn duplicate(&self) -> (r: WorkerMessage)
        ensures
            r@ == self@,
    {
        match self {
            WorkerMessage::Frame(bytes) => {
                let copy = bytes.clone();
                assert(copy@ =~= bytes@);
                WorkerMessage::Frame(copy)
            },
            WorkerMessage::Terminate => WorkerMessage::Terminate,
        }
    }

    pub fn is_terminate(&self) -> (r: bool)
        ensures
            r == (self@ == MessageView::Terminate),
    {
        match self {
            WorkerMessage::Frame(_) => false,
            WorkerMessage::Terminate => true,
        }
    }
}

/// Which published messages a subscriber wants in its mailbox.
/// `Terminate` reaches every subscriber whatever its filter.
#[derive(Clone, Copy, Debug, PartialEq, Eq, Structural)]
pub enum Filter {
    /// Every message.
    All,
    /// Camera frames only.
    Frames,
}

impl Filter {
    pub open spec fn accepts(self, m: MessageView) -> bool {
        match self {
            Filter::All => true,
            Filter::Frames => m is Frame,
        }
    }

    pub fn matches(&self, m: &WorkerMessage) -> (r: bool)
        ensures
            r == self.accepts(m@),
    {
        match self {
            Filter::All => true,
            Filter::Frames => match m {
                WorkerMessage::Frame(_) => true,
                WorkerMessage::Terminate => false,
            },
        }
    }
}

} // verus!
