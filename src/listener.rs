//! One listener: an idle listener owns its bound socket and optional TLS
//! acceptor; starting it moves both into an accept loop, and stopping it moves
//! them back, so the socket is never rebound.
use crate::address::Address;
use vstd::prelude::*;

verus! {

/// The contents of a listener, as its contracts speak of them.
pub struct ListenerView<S, A> {
    pub address: Address,
    pub tls_acceptor: Option<A>,
    pub socket: S,
}

impl<S, A> ListenerView<S, A> {
    /// A listener is served over TLS exactly when it holds an acceptor.
    pub open spec fn over_tls(self) -> bool {
        self.tls_acceptor is Some
    }

    /// `running` and `task` are what starting this listener gives: the address and
    /// the TLS classification stay with the handle, the socket and the acceptor
    /// move into a loop that has not stopped yet.
    pub open spec fn starts_as(self, running: RunningView, task: AcceptLoopView<S, A>) -> bool {
        &&& running.address == self.address
        &&& running.over_tls == self.over_tls()
        &&& task.socket == self.socket
        &&& task.tls_acceptor == self.tls_acceptor
        &&& !task.stopped
    }
}

/// An idle listener: it always owns exactly one bound socket, since it is only
/// made from a successful bind. Whether it serves TLS is read off the presence
/// of an acceptor, never stored beside it.
pub struct Listener<S, A> {
    address: Address,
    tls_acceptor: Option<A>,
    socket: S,
}

impl<S, A> View for Listener<S, A> {
    type V = ListenerView<S, A>;

    closed spec fn view(&self) -> ListenerView<S, A> {
        ListenerView { address: self.address, tls_acceptor: self.tls_acceptor, socket: self.socket }
    }
}

/// The handle's side of a running listener.
pub struct RunningView {
    pub address: Address,
    pub over_tls: bool,
}

impl RunningView {
    /// `restored` is the idle listener that stopping with `task` gives back.
    pub open spec fn stops_as<S, A>(
        self,
        task: AcceptLoopView<S, A>,
        restored: ListenerView<S, A>,
    ) -> bool {
        restored == ListenerView { address: self.address, tls_acceptor: task.tls_acceptor, socket: task.socket }
    }
}

/// A listener whose accept loop runs elsewhere. It keeps the address and the TLS
/// classification; the socket and acceptor are held by the [`AcceptLoop`], and
/// come back through [`RunningListener::stop`].
pub struct RunningListener {
    address: Address,
    over_tls: bool,
}

impl View for RunningListener {
    type V = RunningView;

    closed spec fn view(&self) -> RunningView {
        RunningView { address: self.address, over_tls: self.over_tls }
    }
}

/// What an accept loop holds while it runs.
pub struct AcceptLoopView<S, A> {
    pub socket: S,
    pub tls_acceptor: Option<A>,
    pub stopped: bool,
}

impl<S, A> AcceptLoopView<S, A> {
    /// Both loops hold the same socket and the same acceptor.
    pub open spec fn holds_same(self, other: AcceptLoopView<S, A>) -> bool {
        self.socket == other.socket && self.tls_acceptor == other.tls_acceptor
    }
}

/// What one poll of the accept call gave.
#[derive(Clone, Copy, Debug, PartialEq, Eq, Structural)]
pub enum AcceptOutcome {
    /// A new inbound connection.
    Accepted,
    /// The operating system reported an error for this accept.
    Failed,
}

/// What the accept loop does next.
#[derive(Clone, Copy, Debug, PartialEq, Eq, Structural)]
pub enum LoopAction {
    /// Leave the loop; a connection accepted in the same poll is dropped.
    Stop,
    /// Hand the connection to a new task that performs the TLS handshake first.
    DispatchTls,
    /// Hand the connection to a new task that serves it as it is.
    DispatchPlain,
    /// Log the accept error and wait for the next event.
    LogAcceptError,
    /// Nothing to do: wait for the next event.
    Resume,
}

/// The decision of one iteration of the accept loop. Cancellation is looked at
/// first, so it wins over a connection that arrived in the same poll, and once
/// the loop has stopped it stays stopped. An accept error never ends the loop.
pub open spec fn loop_action(
    stopped: bool,
    over_tls: bool,
    cancelled: bool,
    outcome: Option<AcceptOutcome>,
) -> LoopAction {
    if stopped || cancelled {
        LoopAction::Stop
    } else {
        match outcome {
            Some(AcceptOutcome::Accepted) => if over_tls {
                LoopAction::DispatchTls
            } else {
                LoopAction::DispatchPlain
            },
            Some(AcceptOutcome::Failed) => LoopAction::LogAcceptError,
            None => LoopAction::Resume,
        }
    }
}

/// The accept loop of a started listener: it owns the bound socket and the
/// acceptor until the listener is stopped.
pub struct AcceptLoop<S, A> {
    socket: S,
    tls_acceptor: Option<A>,
    stopped: bool,
}

impl<S, A> View for AcceptLoop<S, A> {
    type V = AcceptLoopView<S, A>;

    closed spec fn view(&self) -> AcceptLoopView<S, A> {
        AcceptLoopView { socket: self.socket, tls_acceptor: self.tls_acceptor, stopped: self.stopped }
    }
}

impl<S, A> Listener<S, A> {
    /// The listener for a socket that was just bound at `address`; it serves
    /// plain connections until an acceptor is attached.
    pub fn new(address: Address, socket: S) -> (r: Listener<S, A>)
        ensures
            r@ == (ListenerView::<S, A> { address, tls_acceptor: None, socket }),
    {
        Listener { address, tls_acceptor: None, socket }
    }

    /// The same listener, with `tls_acceptor` attached.
    pub fn with_tls_acceptor(self, tls_acceptor: A) -> (r: Listener<S, A>)
        ensures
            r@ == (ListenerView { address: self@.address, tls_acceptor: Some(tls_acceptor), socket: self@.socket }),
            r@.over_tls(),
    {
        Listener { address: self.address, tls_acceptor: Some(tls_acceptor), socket: self.socket }
    }

    /// True when connections to this listener go through a TLS handshake.
    pub fn over_tls(&self) -> (r: bool)
        ensures
            r == self@.over_tls(),
    {
        self.tls_acceptor.is_some()
    }

    /// The address the socket is bound to.
    pub fn bound_socket(&self) -> (r: &Address)
        ensures
            *r == self@.address,
    {
        &self.address
    }

    /// The bound socket.
    pub fn socket(&self) -> (r: &S)
        ensures
            *r == self@.socket,
    {
        &self.socket
    }

    /// The attached acceptor, if any.
    pub fn tls_acceptor(&self) -> (r: &Option<A>)
        ensures
            *r == self@.tls_acceptor,
    {
        &self.tls_acceptor
    }

    /// Moves the socket and the acceptor into a fresh accept loop, and keeps the
    /// rest in the handle.
    pub fn start(self) -> (r: (RunningListener, AcceptLoop<S, A>))
        ensures
            self@.starts_as(r.0@, r.1@),
    {
        let over_tls = self.tls_acceptor.is_some();
        let running = RunningListener { address: self.address, over_tls };
        let task = AcceptLoop { socket: self.socket, tls_acceptor: self.tls_acceptor, stopped: false };
        (running, task)
    }
}

impl RunningListener {
    /// The address the running listener is bound to.
    pub fn bound_socket(&self) -> (r: &Address)
        ensures
            *r == self@.address,
    {
        &self.address
    }

    /// True when the running listener serves over TLS.
    pub fn over_tls(&self) -> (r: bool)
        ensures
            r == self@.over_tls,
    {
        self.over_tls
    }

    /// The idle listener again, made of this handle and the loop that it started,
    /// once that loop has exited: the socket and the acceptor come back unchanged.
    pub fn stop<S, A>(self, finished: AcceptLoop<S, A>) -> (r: Listener<S, A>)
        ensures
            self@.stops_as(finished@, r@),
    {
        Listener { address: self.address, tls_acceptor: finished.tls_acceptor, socket: finished.socket }
    }
}

impl<S, A> AcceptLoop<S, A> {
    /// The socket to accept on.
    pub fn socket(&self) -> (r: &S)
        ensures
            *r == self@.socket,
    {
        &self.socket
    }

    /// The acceptor that each accepted connection's handshake uses.
    pub fn tls_acceptor(&self) -> (r: &Option<A>)
        ensures
            *r == self@.tls_acceptor,
    {
        &self.tls_acceptor
    }

    /// True once cancellation has been seen.
    pub fn is_stopped(&self) -> (r: bool)
        ensures
            r == self@.stopped,
    {
        self.stopped
    }

    /// Decides what to do with one wake-up of the loop: `cancelled` tells whether
    /// cancellation has been requested by now, `outcome` what the accept call
    /// gave, if it completed.
    pub fn next_action(&mut self, cancelled: bool, outcome: Option<AcceptOutcome>) -> (r: LoopAction)
        ensures
            r == loop_action(old(self)@.stopped, old(self)@.tls_acceptor is Some, cancelled, outcome),
            final(self)@.stopped == (old(self)@.stopped || cancelled),
            final(self)@.holds_same(old(self)@),
    {
        if self.stopped || cancelled {
            self.stopped = true;
            return LoopAction::Stop;
        }
        match outcome {
            Some(AcceptOutcome::Accepted) => if self.tls_acceptor.is_some() {
                LoopAction::DispatchTls
            } else {
                LoopAction::DispatchPlain
            },
            Some(AcceptOutcome::Failed) => LoopAction::LogAcceptError,
            None => LoopAction::Resume,
        }
    }
}

/// Cancellation comes first: once cancellation has been requested, the next
/// wake-up of the loop stops it, whether or not a connection or an accept error
/// arrived in the same poll, and every later wake-up stops it again.
pub proof fn lemma_cancellation_first(stopped: bool, over_tls: bool, outcome: Option<AcceptOutcome>)
    ensures
        loop_action(stopped, over_tls, true, outcome) == LoopAction::Stop,
        forall|cancelled: bool, later: Option<AcceptOutcome>|
            #[trigger] loop_action(true, over_tls, cancelled, later) == LoopAction::Stop,
{
}

/// Restart keeps the socket: a listener that is started, runs its accept loop for
/// any number of iterations and is stopped comes back as the very listener that
/// was started, with the same address, bound socket and acceptor.
pub proof fn lemma_restart_keeps_socket<S, A>(
    idle: ListenerView<S, A>,
    running: RunningView,
    first: AcceptLoopView<S, A>,
    last: AcceptLoopView<S, A>,
    restored: ListenerView<S, A>,
)
    requires
        idle.starts_as(running, first),
        last.holds_same(first),
        running.stops_as(last, restored),
    ensures
        restored == idle,
{
}

} // verus!
