use vstd::prelude::*;
use crate::error::SendError;
use crate::net::{IpAddress, SocketEndpoint, spec_wildcard_address, wildcard_address};

verus! {

/// How many bytes one receive reads at most: the transport's fixed
/// receive buffer size.
pub const RECV_BUFFER_LEN: usize = 2048;

/// How many binding attempts one poll of `NextRandomUdpSocket` makes
/// before it reports "not yet ready".
pub const BIND_ATTEMPTS_PER_POLL: u8 = 10;

/// The lowest port an ephemeral binding may use.
pub const EPHEMERAL_PORT_MIN: u16 = 1025;

/// The first port above the ephemeral range: ports are drawn from
/// `EPHEMERAL_PORT_MIN` up to but not including this value.
pub const EPHEMERAL_PORT_END: u16 = 65535;

/// Relies on rand::random_range: a value drawn from the given half-open
/// range by the thread-local generator. Nothing more is promised of it;
/// the range must not be empty.
#[verifier::external_body]
fn random_in_range(lo: u16, hi: u16) -> (v: u16)
    requires
        lo < hi,
    ensures
        lo <= v < hi,
{
    rand::random_range(lo..hi)
}

/// What a binding poll asks its driver to do next: try one bind, or give
/// up for this poll and wait to be polled again.
#[derive(Debug, PartialEq, Eq, Structural, Clone, Copy)]
pub enum BindDirective {
    /// Try to bind a datagram socket to this local address.
    Attempt(SocketEndpoint),
    /// Every attempt of this poll is used up: report "not yet ready".
    Exhausted,
}

/// Chooses random ephemeral local bindings for a fresh datagram socket,
/// a bounded number of attempts per poll.
pub struct NextRandomUdpSocket {
    bind_address: IpAddress,
    attempts_left: u8,
}

impl NextRandomUdpSocket {
    /// The wildcard local address every attempt binds to.
    pub closed spec fn spec_bind_address(self) -> IpAddress {
        self.bind_address
    }

    /// How many attempts remain in the current poll.
    pub closed spec fn spec_attempts_left(self) -> u8 {
        self.attempts_left
    }

    /// A binder for the given local wildcard address, with no poll begun.
    pub fn new(bind_address: IpAddress) -> (binder: NextRandomUdpSocket)
        ensures
            binder.spec_bind_address() == bind_address,
            binder.spec_attempts_left() == 0,
    {
        NextRandomUdpSocket { bind_address, attempts_left: 0 }
    }

    /// Begins one poll: grants the fixed number of fresh attempts.
    pub fn begin_poll(&mut self)
        ensures
            final(self).spec_bind_address() == old(self).spec_bind_address(),
            final(self).spec_attempts_left() == BIND_ATTEMPTS_PER_POLL,
    {
        self.attempts_left = BIND_ATTEMPTS_PER_POLL;
    }

    /// The next local address to try: the wildcard address with a port
    /// drawn from the ephemeral range, while attempts remain; once they
    /// are used up, the poll is exhausted and the driver reports "not
    /// yet ready" without scheduling a wake of its own.
    pub fn next_attempt(&mut self) -> (r: BindDirective)
        ensures
            final(self).spec_bind_address() == old(self).spec_bind_address(),
            old(self).spec_attempts_left() == 0 ==> r == BindDirective::Exhausted
                && final(self).spec_attempts_left() == 0,
            old(self).spec_attempts_left() > 0 ==> {
                &&& final(self).spec_attempts_left() == old(self).spec_attempts_left() - 1
                &&& r matches BindDirective::Attempt(ep) && ep.addr
                    == old(self).spec_bind_address()
                    && EPHEMERAL_PORT_MIN <= ep.port < EPHEMERAL_PORT_END
            },
    {
        if self.attempts_left == 0 {
            BindDirective::Exhausted
        } else {
            self.attempts_left = self.attempts_left - 1;
            let port = random_in_range(EPHEMERAL_PORT_MIN, EPHEMERAL_PORT_END);
            BindDirective::Attempt(SocketEndpoint { addr: self.bind_address, port })
        }
    }
}

/// The closable multi-producer queue of outbound message buffers, seen
/// from its single consumer: buffers leave in the order they entered,
/// and "closed" (every sender handle gone) with nothing buffered is the
/// consumer's end-of-input signal.
pub struct OutboundQueue {
    items: Vec<Vec<u8>>,
    closed: bool,
}

impl OutboundQueue {
    /// The buffered items, oldest first.
    pub closed spec fn items_view(self) -> Seq<Seq<u8>> {
        self.items@.map_values(|l: Vec<u8>| l@)
    }

    /// Whether every sender handle is gone.
    pub closed spec fn spec_closed(self) -> bool {
        self.closed
    }

    /// An empty, open queue.
    pub fn new() -> (q: OutboundQueue)
        ensures
            q.items_view() == Seq::<Seq<u8>>::empty(),
            !q.spec_closed(),
    {
        let q = OutboundQueue { items: Vec::new(), closed: false };
        proof {
            assert(q.items_view() =~= Seq::<Seq<u8>>::empty());
        }
        q
    }

    /// Accepts one buffer at the back, unless the queue is closed; on a
    /// live queue it never fails and never blocks.
    pub fn enqueue(&mut self, buffer: Vec<u8>) -> (r: Result<(), SendError>)
        ensures
            final(self).spec_closed() == old(self).spec_closed(),
            r is Ok <==> !old(self).spec_closed(),
            r is Ok ==> final(self).items_view() == old(self).items_view().push(buffer@),
            r is Err ==> *final(self) == *old(self) && r == Err::<(), SendError>(
                SendError::Closed,
            ),
    {
        if self.closed {
            Err(SendError::Closed)
        } else {
            self.items.push(buffer);
            proof {
                assert(self.items_view() =~= old(self).items_view().push(buffer@));
            }
            Ok(())
        }
    }

    /// Hands out the oldest buffer, or nothing when the queue is empty.
    pub fn dequeue(&mut self) -> (r: Option<Vec<u8>>)
        ensures
            final(self).spec_closed() == old(self).spec_closed(),
            old(self).items_view().len() > 0 ==> {
                &&& r matches Some(b) && b@ == old(self).items_view()[0]
                &&& final(self).items_view() == old(self).items_view().drop_first()
            },
            old(self).items_view().len() == 0 ==> r is None && *final(self) == *old(self),
    {
        if self.items.len() == 0 {
            None
        } else {
            let b = self.items.remove(0);
            proof {
                assert(self.items_view() =~= old(self).items_view().drop_first());
            }
            Some(b)
        }
    }

    /// Marks the last sender handle gone; the buffered items stay until
    /// drained.
    pub fn close(&mut self)
        ensures
            final(self).spec_closed(),
            final(self).items_view() == old(self).items_view(),
    {
        self.closed = true;
    }

    /// Whether every sender handle is gone.
    pub fn is_closed(&self) -> (b: bool)
        ensures
            b == self.spec_closed(),
    {
        self.closed
    }

    /// How many buffers are waiting.
    pub fn len(&self) -> (n: usize)
        ensures
            n == self.items_view().len(),
    {
        self.items.len()
    }
}

/// Where the transport stands between the events its driver feeds it.
#[derive(Debug, PartialEq, Eq, Structural, Clone, Copy)]
pub enum Phase {
    /// Between polls; the next poll starts at the flush step.
    Ready,
    /// A send of the pending buffer was requested; its outcome is owed.
    AwaitSend,
    /// A writability check for a freshly dequeued buffer is owed.
    AwaitWrite,
    /// One non-blocking receive is owed.
    AwaitRecv,
    /// The queue closed and drained: the stream has ended for good.
    Closed,
    /// A hard I/O error ended the stream.
    Failed,
}

/// The I/O the transport asks its driver for.
#[derive(Debug, PartialEq, Eq, Structural, Clone, Copy)]
pub enum IoRequest {
    /// Send the pending buffer to the name server, without blocking.
    SendPending,
    /// Ask whether the socket is writable right now.
    PollWrite,
    /// One non-blocking receive into a buffer of `RECV_BUFFER_LEN` bytes.
    Recv,
}

/// What one send attempt came to.
#[derive(Debug, PartialEq, Eq, Structural, Clone, Copy)]
pub enum SendOutcome {
    /// The datagram left the socket.
    Sent,
    /// The socket would block; nothing was sent.
    WouldBlock,
    /// A hard I/O error.
    Failed,
}

/// What a writability check came to.
#[derive(Debug, PartialEq, Eq, Structural, Clone, Copy)]
pub enum WriteReadiness {
    /// The socket can take a send right now.
    Writable,
    /// The socket would block on a send.
    NotWritable,
    /// A hard I/O error.
    Failed,
}

/// What one receive attempt came to.
#[derive(Debug)]
pub enum RecvOutcome {
    /// A datagram arrived, with its source address.
    Datagram(Vec<u8>, SocketEndpoint),
    /// Nothing to read right now.
    WouldBlock,
    /// A hard I/O error.
    Failed,
}

/// One datagram the transport delivers, with the address it came from
/// and whether that address is the configured name server; a mismatch is
/// only flagged, never withheld.
#[derive(Debug)]
pub struct InboundDatagram {
    pub data: Vec<u8>,
    pub src: SocketEndpoint,
    pub from_name_server: bool,
}

/// What one step of the transport yields to its driver.
#[derive(Debug)]
pub enum PollStep {
    /// Perform this I/O and feed the outcome back.
    Io(IoRequest),
    /// Suspend: report "not ready" to the scheduler and poll again later.
    NotReady,
    /// Deliver one received datagram.
    Item(InboundDatagram),
    /// End of the stream: the queue closed and drained.
    Done,
    /// A hard I/O error ended the stream.
    Failed,
}

/// The items an optional buffer contributes to the decomposition.
pub open spec fn opt_seq(o: Option<Seq<u8>>) -> Seq<Seq<u8>> {
    match o {
        Some(b) => seq![b],
        None => Seq::empty(),
    }
}

/// The UDP client transport: a state machine over one datagram socket
/// and the consuming end of the outbound queue, driven by non-blocking
/// polls. Each `PollStep::Io` it returns names the one I/O action its
/// driver owes it next.
pub struct UdpClientStream {
    name_server: SocketEndpoint,
    outbound_messages: OutboundQueue,
    outbound_opt: Option<Vec<u8>>,
    awaiting_write: Option<Vec<u8>>,
    phase: Phase,
    enqueued: Ghost<Seq<Seq<u8>>>,
    resolved: Ghost<Seq<(Seq<u8>, bool)>>,
}

impl UdpClientStream {
    /// The destination every request goes to.
    pub closed spec fn spec_name_server(self) -> SocketEndpoint {
        self.name_server
    }

    /// Where the transport stands.
    pub closed spec fn spec_phase(self) -> Phase {
        self.phase
    }

    /// The pending-send slot.
    pub closed spec fn spec_pending(self) -> Option<Seq<u8>> {
        match self.outbound_opt {
            Some(b) => Some(b@),
            None => None,
        }
    }

    /// The dequeued buffer whose writability check is still owed.
    pub closed spec fn spec_awaiting(self) -> Option<Seq<u8>> {
        match self.awaiting_write {
            Some(b) => Some(b@),
            None => None,
        }
    }

    /// The buffers still queued, oldest first.
    pub closed spec fn queue_view(self) -> Seq<Seq<u8>> {
        self.outbound_messages.items_view()
    }

    /// Whether every sender handle is gone.
    pub closed spec fn spec_senders_closed(self) -> bool {
        self.outbound_messages.spec_closed()
    }

    /// Every buffer ever accepted by `send`, in acceptance order.
    pub closed spec fn enqueued(self) -> Seq<Seq<u8>> {
        self.enqueued@
    }

    /// Every dequeued buffer whose fate is settled, in dequeue order:
    /// `true` marks one written to the socket, `false` one dropped at a
    /// failed writability check.
    pub closed spec fn resolved(self) -> Seq<(Seq<u8>, bool)> {
        self.resolved@
    }

    /// The settled buffers themselves, in dequeue order.
    pub open spec fn resolved_data(self) -> Seq<Seq<u8>> {
        self.resolved().map_values(|e: (Seq<u8>, bool)| e.0)
    }

    /// The buffers written to the socket, in the order they were written.
    pub open spec fn sent_list(self) -> Seq<Seq<u8>> {
        self.resolved().filter(|e: (Seq<u8>, bool)| e.1).map_values(|e: (Seq<u8>, bool)| e.0)
    }

    /// The at most one buffer the transport holds in hand: the
    /// pending-send slot, or a dequeued buffer awaiting its writability
    /// check.
    pub open spec fn held(self) -> Seq<Seq<u8>> {
        opt_seq(self.spec_pending()) + opt_seq(self.spec_awaiting())
    }

    /// Whether the transport is gone for its producers: the senders are
    /// closed or the stream has ended.
    pub open spec fn torn_down(self) -> bool {
        self.spec_senders_closed() || self.spec_phase() is Closed || self.spec_phase() is Failed
    }

    /// The transport's invariant: the accepted buffers decompose, in
    /// order, into the settled ones, the at most one in hand, and the
    /// queued ones; and the phase agrees with what is in hand.
    pub open spec fn wf(self) -> bool {
        &&& self.enqueued() == self.resolved_data() + self.held() + self.queue_view()
        &&& (self.spec_phase() is AwaitWrite <==> self.spec_awaiting() is Some)
        &&& (self.spec_phase() is AwaitSend ==> self.spec_pending() is Some)
        &&& !(self.spec_pending() is Some && self.spec_awaiting() is Some)
        &&& (self.spec_phase() is Closed ==> self.spec_senders_closed())
    }

    /// A fresh transport for the given name server, paired with the
    /// binder that will choose its local socket: the binder binds to the
    /// wildcard address of the name server's own family.
    pub fn new(name_server: SocketEndpoint) -> (r: (UdpClientStream, NextRandomUdpSocket))
        ensures
            r.0.wf(),
            r.0.spec_name_server() == name_server,
            r.0.spec_phase() == Phase::Ready,
            r.0.spec_pending() is None,
            r.0.spec_awaiting() is None,
            r.0.queue_view() == Seq::<Seq<u8>>::empty(),
            !r.0.spec_senders_closed(),
            r.0.enqueued() == Seq::<Seq<u8>>::empty(),
            r.0.resolved() == Seq::<(Seq<u8>, bool)>::empty(),
            r.1.spec_bind_address() == spec_wildcard_address(name_server.addr.spec_family()),
            r.1.spec_attempts_left() == 0,
    {
        let binder = Self::next_bound_local_address(&name_server);
        let stream = UdpClientStream {
            name_server,
            outbound_messages: OutboundQueue::new(),
            outbound_opt: None,
            awaiting_write: None,
            phase: Phase::Ready,
            enqueued: Ghost(Seq::empty()),
            resolved: Ghost(Seq::empty()),
        };
        proof {
            assert(stream.resolved_data() =~= Seq::<Seq<u8>>::empty());
            assert(stream.enqueued() =~= stream.resolved_data() + stream.held()
                + stream.queue_view());
        }
        (stream, binder)
    }

    /// A binder for the local wildcard address of the name server's
    /// family: an IPv4 destination gets an IPv4 local binding, an IPv6
    /// destination an IPv6 one.
    pub fn next_bound_local_address(name_server: &SocketEndpoint) -> (binder: NextRandomUdpSocket)
        ensures
            binder.spec_bind_address() == spec_wildcard_address(name_server.addr.spec_family()),
            binder.spec_bind_address().spec_family() == name_server.addr.spec_family(),
            binder.spec_attempts_left() == 0,
    {
        let family = name_server.addr.family();
        NextRandomUdpSocket::new(wildcard_address(family))
    }

    /// Accepts one buffer for sending: it joins the back of the queue,
    /// unless the transport is torn down, in which case nothing changes
    /// and the caller gets the error back.
    pub fn send(&mut self, buffer: Vec<u8>) -> (r: Result<(), SendError>)
        ensures
            r is Ok <==> !old(self).torn_down(),
            r is Ok ==> {
                &&& final(self).queue_view() == old(self).queue_view().push(buffer@)
                &&& final(self).enqueued() == old(self).enqueued().push(buffer@)
                &&& final(self).resolved() == old(self).resolved()
                &&& final(self).spec_pending() == old(self).spec_pending()
                &&& final(self).spec_awaiting() == old(self).spec_awaiting()
                &&& final(self).spec_phase() == old(self).spec_phase()
                &&& final(self).spec_name_server() == old(self).spec_name_server()
                &&& final(self).spec_senders_closed() == old(self).spec_senders_closed()
            },
            r is Err ==> *final(self) == *old(self) && r == Err::<(), SendError>(
                SendError::Closed,
            ),
            old(self).wf() ==> final(self).wf(),
    {
        if matches!(self.phase, Phase::Closed) || matches!(self.phase, Phase::Failed)
            || self.outbound_messages.is_closed() {
            return Err(SendError::Closed);
        }
        self.enqueued = Ghost(self.enqueued@.push(buffer@));
        let enq = self.outbound_messages.enqueue(buffer);
        match enq {
            Ok(()) => {
                proof {
                    if old(self).wf() {
                        assert(self.enqueued() =~= self.resolved_data() + self.held()
                            + self.queue_view());
                    }
                }
                Ok(())
            },
            Err(_) => {
                proof {
                    assert(false);
                }
                Err(SendError::Closed)
            },
        }
    }

    /// Drops every sender handle: the queue closes, and the stream will
    /// end once the queue drains.
    pub fn close_senders(&mut self)
        ensures
            final(self).spec_senders_closed(),
            final(self).queue_view() == old(self).queue_view(),
            final(self).enqueued() == old(self).enqueued(),
            final(self).resolved() == old(self).resolved(),
            final(self).spec_pending() == old(self).spec_pending(),
            final(self).spec_awaiting() == old(self).spec_awaiting(),
            final(self).spec_phase() == old(self).spec_phase(),
            final(self).spec_name_server() == old(self).spec_name_server(),
            old(self).wf() ==> final(self).wf(),
    {
        self.outbound_messages.close();
    }

    /// One poll from an idle transport, step one: a pending buffer is
    /// flushed before anything else, so the same buffer is retried until
    /// the socket takes it; with no pending buffer the transport pulls
    /// from the queue, ends the stream if the queue closed and drained,
    /// or turns to receiving.
    pub fn poll(&mut self) -> (r: PollStep)
        requires
            old(self).wf(),
            old(self).spec_phase() == Phase::Ready,
        ensures
            final(self).wf(),
            final(self).spec_name_server() == old(self).spec_name_server(),
            final(self).spec_senders_closed() == old(self).spec_senders_closed(),
            final(self).enqueued() == old(self).enqueued(),
            old(self).spec_pending() is Some ==> {
                &&& r == PollStep::Io(IoRequest::SendPending)
                &&& final(self).spec_phase() == Phase::AwaitSend
                &&& final(self).spec_pending() == old(self).spec_pending()
                &&& final(self).queue_view() == old(self).queue_view()
                &&& final(self).resolved() == old(self).resolved()
            },
            old(self).spec_pending() is None ==> {
                &&& final(self).resolved() == old(self).resolved()
                &&& pull_transition(
                    old(self).queue_view(),
                    old(self).spec_senders_closed(),
                    *final(self),
                    r,
                )
            },
    {
        if self.outbound_opt.is_some() {
            self.phase = Phase::AwaitSend;
            PollStep::Io(IoRequest::SendPending)
        } else {
            self.pull_next()
        }
    }

    /// Feeds back the outcome of the requested send. Success clears the
    /// slot, settles the buffer as sent, and pulls the next item; a
    /// socket that would block suspends with the buffer kept untouched
    /// in the slot, so no data is lost on this path; a hard error ends
    /// the stream.
    pub fn on_send(&mut self, outcome: SendOutcome) -> (r: PollStep)
        requires
            old(self).wf(),
            old(self).spec_phase() == Phase::AwaitSend,
        ensures
            final(self).wf(),
            final(self).spec_name_server() == old(self).spec_name_server(),
            final(self).spec_senders_closed() == old(self).spec_senders_closed(),
            final(self).enqueued() == old(self).enqueued(),
            outcome == SendOutcome::Sent ==> {
                &&& old(self).spec_pending() matches Some(d) && final(self).resolved()
                    == old(self).resolved().push((d, true))
                &&& pull_transition(
                    old(self).queue_view(),
                    old(self).spec_senders_closed(),
                    *final(self),
                    r,
                )
            },
            outcome == SendOutcome::WouldBlock ==> {
                &&& r == PollStep::NotReady
                &&& final(self).spec_phase() == Phase::Ready
                &&& final(self).spec_pending() == old(self).spec_pending()
                &&& final(self).spec_awaiting() is None
                &&& final(self).queue_view() == old(self).queue_view()
                &&& final(self).resolved() == old(self).resolved()
            },
            outcome == SendOutcome::Failed ==> {
                &&& r == PollStep::Failed
                &&& final(self).spec_phase() == Phase::Failed
                &&& final(self).spec_pending() == old(self).spec_pending()
                &&& final(self).spec_awaiting() is None
                &&& final(self).queue_view() == old(self).queue_view()
                &&& final(self).resolved() == old(self).resolved()
            },
    {
        match outcome {
            SendOutcome::Sent => {
                let sent = self.outbound_opt.take();
                self.resolved = Ghost(self.resolved@.push((sent->Some_0@, true)));
                self.phase = Phase::Ready;
                proof {
                    let d = old(self).spec_pending()->Some_0;
                    assert(self.resolved_data() =~= old(self).resolved_data().push(d));
                    assert(old(self).held() =~= seq![d]);
                    assert(self.enqueued() =~= self.resolved_data() + self.held()
                        + self.queue_view());
                }
                self.pull_next()
            },
            SendOutcome::WouldBlock => {
                self.phase = Phase::Ready;
                PollStep::NotReady
            },
            SendOutcome::Failed => {
                self.phase = Phase::Failed;
                PollStep::Failed
            },
        }
    }

    /// Feeds back the requested writability check for a freshly dequeued
    /// buffer. A writable socket moves the buffer into the pending-send
    /// slot and asks for the send; a socket that would block suspends
    /// and the dequeued buffer is discarded, not kept anywhere — the
    /// documented fire-and-forget edge of this transport; a hard error
    /// ends the stream.
    pub fn on_write_ready(&mut self, readiness: WriteReadiness) -> (r: PollStep)
        requires
            old(self).wf(),
            old(self).spec_phase() == Phase::AwaitWrite,
        ensures
            final(self).wf(),
            final(self).spec_name_server() == old(self).spec_name_server(),
            final(self).spec_senders_closed() == old(self).spec_senders_closed(),
            final(self).enqueued() == old(self).enqueued(),
            final(self).queue_view() == old(self).queue_view(),
            final(self).spec_awaiting() is None,
            old(self).spec_awaiting() matches Some(b) ==> {
                &&& readiness == WriteReadiness::Writable ==> {
                    &&& r == PollStep::Io(IoRequest::SendPending)
                    &&& final(self).spec_phase() == Phase::AwaitSend
                    &&& final(self).spec_pending() == Some(b)
                    &&& final(self).resolved() == old(self).resolved()
                }
                &&& readiness == WriteReadiness::NotWritable ==> {
                    &&& r == PollStep::NotReady
                    &&& final(self).spec_phase() == Phase::Ready
                    &&& final(self).spec_pending() is None
                    &&& final(self).resolved() == old(self).resolved().push((b, false))
                }
                &&& readiness == WriteReadiness::Failed ==> {
                    &&& r == PollStep::Failed
                    &&& final(self).spec_phase() == Phase::Failed
                    &&& final(self).spec_pending() is None
                    &&& final(self).resolved() == old(self).resolved().push((b, false))
                }
            },
    {
        let buffer = self.awaiting_write.take();
        let ghost b = old(self).spec_awaiting()->Some_0;
        match readiness {
            WriteReadiness::Writable => {
                self.outbound_opt = buffer;
                self.phase = Phase::AwaitSend;
                proof {
                    assert(self.held() =~= old(self).held());
                    assert(self.enqueued() =~= self.resolved_data() + self.held()
                        + self.queue_view());
                }
                PollStep::Io(IoRequest::SendPending)
            },
            WriteReadiness::NotWritable => {
                self.resolved = Ghost(self.resolved@.push((b, false)));
                self.phase = Phase::Ready;
                proof {
                    assert(self.resolved_data() =~= old(self).resolved_data().push(b));
                    assert(old(self).held() =~= seq![b]);
                    assert(self.enqueued() =~= self.resolved_data() + self.held()
                        + self.queue_view());
                }
                PollStep::NotReady
            },
            WriteReadiness::Failed => {
                self.resolved = Ghost(self.resolved@.push((b, false)));
                self.phase = Phase::Failed;
                proof {
                    assert(self.resolved_data() =~= old(self).resolved_data().push(b));
                    assert(old(self).held() =~= seq![b]);
                    assert(self.enqueued() =~= self.resolved_data() + self.held()
                        + self.queue_view());
                }
                PollStep::Failed
            },
        }
    }

    /// Feeds back the requested receive. A datagram is delivered
    /// whatever address it came from — a source other than the name
    /// server is only flagged, never dropped; nothing to read suspends;
    /// a hard error ends the stream. One datagram is delivered per poll.
    pub fn on_recv(&mut self, outcome: RecvOutcome) -> (r: PollStep)
        requires
            old(self).wf(),
            old(self).spec_phase() == Phase::AwaitRecv,
            outcome matches RecvOutcome::Datagram(d, _src) ==> d@.len() <= RECV_BUFFER_LEN,
        ensures
            final(self).wf(),
            final(self).spec_name_server() == old(self).spec_name_server(),
            final(self).spec_senders_closed() == old(self).spec_senders_closed(),
            final(self).enqueued() == old(self).enqueued(),
            final(self).queue_view() == old(self).queue_view(),
            final(self).resolved() == old(self).resolved(),
            final(self).spec_pending() == old(self).spec_pending(),
            final(self).spec_awaiting() == old(self).spec_awaiting(),
            outcome matches RecvOutcome::Datagram(d, src) ==> {
                &&& r matches PollStep::Item(item) && item.data@ == d@ && item.src == src && (
                item.from_name_server <==> src == old(self).spec_name_server())
                &&& final(self).spec_phase() == Phase::Ready
            },
            outcome matches RecvOutcome::WouldBlock ==> r == PollStep::NotReady
                && final(self).spec_phase() == Phase::Ready,
            outcome matches RecvOutcome::Failed ==> r == PollStep::Failed
                && final(self).spec_phase() == Phase::Failed,
    {
        match outcome {
            RecvOutcome::Datagram(data, src) => {
                self.phase = Phase::Ready;
                let from_name_server = src == self.name_server;
                PollStep::Item(InboundDatagram { data, src, from_name_server })
            },
            RecvOutcome::WouldBlock => {
                self.phase = Phase::Ready;
                PollStep::NotReady
            },
            RecvOutcome::Failed => {
                self.phase = Phase::Failed;
                PollStep::Failed
            },
        }
    }

    /// The buffer in the pending-send slot, for the driver to hand to
    /// the socket when `IoRequest::SendPending` asks for it.
    pub fn pending(&self) -> (r: Option<&Vec<u8>>)
        ensures
            r matches Some(b) ==> self.spec_pending() == Some(b@),
            r is None <==> self.spec_pending() is None,
    {
        self.outbound_opt.as_ref()
    }

    /// The destination every request goes to.
    pub fn name_server(&self) -> (ns: SocketEndpoint)
        ensures
            ns == self.spec_name_server(),
    {
        self.name_server
    }

    /// Where the transport stands: which event, if any, it is owed.
    pub fn phase(&self) -> (p: Phase)
        ensures
            p == self.spec_phase(),
    {
        self.phase
    }

    /// Pulls the next outbound item: a queued buffer asks for its
    /// writability check; an empty queue whose senders are gone ends the
    /// stream; an empty queue that is still open turns to receiving.
    fn pull_next(&mut self) -> (r: PollStep)
        requires
            old(self).wf(),
            old(self).spec_pending() is None,
            old(self).spec_awaiting() is None,
            !(old(self).spec_phase() is Closed),
        ensures
            final(self).wf(),
            final(self).spec_name_server() == old(self).spec_name_server(),
            final(self).spec_senders_closed() == old(self).spec_senders_closed(),
            final(self).enqueued() == old(self).enqueued(),
            final(self).resolved() == old(self).resolved(),
            pull_transition(
                old(self).queue_view(),
                old(self).spec_senders_closed(),
                *final(self),
                r,
            ),
    {
        let ghost pre_queue = self.queue_view();
        match self.outbound_messages.dequeue() {
            Some(buffer) => {
                self.awaiting_write = Some(buffer);
                self.phase = Phase::AwaitWrite;
                proof {
                    assert(pre_queue =~= seq![pre_queue[0]] + pre_queue.drop_first());
                    assert(self.held() =~= seq![pre_queue[0]]);
                    assert(old(self).held() =~= Seq::<Seq<u8>>::empty());
                    assert(self.enqueued() =~= self.resolved_data() + self.held()
                        + self.queue_view());
                }
                PollStep::Io(IoRequest::PollWrite)
            },
            None => {
                if self.outbound_messages.is_closed() {
                    self.phase = Phase::Closed;
                    PollStep::Done
                } else {
                    self.phase = Phase::AwaitRecv;
                    PollStep::Io(IoRequest::Recv)
                }
            },
        }
    }
}

/// What pulling the next outbound item does, as a relation between the
/// queue before and the transport and step after: the front buffer, if
/// any, moves into the transport's hand awaiting its writability check;
/// otherwise the stream ends exactly when the senders are gone, and
/// turns to receiving exactly when they are not.
pub open spec fn pull_transition(
    pre_queue: Seq<Seq<u8>>,
    closed: bool,
    post: UdpClientStream,
    r: PollStep,
) -> bool {
    &&& post.spec_pending() is None
    &&& if pre_queue.len() > 0 {
        &&& r == PollStep::Io(IoRequest::PollWrite)
        &&& post.spec_phase() == Phase::AwaitWrite
        &&& post.spec_awaiting() == Some(pre_queue[0])
        &&& post.queue_view() == pre_queue.drop_first()
    } else if closed {
        &&& r == PollStep::Done
        &&& post.spec_phase() == Phase::Closed
        &&& post.spec_awaiting() is None
        &&& post.queue_view() == pre_queue
    } else {
        &&& r == PollStep::Io(IoRequest::Recv)
        &&& post.spec_phase() == Phase::AwaitRecv
        &&& post.spec_awaiting() is None
        &&& post.queue_view() == pre_queue
    }
}

/// Law: the buffers accepted for sending decompose, in acceptance order,
/// into those already settled (written to the socket, or dropped at a
/// failed writability check), the at most one in the transport's hand,
/// and those still queued. The buffers written to the socket are
/// therefore exactly the accepted ones, byte for byte and in acceptance
/// order, less the dropped and the not yet processed.
pub proof fn lemma_sent_preserves_enqueue_order(t: UdpClientStream)
    requires
        t.wf(),
    ensures
        t.enqueued() == t.resolved_data() + t.held() + t.queue_view(),
        t.sent_list() == t.resolved().filter(|e: (Seq<u8>, bool)| e.1).map_values(
            |e: (Seq<u8>, bool)| e.0,
        ),
{
}

/// Law: the transport never holds more than one buffer outside the
/// queue — the pending-send slot and the writability check together
/// carry at most one buffer at any point.
pub proof fn lemma_at_most_one_in_flight(t: UdpClientStream)
    requires
        t.wf(),
    ensures
        t.held().len() <= 1,
{
}

} // verus!
