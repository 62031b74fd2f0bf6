use trust_dns::error::SendError;
use trust_dns::net::{IpAddress, SocketEndpoint};
use trust_dns::udp::{
    BindDirective, IoRequest, OutboundQueue, Phase, PollStep, RecvOutcome, SendOutcome,
    UdpClientStream, WriteReadiness, BIND_ATTEMPTS_PER_POLL, EPHEMERAL_PORT_END,
    EPHEMERAL_PORT_MIN,
};

fn v4_endpoint(bits: u32, port: u16) -> SocketEndpoint {
    SocketEndpoint { addr: IpAddress::V4 { bits }, port }
}

fn v6_endpoint(hi: u64, lo: u64, port: u16) -> SocketEndpoint {
    SocketEndpoint { addr: IpAddress::V6 { bits_hi: hi, bits_lo: lo }, port }
}

#[test]
fn binder_ports_stay_in_the_ephemeral_range() {
    let ns = v4_endpoint(0x7f000001, 53);
    let (_stream, mut binder) = UdpClientStream::new(ns);
    for _round in 0..20 {
        binder.begin_poll();
        let mut attempts = 0;
        loop {
            match binder.next_attempt() {
                BindDirective::Attempt(ep) => {
                    attempts += 1;
                    assert!(EPHEMERAL_PORT_MIN <= ep.port && ep.port < EPHEMERAL_PORT_END);
                    assert_eq!(ep.addr, IpAddress::V4 { bits: 0 });
                }
                BindDirective::Exhausted => break,
            }
        }
        assert_eq!(attempts, BIND_ATTEMPTS_PER_POLL as u32);
    }
}

#[test]
fn binder_family_follows_the_destination() {
    let ns4 = v4_endpoint(0x7f000001, 53);
    let (_s4, mut b4) = UdpClientStream::new(ns4);
    b4.begin_poll();
    match b4.next_attempt() {
        BindDirective::Attempt(ep) => assert_eq!(ep.addr, IpAddress::V4 { bits: 0 }),
        BindDirective::Exhausted => panic!("an attempt was owed"),
    }

    let ns6 = v6_endpoint(0, 1, 53);
    let (_s6, mut b6) = UdpClientStream::new(ns6);
    b6.begin_poll();
    match b6.next_attempt() {
        BindDirective::Attempt(ep) => {
            assert_eq!(ep.addr, IpAddress::V6 { bits_hi: 0, bits_lo: 0 })
        }
        BindDirective::Exhausted => panic!("an attempt was owed"),
    }
}

#[test]
fn end_to_end_send_then_close_ends_the_stream() {
    let ns = v4_endpoint(0x7f000001, 53);
    let (mut stream, _binder) = UdpClientStream::new(ns);
    let payload: Vec<u8> = vec![7u8; 12];
    stream.send(payload.clone()).unwrap();

    // The poll dequeues the buffer and asks whether the socket can take it.
    match stream.poll() {
        PollStep::Io(IoRequest::PollWrite) => {}
        _ => panic!("a writability check was owed"),
    }
    // Writable: the buffer moves into the pending-send slot and is sent.
    match stream.on_write_ready(WriteReadiness::Writable) {
        PollStep::Io(IoRequest::SendPending) => {}
        _ => panic!("a send was owed"),
    }
    // The socket sees exactly the 12 bytes that were enqueued.
    assert_eq!(stream.pending().unwrap(), &payload);
    assert_eq!(stream.name_server(), ns);
    // The send succeeds; the drained queue is open, so the poll turns to
    // receiving.
    match stream.on_send(SendOutcome::Sent) {
        PollStep::Io(IoRequest::Recv) => {}
        _ => panic!("a receive was owed"),
    }
    assert!(stream.pending().is_none());
    match stream.on_recv(RecvOutcome::WouldBlock) {
        PollStep::NotReady => {}
        _ => panic!("nothing to read: the poll suspends"),
    }

    // Dropping every sender ends the stream at the next poll, without
    // another receive being attempted.
    stream.close_senders();
    match stream.poll() {
        PollStep::Done => {}
        _ => panic!("the stream was owed its end"),
    }
    assert_eq!(stream.phase(), Phase::Closed);
}

#[test]
fn stream_ends_only_after_the_queue_drains() {
    let ns = v4_endpoint(0x0a000001, 53);
    let (mut stream, _binder) = UdpClientStream::new(ns);
    stream.send(vec![1]).unwrap();
    stream.send(vec![2]).unwrap();
    stream.close_senders();

    match stream.poll() {
        PollStep::Io(IoRequest::PollWrite) => {}
        _ => panic!("a writability check was owed"),
    }
    match stream.on_write_ready(WriteReadiness::Writable) {
        PollStep::Io(IoRequest::SendPending) => {}
        _ => panic!("a send was owed"),
    }
    assert_eq!(stream.pending().unwrap(), &vec![1]);
    // The first send completes, but the stream must not end yet: the
    // second buffer is still queued.
    match stream.on_send(SendOutcome::Sent) {
        PollStep::Io(IoRequest::PollWrite) => {}
        _ => panic!("the second buffer was owed before the end"),
    }
    match stream.on_write_ready(WriteReadiness::Writable) {
        PollStep::Io(IoRequest::SendPending) => {}
        _ => panic!("a send was owed"),
    }
    assert_eq!(stream.pending().unwrap(), &vec![2]);
    // Only now, with the queue drained and every sender gone, does the
    // stream end.
    match stream.on_send(SendOutcome::Sent) {
        PollStep::Done => {}
        _ => panic!("the end of the stream was owed"),
    }
    assert_eq!(stream.phase(), Phase::Closed);
}

#[test]
fn a_buffer_dequeued_while_unwritable_is_dropped() {
    let ns = v4_endpoint(0x0a000001, 53);
    let (mut stream, _binder) = UdpClientStream::new(ns);
    stream.send(vec![9, 9, 9]).unwrap();

    match stream.poll() {
        PollStep::Io(IoRequest::PollWrite) => {}
        _ => panic!("a writability check was owed"),
    }
    // Not writable: the dequeued buffer is discarded, not kept anywhere.
    match stream.on_write_ready(WriteReadiness::NotWritable) {
        PollStep::NotReady => {}
        _ => panic!("the poll suspends"),
    }
    assert!(stream.pending().is_none());
    // The next poll finds the queue empty: the buffer is gone for good.
    match stream.poll() {
        PollStep::Io(IoRequest::Recv) => {}
        _ => panic!("nothing was left to send"),
    }
}

#[test]
fn a_pending_buffer_survives_a_blocked_send() {
    let ns = v4_endpoint(0x0a000001, 53);
    let (mut stream, _binder) = UdpClientStream::new(ns);
    let payload = vec![5u8, 6, 7];
    stream.send(payload.clone()).unwrap();
    match stream.poll() {
        PollStep::Io(IoRequest::PollWrite) => {}
        _ => panic!("a writability check was owed"),
    }
    match stream.on_write_ready(WriteReadiness::Writable) {
        PollStep::Io(IoRequest::SendPending) => {}
        _ => panic!("a send was owed"),
    }
    // The socket blocks: the buffer stays in the slot untouched.
    match stream.on_send(SendOutcome::WouldBlock) {
        PollStep::NotReady => {}
        _ => panic!("the poll suspends"),
    }
    assert_eq!(stream.pending().unwrap(), &payload);
    // The next poll retries exactly the same buffer.
    match stream.poll() {
        PollStep::Io(IoRequest::SendPending) => {}
        _ => panic!("the retry was owed"),
    }
    assert_eq!(stream.pending().unwrap(), &payload);
}

#[test]
fn a_datagram_from_a_stranger_is_still_delivered() {
    let ns = v4_endpoint(0x0a000001, 53);
    let stranger = v4_endpoint(0x0a000002, 53);
    let (mut stream, _binder) = UdpClientStream::new(ns);

    match stream.poll() {
        PollStep::Io(IoRequest::Recv) => {}
        _ => panic!("a receive was owed"),
    }
    match stream.on_recv(RecvOutcome::Datagram(vec![1, 2, 3], stranger)) {
        PollStep::Item(item) => {
            assert_eq!(item.data, vec![1, 2, 3]);
            assert_eq!(item.src, stranger);
            assert!(!item.from_name_server);
        }
        _ => panic!("the datagram was owed to the consumer"),
    }

    match stream.poll() {
        PollStep::Io(IoRequest::Recv) => {}
        _ => panic!("a receive was owed"),
    }
    match stream.on_recv(RecvOutcome::Datagram(vec![4], ns)) {
        PollStep::Item(item) => {
            assert_eq!(item.data, vec![4]);
            assert_eq!(item.src, ns);
            assert!(item.from_name_server);
        }
        _ => panic!("the datagram was owed to the consumer"),
    }
}

#[test]
fn send_fails_once_torn_down() {
    let ns = v4_endpoint(0x0a000001, 53);
    let (mut stream, _binder) = UdpClientStream::new(ns);
    stream.close_senders();
    assert_eq!(stream.send(vec![1]), Err(SendError::Closed));
}

#[test]
fn a_hard_send_error_ends_the_stream() {
    let ns = v4_endpoint(0x0a000001, 53);
    let (mut stream, _binder) = UdpClientStream::new(ns);
    stream.send(vec![1]).unwrap();
    match stream.poll() {
        PollStep::Io(IoRequest::PollWrite) => {}
        _ => panic!("a writability check was owed"),
    }
    match stream.on_write_ready(WriteReadiness::Writable) {
        PollStep::Io(IoRequest::SendPending) => {}
        _ => panic!("a send was owed"),
    }
    match stream.on_send(SendOutcome::Failed) {
        PollStep::Failed => {}
        _ => panic!("the error was owed"),
    }
    assert_eq!(stream.phase(), Phase::Failed);
    assert_eq!(stream.send(vec![2]), Err(SendError::Closed));
}

#[test]
fn outbound_queue_is_first_in_first_out() {
    let mut q = OutboundQueue::new();
    assert!(!q.is_closed());
    assert_eq!(q.len(), 0);
    q.enqueue(vec![1]).unwrap();
    q.enqueue(vec![2]).unwrap();
    q.enqueue(vec![3]).unwrap();
    assert_eq!(q.len(), 3);
    assert_eq!(q.dequeue(), Some(vec![1]));
    assert_eq!(q.dequeue(), Some(vec![2]));
    q.close();
    assert!(q.is_closed());
    assert_eq!(q.enqueue(vec![4]), Err(SendError::Closed));
    assert_eq!(q.dequeue(), Some(vec![3]));
    assert_eq!(q.dequeue(), None);
}
