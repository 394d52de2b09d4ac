//! The decisions of the forwarding engine: how a copy direction's failure is
//! classified, how the two directions of a flow settle into one outcome, and
//! what the UDP relay loops hand on for each datagram or stream read.
use vstd::prelude::*;
use crate::wire::copy_range;

verus! {

/// The size of the buffer that each UDP relay loop reads into.
pub const UDP_BUFFER_SIZE: usize = 1024;

/// What the transport reports when a read or write of a stream fails.
#[derive(PartialEq, Eq, Structural, Clone, Copy, Debug)]
pub enum TransportFailure {
    /// The QUIC connection is gone: the peer closed it, or it timed out.
    ConnectionLost,
    /// Any other failure of the stream or of the local socket.
    Other,
}

/// How a failed read or write of one copy direction counts.
#[derive(PartialEq, Eq, Structural, Clone, Copy, Debug)]
pub enum FailureClass {
    /// The peer closed the connection while the other direction was still
    /// draining: the expected way for a flow to end.
    BenignClose,
    /// Any other I/O failure: reported, and it ends the flow.
    FatalIo,
}

/// How one copy direction ended.
pub enum LegEnd<E> {
    /// It reached end-of-stream.
    Done,
    /// It stopped on a benign close.
    Closed,
    /// It stopped on a fatal failure.
    Broken(E),
}

/// Classifies a failure by the category the transport gives it: a lost
/// connection is a benign close, anything else is fatal.
pub fn classify_failure(failure: TransportFailure) -> (r: FailureClass)
    ensures
        failure == TransportFailure::ConnectionLost ==> r == FailureClass::BenignClose,
        failure == TransportFailure::Other ==> r == FailureClass::FatalIo,
{
    match failure {
        TransportFailure::ConnectionLost => FailureClass::BenignClose,
        TransportFailure::Other => FailureClass::FatalIo,
    }
}

impl<E> LegEnd<E> {
    /// The end of a direction that stopped on a failure of the given class.
    pub fn from_failure(class: FailureClass, error: E) -> (r: LegEnd<E>)
        ensures
            class == FailureClass::BenignClose ==> r is Closed,
            class == FailureClass::FatalIo ==> r == LegEnd::Broken(error),
    {
        match class {
            FailureClass::BenignClose => LegEnd::Closed,
            FailureClass::FatalIo => LegEnd::Broken(error),
        }
    }
}

/// The outcome of a flow once both directions have ended: the first
/// direction's fatal failure if it had one, else the second's, else success.
/// Benign closes never count as failures.
pub fn settle_flow<E>(first: LegEnd<E>, second: LegEnd<E>) -> (r: Result<(), E>)
    ensures
        first is Broken ==> r == Err::<(), E>(first->Broken_0),
        !(first is Broken) && second is Broken ==> r == Err::<(), E>(second->Broken_0),
        !(first is Broken) && !(second is Broken) ==> r is Ok,
{
    match first {
        LegEnd::Broken(e) => Err(e),
        _ => match second {
            LegEnd::Broken(e) => Err(e),
            _ => Ok(()),
        },
    }
}

/// Local UDP to stream: the payload of a datagram of `received` bytes, taken
/// from the receive buffer, to be written to the stream as one write.
pub fn datagram_payload(buf: &[u8], received: usize) -> (r: Vec<u8>)
    requires
        received <= buf@.len(),
    ensures
        r@ == buf@.subrange(0, received as int),
{
    copy_range(buf, 0, received)
}

/// Stream to local UDP: what one bounded stream read hands on. A read that
/// reports the end of the stream (`None`) or no bytes ends the loop (`None`);
/// otherwise the bytes read go out as one datagram.
pub fn outbound_datagram(buf: &[u8], read: Option<usize>) -> (r: Option<Vec<u8>>)
    requires
        read is Some ==> read->0 <= buf@.len(),
    ensures
        r is None <==> (read is None || read->0 == 0),
        r is Some ==> r->0@ == buf@.subrange(0, read->0 as int),
{
    match read {
        None => None,
        Some(n) => {
            if n == 0 {
                None
            } else {
                Some(copy_range(buf, 0, n))
            }
        },
    }
}

} // verus!
