//! The server side of the SOCKS5 handshake as a state machine: it is fed the
//! bytes read off the control stream and answers with what to do next (read
//! exactly so many more bytes, write a reply, or stop with a resolved target
//! or an error). The caller performs the reads and writes.
use vstd::prelude::*;
use crate::wire::{
    append_bytes, copy_range, decode_greeting, decode_request, greeting_reply,
    greeting_reply_spec, greeting_spec, request_spec, success_reply, success_reply_spec,
    SOCKS_VERSION, ATYP_IPV4, ATYP_IPV6, Decoded, Socks5, Socks5Error, Socks5View,
};

verus! {

/// Where the handshake stands.
#[derive(PartialEq, Eq, Structural, Clone, Copy, Debug)]
pub enum Phase {
    /// Reading the version/method negotiation.
    AwaitingNegotiation,
    /// Reading the address request.
    AwaitingRequest,
    /// The target is known; the session takes no more bytes.
    Resolved,
    /// The handshake was rejected; the session takes no more bytes.
    Failed,
}

/// The state of one handshake: its phase and the bytes of the current message
/// read so far.
pub struct Socks5Session {
    phase: Phase,
    buf: Vec<u8>,
}

pub struct SessionView {
    pub phase: Phase,
    pub buf: Seq<u8>,
}

impl View for Socks5Session {
    type V = SessionView;

    closed spec fn view(&self) -> SessionView {
        SessionView { phase: self.phase, buf: self.buf@ }
    }
}

/// What the caller is to do after feeding the session.
pub enum SessionStep {
    /// Read exactly this many bytes and feed them.
    Read(usize),
    /// Write these bytes, then feed the session nothing to go on.
    Reply(Vec<u8>),
    /// The handshake is over: connect to this target.
    Resolved(Socks5),
    /// The handshake is over and failed: no reply is owed, the flow ends.
    Failed(Socks5Error),
}

pub enum StepView {
    Read(nat),
    Reply(Seq<u8>),
    Resolved(Socks5View),
    Failed(Socks5Error),
}

impl View for SessionStep {
    type V = StepView;

    open spec fn view(&self) -> StepView {
        match self {
            SessionStep::Read(n) => StepView::Read(*n as nat),
            SessionStep::Reply(b) => StepView::Reply(b@),
            SessionStep::Resolved(s) => StepView::Resolved(s@),
            SessionStep::Failed(e) => StepView::Failed(*e),
        }
    }
}

/// One transition: the session in state `s` is fed `data`.
pub open spec fn feed_spec(s: SessionView, data: Seq<u8>) -> (SessionView, StepView) {
    let b = s.buf + data;
    match s.phase {
        Phase::AwaitingNegotiation => match greeting_spec(b) {
            Decoded::Need(n) => (
                SessionView { phase: Phase::AwaitingNegotiation, buf: b },
                StepView::Read((n - b.len()) as nat),
            ),
            Decoded::Malformed(e) => (
                SessionView { phase: Phase::Failed, buf: Seq::empty() },
                StepView::Failed(e),
            ),
            Decoded::Complete(k) => (
                SessionView { phase: Phase::AwaitingRequest, buf: b.subrange(k as int, b.len() as int) },
                StepView::Reply(greeting_reply_spec()),
            ),
        },
        Phase::AwaitingRequest => match request_spec(b) {
            Decoded::Need(n) => (
                SessionView { phase: Phase::AwaitingRequest, buf: b },
                StepView::Read((n - b.len()) as nat),
            ),
            Decoded::Malformed(e) => (
                SessionView { phase: Phase::Failed, buf: Seq::empty() },
                StepView::Failed(e),
            ),
            Decoded::Complete(v) => (
                SessionView { phase: Phase::Resolved, buf: Seq::empty() },
                StepView::Resolved(v),
            ),
        },
        _ => (s, StepView::Failed(Socks5Error::SessionOver)),
    }
}

impl Socks5Session {
    /// A session that awaits the negotiation. Feeding it nothing yields the
    /// first read.
    pub fn new() -> (r: Socks5Session)
        ensures
            r@ == (SessionView { phase: Phase::AwaitingNegotiation, buf: Seq::empty() }),
    {
        Socks5Session { phase: Phase::AwaitingNegotiation, buf: Vec::new() }
    }

    pub fn phase(&self) -> (r: Phase)
        ensures
            r == self@.phase,
    {
        self.phase
    }

    /// Takes the bytes just read (or none, after a reply was written) and
    /// says what to do next.
    pub fn feed(&mut self, data: &[u8]) -> (r: SessionStep)
        requires
            old(self)@.buf.len() + data@.len() <= usize::MAX,
        ensures
            (final(self)@, r@) == feed_spec(old(self)@, data@),
    {
        match self.phase {
            Phase::AwaitingNegotiation => {
                append_bytes(&mut self.buf, data);
                match decode_greeting(self.buf.as_slice()) {
                    Decoded::Need(n) => SessionStep::Read(n - self.buf.len()),
                    Decoded::Malformed(e) => {
                        self.phase = Phase::Failed;
                        self.buf = Vec::new();
                        SessionStep::Failed(e)
                    },
                    Decoded::Complete(k) => {
                        let rest = copy_range(self.buf.as_slice(), k, self.buf.len());
                        self.phase = Phase::AwaitingRequest;
                        self.buf = rest;
                        SessionStep::Reply(greeting_reply())
                    },
                }
            },
            Phase::AwaitingRequest => {
                append_bytes(&mut self.buf, data);
                match decode_request(self.buf.as_slice()) {
                    Decoded::Need(n) => SessionStep::Read(n - self.buf.len()),
                    Decoded::Malformed(e) => {
                        self.phase = Phase::Failed;
                        self.buf = Vec::new();
                        SessionStep::Failed(e)
                    },
                    Decoded::Complete(s) => {
                        self.phase = Phase::Resolved;
                        self.buf = Vec::new();
                        SessionStep::Resolved(s)
                    },
                }
            },
            _ => SessionStep::Failed(Socks5Error::SessionOver),
        }
    }
}

/// The state of a fresh session.
pub open spec fn initial_session() -> SessionView {
    SessionView { phase: Phase::AwaitingNegotiation, buf: Seq::empty() }
}

/// Drives a session over `input` as a caller on a stream would: each read
/// takes exactly the bytes asked for, each reply is collected, and the run
/// stops at the first resolution or failure, when `input` holds fewer bytes
/// than asked for, or after `fuel` steps. Gives the last step and every reply
/// written.
pub open spec fn run_spec(s: SessionView, st: StepView, input: Seq<u8>, replies: Seq<u8>, fuel: nat) -> (StepView, Seq<u8>)
    decreases fuel,
{
    if fuel == 0 {
        (st, replies)
    } else {
        match st {
            StepView::Read(n) => if n <= input.len() {
                let next = feed_spec(s, input.subrange(0, n as int));
                run_spec(next.0, next.1, input.subrange(n as int, input.len() as int), replies, (fuel - 1) as nat)
            } else {
                (st, replies)
            },
            StepView::Reply(r) => {
                let next = feed_spec(s, Seq::empty());
                run_spec(next.0, next.1, input, replies + r, (fuel - 1) as nat)
            },
            _ => (st, replies),
        }
    }
}

/// The whole handshake run over a byte stream, with enough fuel for every
/// read to consume at least one byte.
pub open spec fn handshake_spec(input: Seq<u8>) -> (StepView, Seq<u8>) {
    let first = feed_spec(initial_session(), Seq::empty());
    run_spec(first.0, first.1, input, Seq::empty(), input.len() + 3)
}

/// Runs the handshake over bytes already at hand: the negotiation followed by
/// the address request. Returns the last step (the resolved target, the
/// error, or the read that `input` could not satisfy) and the replies that a
/// stream would have carried back.
pub fn run_handshake(input: &[u8]) -> (r: (SessionStep, Vec<u8>))
    ensures
        (r.0@, r.1@) == handshake_spec(input@),
{
    let mut session = Socks5Session::new();
    let nothing: Vec<u8> = Vec::new();
    let mut step = session.feed(nothing.as_slice());
    let mut replies: Vec<u8> = Vec::new();
    let mut pos: usize = 0;
    let mut fuel: u128 = input.len() as u128 + 3;
    assert(input@.subrange(0, 0) =~= input@.subrange(0, pos as int));
    assert(input@.subrange(0, input@.len() as int) =~= input@);
    while fuel > 0
        invariant
            pos <= input@.len(),
            session@.buf.len() <= pos,
            run_spec(session@, step@, input@.subrange(pos as int, input@.len() as int), replies@, fuel as nat)
                == handshake_spec(input@),
        decreases fuel,
    {
        let ghost rest = input@.subrange(pos as int, input@.len() as int);
        match step {
            SessionStep::Read(n) => {
                if n > input.len() - pos {
                    return (SessionStep::Read(n), replies);
                }
                let chunk = copy_range(input, pos, pos + n);
                assert(chunk@ =~= rest.subrange(0, n as int));
                assert(input@.subrange((pos + n) as int, input@.len() as int) =~= rest.subrange(n as int, rest.len() as int));
                step = session.feed(chunk.as_slice());
                pos = pos + n;
            },
            SessionStep::Reply(r) => {
                append_bytes(&mut replies, r.as_slice());
                let nothing: Vec<u8> = Vec::new();
                step = session.feed(nothing.as_slice());
            },
            _ => {
                return (step, replies);
            },
        }
        fuel = fuel - 1;
    }
    (step, replies)
}

/// The session awaiting the request, with the first `k` bytes of `r` read.
pub open spec fn request_state(r: Seq<u8>, k: int) -> SessionView {
    SessionView { phase: Phase::AwaitingRequest, buf: r.subrange(0, k) }
}

/// One read in the request phase: reading `r[k..n]` into a session that holds
/// `r[..k]` is feeding a fresh request phase `r[..n]` at once.
proof fn lemma_request_read(r: Seq<u8>, k: int, n: int, replies: Seq<u8>, fuel: nat)
    requires
        0 <= k < n <= r.len(),
        fuel > 0,
    ensures
        run_spec(request_state(r, k), StepView::Read((n - k) as nat), r.subrange(k, r.len() as int), replies, fuel)
            == run_spec(
            feed_spec(request_state(r, 0), r.subrange(0, n)).0,
            feed_spec(request_state(r, 0), r.subrange(0, n)).1,
            r.subrange(n, r.len() as int),
            replies,
            (fuel - 1) as nat,
        ),
{
    let rest = r.subrange(k, r.len() as int);
    assert(rest.subrange(0, n - k) =~= r.subrange(k, n));
    assert(rest.subrange(n - k, rest.len() as int) =~= r.subrange(n, r.len() as int));
    assert(r.subrange(0, k) + r.subrange(k, n) =~= r.subrange(0, n));
    assert(r.subrange(0, 0) + r.subrange(0, n) =~= r.subrange(0, n));
}

/// A session in the request phase, fed from a stream that holds a complete
/// request, resolves to the target that the codec decodes from it.
proof fn lemma_request_phase_resolves(r: Seq<u8>, replies: Seq<u8>, fuel: nat)
    requires
        request_spec(r) is Complete,
        fuel >= 4,
    ensures
        run_spec(request_state(r, 0), StepView::Read(4), r, replies, fuel) == (
            StepView::Resolved(request_spec(r)->Complete_0),
            replies,
        ),
{
    let v = request_spec(r)->Complete_0;
    let len = r.len() as int;
    assert(r.subrange(0, len) =~= r);
    lemma_request_read(r, 0, 4, replies, fuel);
    let h = r.subrange(0, 4);
    assert(request_spec(r.subrange(0, 0) + h) == request_spec(h)) by {
        assert(r.subrange(0, 0) + h =~= h);
    }
    if r[3] == ATYP_IPV4 {
        assert(request_spec(h) == Decoded::<Socks5View>::Need(10));
        lemma_request_read(r, 4, 10, replies, (fuel - 1) as nat);
        let b = r.subrange(0, 10);
        assert(b.subrange(4, 8) =~= r.subrange(4, 8));
        assert(r.subrange(0, 0) + b =~= b);
        assert(request_spec(b) == request_spec(r));
    } else if r[3] == ATYP_IPV6 {
        assert(request_spec(h) == Decoded::<Socks5View>::Need(22));
        lemma_request_read(r, 4, 22, replies, (fuel - 1) as nat);
        let b = r.subrange(0, 22);
        assert(b.subrange(4, 20) =~= r.subrange(4, 20));
        assert(r.subrange(0, 0) + b =~= b);
        assert(request_spec(b) == request_spec(r));
    } else {
        let n = r[4] as int;
        assert(request_spec(h) == Decoded::<Socks5View>::Need(5));
        lemma_request_read(r, 4, 5, replies, (fuel - 1) as nat);
        let b5 = r.subrange(0, 5);
        assert(r.subrange(0, 0) + b5 =~= b5);
        let b_name = r.subrange(0, 5 + n);
        assert(b_name.subrange(5, 5 + n) =~= r.subrange(5, 5 + n));
        assert(r.subrange(0, 0) + b_name =~= b_name);
        let b = r.subrange(0, 7 + n);
        assert(b.subrange(5, 5 + n) =~= r.subrange(5, 5 + n));
        assert(r.subrange(0, 0) + b =~= b);
        assert(request_spec(b) == request_spec(r));
        if n > 0 {
            assert(request_spec(b5) == Decoded::<Socks5View>::Need((5 + n) as usize));
            lemma_request_read(r, 5, 5 + n, replies, (fuel - 2) as nat);
            assert(request_spec(b_name) == Decoded::<Socks5View>::Need((7 + n) as usize));
            lemma_request_read(r, 5 + n, 7 + n, replies, (fuel - 3) as nat);
        } else {
            assert(b_name =~= b5);
            assert(request_spec(b5) == Decoded::<Socks5View>::Need(7));
            lemma_request_read(r, 5, 7, replies, (fuel - 2) as nat);
        }
    }
}

/// A handshake over a stream that carries a well-formed negotiation `g`
/// (version 5, the method count, exactly that many methods) followed by a
/// complete address request `r` answers the negotiation with the fixed reply
/// and resolves to exactly the target that the codec decodes from `r`. The
/// outcome is a function of those bytes alone: two runs over the same bytes,
/// on two independent stream pairs, give structurally identical targets.
pub proof fn lemma_handshake_resolves(g: Seq<u8>, r: Seq<u8>)
    requires
        g.len() >= 2,
        g[0] == SOCKS_VERSION,
        g.len() == 2 + g[1],
        request_spec(r) is Complete,
    ensures
        handshake_spec(g + r) == (
            StepView::Resolved(request_spec(r)->Complete_0),
            greeting_reply_spec(),
        ),
{
    let input = g + r;
    let len = input.len() as int;
    let fuel = (input.len() + 3) as nat;
    let first = feed_spec(initial_session(), Seq::empty());
    assert(Seq::<u8>::empty() + Seq::<u8>::empty() =~= Seq::<u8>::empty());
    assert(first == (initial_session(), StepView::Read(2)));
    let g2 = input.subrange(0, 2);
    assert(Seq::<u8>::empty() + g2 =~= g2);
    let after_g = input.subrange(g.len() as int, len);
    assert(after_g =~= r);
    let empty = Seq::<u8>::empty();
    let req0 = SessionView { phase: Phase::AwaitingRequest, buf: empty };
    assert(request_state(r, 0) == req0) by {
        assert(r.subrange(0, 0) =~= empty);
    }
    assert(empty + empty =~= empty);
    assert(feed_spec(req0, empty) == (req0, StepView::Read(4)));
    assert(empty + greeting_reply_spec() =~= greeting_reply_spec());
    if g[1] == 0 {
        assert(g2 =~= g);
        assert(g.subrange(2, 2) =~= empty);
        assert(input.subrange(2, len) =~= r);
        assert(run_spec(first.0, first.1, input, empty, fuel) == run_spec(
            req0,
            StepView::Reply(greeting_reply_spec()),
            r,
            empty,
            (fuel - 1) as nat,
        ));
        assert(run_spec(req0, StepView::Reply(greeting_reply_spec()), r, empty, (fuel - 1) as nat)
            == run_spec(req0, StepView::Read(4), r, greeting_reply_spec(), (fuel - 2) as nat));
        lemma_request_phase_resolves(r, greeting_reply_spec(), (fuel - 2) as nat);
    } else {
        let rest2 = input.subrange(2, len);
        let n = g[1] as int;
        let neg2 = SessionView { phase: Phase::AwaitingNegotiation, buf: g2 };
        assert(feed_spec(first.0, g2) == (neg2, StepView::Read(n as nat)));
        assert(rest2.subrange(0, n) =~= g.subrange(2, 2 + n));
        assert(rest2.subrange(n, rest2.len() as int) =~= r);
        assert(g2 + g.subrange(2, 2 + n) =~= g);
        assert(g.subrange(2 + n, 2 + n) =~= empty);
        assert(feed_spec(neg2, g.subrange(2, 2 + n)) == (req0, StepView::Reply(greeting_reply_spec())));
        assert(run_spec(first.0, first.1, input, empty, fuel) == run_spec(
            neg2,
            StepView::Read(n as nat),
            rest2,
            empty,
            (fuel - 1) as nat,
        ));
        assert(run_spec(neg2, StepView::Read(n as nat), rest2, empty, (fuel - 1) as nat) == run_spec(
            req0,
            StepView::Reply(greeting_reply_spec()),
            r,
            empty,
            (fuel - 2) as nat,
        ));
        assert(run_spec(req0, StepView::Reply(greeting_reply_spec()), r, empty, (fuel - 2) as nat)
            == run_spec(req0, StepView::Read(4), r, greeting_reply_spec(), (fuel - 3) as nat));
        lemma_request_phase_resolves(r, greeting_reply_spec(), (fuel - 3) as nat);
    }
}

/// Two runs of the handshake over the same bytes, as on two independent
/// stream pairs, end in the same step with the same replies, whatever the
/// bytes: each is the run that `handshake_spec` gives for them.
pub proof fn lemma_handshake_repeatable(
    input: Seq<u8>,
    first: (StepView, Seq<u8>),
    second: (StepView, Seq<u8>),
)
    requires
        first == handshake_spec(input),
        second == handshake_spec(input),
    ensures
        first == second,
{
}

/// What to write on the control stream once the outbound connect for a
/// resolved target has been tried: the success reply when it connected,
/// nothing when it failed.
pub fn reply_after_connect(connected: bool) -> (r: Option<Vec<u8>>)
    ensures
        r is Some <==> connected,
        r is Some ==> r->0@ == success_reply_spec(),
{
    if connected {
        Some(success_reply())
    } else {
        None
    }
}

/// A request that the codec rejects ends the session in failure, and a
/// failed session never resolves afterwards, whatever it is fed: no target is
/// handed out, so no outbound connect is made.
pub proof fn lemma_rejected_request_never_resolves(s: SessionView, data: Seq<u8>, later: Seq<u8>)
    requires
        s.phase == Phase::AwaitingRequest,
        request_spec(s.buf + data) is Malformed,
    ensures
        feed_spec(s, data).1 is Failed,
        feed_spec(s, data).0.phase == Phase::Failed,
        feed_spec(feed_spec(s, data).0, later).1 == StepView::Failed(Socks5Error::SessionOver),
        feed_spec(feed_spec(s, data).0, later).0 == feed_spec(s, data).0,
{
}

} // verus!
