//! The byte-relay protocol between a TCP socket and a QUIC stream.
//!
//! One flow pairs a TCP socket with one QUIC bidirectional stream and relays
//! bytes in the two directions independently. The driver owns the sockets
//! and the async runtime; it reads events from each direction's input half,
//! hands them to [`Copier::on_event`], performs the returned action on the
//! output half, and reports the outcome of the finish or shutdown through
//! [`Copier::on_close_outcome`]. The contracts pin the protocol down:
//! forwarded bytes are exactly the bytes read, in order; a clean
//! end-of-stream is turned into the explicit finish of the output half, and
//! the direction is finished only once that finish itself succeeded; an
//! error — mid-copy or on the close — fails only its own direction, with
//! its cause recorded. The laws at the end state the whole-run guarantees.

use vstd::prelude::*;

verus! {

/// One direction of a flow.
#[derive(Clone, Copy, PartialEq, Eq, Structural)]
pub enum Direction {
    /// From the TCP socket's read half into the QUIC send half.
    TcpToQuic,
    /// From the QUIC receive half into the TCP socket's write half.
    QuicToTcp,
}

/// What the input half of one direction yielded.
pub enum CopyEvent {
    /// A chunk of payload bytes read from the input half.
    Data(Vec<u8>),
    /// Clean end-of-stream: the peer half-closed this direction.
    Eof,
    /// An I/O error on either half of this direction, with its cause as the
    /// driver formatted it.
    Failed(String),
}

/// What the relay must do next on this direction.
pub enum CopyAction {
    /// Write exactly these bytes to the output half, in order, before
    /// handling any later event of this direction.
    Forward(Vec<u8>),
    /// Cleanly finish the output half — finish the QUIC send half, or shut
    /// down the TCP write half — so the peer observes end-of-data rather
    /// than hanging; then report how that went through
    /// [`Copier::on_close_outcome`].
    FinishOutput,
    /// Abandon this flow; sibling flows are unaffected.
    Abort,
}

/// The model of one direction: the payload bytes carried so far, whether the
/// output half's finish is pending (`closing`), whether the direction ended
/// cleanly (`finished`) or with an error (`failed`), and the recorded cause
/// of a failure (empty while none happened).
#[verifier::ext_equal]
pub struct CopierModel {
    pub carried: Seq<u8>,
    pub closing: bool,
    pub finished: bool,
    pub failed: bool,
    pub cause: Seq<char>,
}

/// The model of one protocol event.
pub enum EventModel {
    Data(Seq<u8>),
    Eof,
    Failed(Seq<char>),
    CloseDone,
    CloseFailed(Seq<char>),
}

impl View for CopyEvent {
    type V = EventModel;

    open spec fn view(&self) -> EventModel {
        match self {
            CopyEvent::Data(buf) => EventModel::Data(buf@),
            CopyEvent::Eof => EventModel::Eof,
            CopyEvent::Failed(cause) => EventModel::Failed(cause@),
        }
    }
}

/// A fresh direction: nothing carried, still live.
pub open spec fn copier_init() -> CopierModel {
    CopierModel {
        carried: Seq::empty(),
        closing: false,
        finished: false,
        failed: false,
        cause: Seq::empty(),
    }
}

/// One step of the relay protocol on one direction. Payload bytes append to
/// the carried bytes; end-of-stream asks for the output half's finish, and
/// only a successful finish ends the direction cleanly; any failure is
/// terminal and records its cause. A direction that has ended never moves
/// again.
pub open spec fn copier_step(m: CopierModel, ev: EventModel) -> CopierModel {
    if m.finished || m.failed {
        m
    } else if m.closing {
        match ev {
            EventModel::CloseDone => CopierModel {
                carried: m.carried,
                closing: m.closing,
                finished: true,
                failed: m.failed,
                cause: m.cause,
            },
            EventModel::CloseFailed(cause) => CopierModel {
                carried: m.carried,
                closing: m.closing,
                finished: m.finished,
                failed: true,
                cause,
            },
            _ => m,
        }
    } else {
        match ev {
            EventModel::Data(bytes) => CopierModel {
                carried: m.carried + bytes,
                closing: m.closing,
                finished: m.finished,
                failed: m.failed,
                cause: m.cause,
            },
            EventModel::Eof => CopierModel {
                carried: m.carried,
                closing: true,
                finished: m.finished,
                failed: m.failed,
                cause: m.cause,
            },
            EventModel::Failed(cause) => CopierModel {
                carried: m.carried,
                closing: m.closing,
                finished: m.finished,
                failed: true,
                cause,
            },
            _ => m,
        }
    }
}

/// The state a direction reaches after consuming the given events in order.
pub open spec fn copier_run(m: CopierModel, evs: Seq<EventModel>) -> CopierModel
    decreases evs.len(),
{
    if evs.len() == 0 {
        m
    } else {
        copier_run(copier_step(m, evs.first()), evs.drop_first())
    }
}

/// The given payload chunks as a trace of data events.
pub open spec fn data_events(chunks: Seq<Seq<u8>>) -> Seq<EventModel> {
    chunks.map_values(|c: Seq<u8>| EventModel::Data(c))
}

/// One direction of the relay, as driven step by step.
pub struct Copier {
    carried: Ghost<Seq<u8>>,
    closing: bool,
    finished: bool,
    failed: bool,
    cause: Option<String>,
}

impl View for Copier {
    type V = CopierModel;

    closed spec fn view(&self) -> CopierModel {
        CopierModel {
            carried: self.carried@,
            closing: self.closing,
            finished: self.finished,
            failed: self.failed,
            cause: match &self.cause {
                Some(cause) => cause@,
                None => Seq::empty(),
            },
        }
    }
}

impl Copier {
    /// A fresh direction.
    pub fn new() -> (c: Self)
        ensures
            c@ == copier_init(),
    {
        Copier {
            carried: Ghost(Seq::empty()),
            closing: false,
            finished: false,
            failed: false,
            cause: None,
        }
    }

    /// Whether this direction has ended, cleanly or not. A done direction
    /// takes no further events.
    pub fn is_done(&self) -> (b: bool)
        ensures
            b == (self@.finished || self@.failed),
    {
        self.finished || self.failed
    }

    /// Whether this direction saw end-of-stream and now waits for the
    /// outcome of the output half's finish.
    pub fn is_closing(&self) -> (b: bool)
        ensures
            b == self@.closing,
    {
        self.closing
    }

    /// Whether this direction ended cleanly: end-of-stream seen and the
    /// output half's finish succeeded.
    pub fn is_finished(&self) -> (b: bool)
        ensures
            b == self@.finished,
    {
        self.finished
    }

    /// Whether this direction ended with an error.
    pub fn is_failed(&self) -> (b: bool)
        ensures
            b == self@.failed,
    {
        self.failed
    }

    /// One protocol step: consume one event from the input half and say what
    /// to do on the output half. The forwarded bytes are exactly the bytes
    /// read; clean end-of-stream becomes the explicit finish of the output
    /// half; an error fails this direction, recording its cause.
    pub fn on_event(&mut self, ev: CopyEvent) -> (act: CopyAction)
        requires
            !old(self)@.closing,
            !old(self)@.finished,
            !old(self)@.failed,
        ensures
            final(self)@ == copier_step(old(self)@, ev@),
            ev matches CopyEvent::Data(buf) ==> act matches CopyAction::Forward(out) && out@
                == buf@,
            ev is Eof ==> act is FinishOutput,
            ev is Failed ==> act is Abort,
    {
        match ev {
            CopyEvent::Data(buf) => {
                self.carried = Ghost(self.carried@ + buf@);
                CopyAction::Forward(buf)
            },
            CopyEvent::Eof => {
                self.closing = true;
                CopyAction::FinishOutput
            },
            CopyEvent::Failed(cause) => {
                self.failed = true;
                self.cause = Some(cause);
                CopyAction::Abort
            },
        }
    }

    /// The outcome of the finish or shutdown that the FinishOutput action
    /// asked for: the direction ends cleanly only if the close itself
    /// succeeded; a failed close fails the direction with the close error's
    /// cause.
    pub fn on_close_outcome(&mut self, error: Option<String>)
        requires
            old(self)@.closing,
            !old(self)@.finished,
            !old(self)@.failed,
        ensures
            error is None ==> final(self)@ == copier_step(old(self)@, EventModel::CloseDone),
            error matches Some(cause) ==> final(self)@ == copier_step(
                old(self)@,
                EventModel::CloseFailed(cause@),
            ),
    {
        match error {
            None => {
                self.finished = true;
            },
            Some(cause) => {
                self.failed = true;
                self.cause = Some(cause);
            },
        }
    }
}

/// Why a flow ended early: the direction whose I/O failed, and the
/// underlying cause as the driver reported it.
pub struct RelayError {
    pub failed_direction: Direction,
    pub cause: String,
}

/// One flow: a TCP socket paired with one QUIC bidirectional stream, relayed
/// by two independent directions. The flow is the unit of failure: it never
/// outlives its directions, and its loss never touches sibling flows.
pub struct Flow {
    pub tcp_to_quic: Copier,
    pub quic_to_tcp: Copier,
}

impl Flow {
    /// A fresh flow: both directions live, nothing carried.
    pub fn new() -> (f: Self)
        ensures
            f.tcp_to_quic@ == copier_init(),
            f.quic_to_tcp@ == copier_init(),
    {
        Flow { tcp_to_quic: Copier::new(), quic_to_tcp: Copier::new() }
    }

    /// The join completion policy: the flow is settled once both directions
    /// have finished cleanly — closes included — or as soon as either
    /// direction has failed. Once settled, the driver must fully shut down
    /// the TCP socket, both directions, whatever the outcome.
    pub open spec fn settled(&self) -> bool {
        (self.tcp_to_quic@.finished && self.quic_to_tcp@.finished) || self.tcp_to_quic@.failed
            || self.quic_to_tcp@.failed
    }

    /// Whether the flow is settled under the join policy.
    pub fn is_settled(&self) -> (b: bool)
        ensures
            b == self.settled(),
    {
        (self.tcp_to_quic.is_finished() && self.quic_to_tcp.is_finished())
            || self.tcp_to_quic.is_failed() || self.quic_to_tcp.is_failed()
    }

    /// The outcome of a settled flow: clean exactly when neither direction
    /// failed; otherwise the error names a failed direction — the
    /// TCP-to-QUIC one first — and carries that direction's recorded cause.
    pub fn outcome(self) -> (r: Result<(), RelayError>)
        requires
            self.settled(),
        ensures
            r is Ok <==> (!self.tcp_to_quic@.failed && !self.quic_to_tcp@.failed),
            self.tcp_to_quic@.failed ==> (r matches Err(e) && e.failed_direction is TcpToQuic
                && e.cause@ == self.tcp_to_quic@.cause),
            (!self.tcp_to_quic@.failed && self.quic_to_tcp@.failed) ==> (r matches Err(e)
                && e.failed_direction is QuicToTcp && e.cause@ == self.quic_to_tcp@.cause),
    {
        if self.tcp_to_quic.failed {
            let cause = match self.tcp_to_quic.cause {
                Some(cause) => cause,
                None => String::new(),
            };
            Err(RelayError { failed_direction: Direction::TcpToQuic, cause })
        } else if self.quic_to_tcp.failed {
            let cause = match self.quic_to_tcp.cause {
                Some(cause) => cause,
                None => String::new(),
            };
            Err(RelayError { failed_direction: Direction::QuicToTcp, cause })
        } else {
            Ok(())
        }
    }
}

/// What a run of data events does, from any live state: the carried bytes
/// grow by exactly the chunks' bytes, in order, and the direction stays
/// live.
proof fn lemma_data_run(m: CopierModel, chunks: Seq<Seq<u8>>)
    requires
        !m.closing,
        !m.finished,
        !m.failed,
    ensures
        ({
            let end = copier_run(m, data_events(chunks));
            &&& end.carried == m.carried + chunks.flatten()
            &&& !end.closing
            &&& !end.finished
            &&& !end.failed
            &&& end.cause == m.cause
        }),
    decreases chunks.len(),
{
    if chunks.len() == 0 {
        assert(data_events(chunks).len() == 0);
        assert(m.carried + chunks.flatten() =~= m.carried);
    } else {
        let first = chunks.first();
        let rest = chunks.drop_first();
        let stepped = copier_step(m, EventModel::Data(first));
        assert(data_events(chunks).first() == EventModel::Data(first));
        assert(data_events(chunks).drop_first() =~= data_events(rest));
        lemma_data_run(stepped, rest);
        assert(m.carried + chunks.flatten() =~= (m.carried + first) + rest.flatten());
    }
}

/// Round-trip integrity: a fresh direction that consumes payload chunks
/// carries exactly their bytes, concatenated in order — no loss, no
/// reordering, no duplication, from the empty payload up.
pub proof fn lemma_round_trip_integrity(chunks: Seq<Seq<u8>>)
    ensures
        copier_run(copier_init(), data_events(chunks)).carried == chunks.flatten(),
{
    lemma_data_run(copier_init(), chunks);
    assert(Seq::<u8>::empty() + chunks.flatten() =~= chunks.flatten());
}

/// Round trip through the whole tunnel: the near relay reads the TCP
/// application's bytes; the transport hands the bytes it carried — re-chunked
/// however it likes — to the far relay; the far relay carries exactly the
/// application's original byte sequence to the destination socket. The same
/// holds of the reverse direction, which is another instance of this law.
pub proof fn lemma_tunnel_round_trip(near: Seq<Seq<u8>>, far: Seq<Seq<u8>>)
    requires
        far.flatten() == copier_run(copier_init(), data_events(near)).carried,
    ensures
        copier_run(copier_init(), data_events(far)).carried == near.flatten(),
{
    lemma_round_trip_integrity(near);
    lemma_round_trip_integrity(far);
}

/// Half-close propagation: when the peer half-closes after its payload, the
/// direction signals the explicit finish of the output half before anything
/// ends, and once that finish succeeds the direction is finished, not
/// failed, carrying exactly the payload: the destination peer observes
/// exactly those bytes followed by end-of-data.
pub proof fn lemma_half_close(chunks: Seq<Seq<u8>>)
    ensures
        ({
            let after_eof = copier_step(
                copier_run(copier_init(), data_events(chunks)),
                EventModel::Eof,
            );
            let end = copier_step(after_eof, EventModel::CloseDone);
            &&& after_eof.closing
            &&& !after_eof.finished
            &&& !after_eof.failed
            &&& end.finished
            &&& !end.failed
            &&& end.carried == chunks.flatten()
        }),
{
    lemma_data_run(copier_init(), chunks);
    assert(Seq::<u8>::empty() + chunks.flatten() =~= chunks.flatten());
}

/// Close errors count: a finish or shutdown that fails after end-of-stream
/// fails its direction and records the close error's cause, so the flow's
/// outcome reports it — a direction is clean only when its copy and its
/// close both succeeded.
pub proof fn lemma_failed_close_counts(chunks: Seq<Seq<u8>>, cause: Seq<char>)
    ensures
        ({
            let after_eof = copier_step(
                copier_run(copier_init(), data_events(chunks)),
                EventModel::Eof,
            );
            let end = copier_step(after_eof, EventModel::CloseFailed(cause));
            &&& end.failed
            &&& !end.finished
            &&& end.cause == cause
        }),
{
    lemma_data_run(copier_init(), chunks);
}

/// Ends are terminal: a direction that has finished or failed is never moved
/// by any further event, so no data can follow the end-of-stream signal and
/// no flow lingers half-open after its end.
pub proof fn lemma_end_is_terminal(m: CopierModel, ev: EventModel)
    requires
        m.finished || m.failed,
    ensures
        copier_step(m, ev) == m,
{
}

} // verus!
