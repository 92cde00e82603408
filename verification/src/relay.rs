//! The remote stream relay as a state machine.
//!
//! The relay turns the body of an upstream HTTP-like resource into a
//! lazy, finite sequence of byte chunks. All I/O is performed by the
//! unverified serving layer, which drives this machine in a loop: it
//! performs the action the machine asks for, and feeds the outcome back
//! as the next event. The machine owns every decision: what to do after
//! the connect, the TLS handshake and the request, which received bytes
//! are preamble and which are body, when the stream is over, and which
//! error each failure surfaces as.

use vstd::prelude::*;
use crate::preamble::{
    body_of, is_blank_byte, lemma_body_after_blank_line, lemma_no_blank_line_no_body, scan_in_body,
    scan_line_blank, PreambleSkipper,
};
use crate::MediaError;

verus! {

/// The default size of one relayed chunk, in bytes: the driving loop
/// reads at most this many bytes from the origin per `Read` action.
pub const DEFAULT_CHUNK_SIZE: usize = 4096;

/// Where the relay stands. `Closed` and `Failed` are terminal: the
/// machine accepts no further event there, so no chunk can follow the
/// end of the stream or an error.
#[derive(Clone, Copy, Debug, PartialEq, Eq, Structural)]
pub enum RelayState {
    /// Opening the TCP connection; `tls` says whether a handshake follows.
    Connecting { tls: bool },
    /// Performing the TLS handshake.
    Handshaking,
    /// Writing the upstream request.
    SendingRequest,
    /// Reading and discarding the response preamble.
    SkippingPreamble,
    /// Relaying body bytes.
    Streaming,
    /// The stream ended cleanly.
    Closed,
    /// The stream ended with an error.
    Failed,
}

/// What the driving loop reports back to the machine.
pub enum RelayEvent {
    /// The TCP connection is open.
    Connected,
    /// The TCP connection could not be opened.
    ConnectFailed,
    /// The TLS handshake succeeded.
    HandshakeDone,
    /// The TLS handshake failed.
    HandshakeFailed,
    /// The upstream request was written and flushed.
    RequestSent,
    /// Writing the upstream request failed.
    SendFailed,
    /// A read returned these bytes (never empty; a zero-length read is `Eof`).
    Data(Vec<u8>),
    /// A read returned zero bytes: the origin closed cleanly.
    Eof,
    /// A read failed.
    ReadFailed,
}

/// What the machine asks the driving loop to do next.
pub enum RelayAction {
    /// Wrap the connection in TLS, verifying the origin's name.
    Handshake,
    /// Write the upstream request and flush it.
    SendRequest,
    /// Read up to one chunk of bytes from the transport.
    Read,
    /// Hand this chunk to the client, then read again.
    Yield(Vec<u8>),
    /// Close the transport; the stream ended successfully.
    Finish,
    /// Close the transport; the stream ended with this error.
    Fail(MediaError),
}

/// The relay machine: the session state plus the preamble skipper that
/// classifies received bytes.
pub struct RelaySession {
    /// The current state; written only by `new` and `step`.
    pub state: RelayState,
    /// The scanner that classifies received bytes; fed only by `step`.
    pub skipper: PreambleSkipper,
}

impl RelaySession {
    /// All bytes received from the origin so far.
    pub closed spec fn received(self) -> Seq<u8> {
        self.skipper.bytes_in()
    }

    /// All bytes yielded to the client so far.
    pub closed spec fn yielded(self) -> Seq<u8> {
        self.skipper.bytes_out()
    }

    /// The machine's internal consistency: the skipper agrees with a
    /// by-the-book scan of the received bytes, the yielded bytes are
    /// exactly the body of the received bytes, and the state matches
    /// the skipper's phase.
    pub closed spec fn wf(self) -> bool {
        &&& self.skipper.wf()
        &&& self.yielded() == body_of(self.received())
        &&& (self.state is SkippingPreamble ==> !self.skipper.in_body_state())
        &&& (self.state is Streaming ==> self.skipper.in_body_state())
        &&& (self.state matches RelayState::Connecting { .. } || self.state is Handshaking
            || self.state is SendingRequest ==> self.received() == Seq::<u8>::empty())
    }

    /// Which events a state can answer. Terminal states answer none:
    /// after `Finish` or `Fail` no event is accepted, so no chunk is
    /// ever produced past the end of the stream.
    pub open spec fn accepts(self, ev: RelayEvent) -> bool {
        match self.state {
            RelayState::Connecting { .. } => ev is Connected || ev is ConnectFailed,
            RelayState::Handshaking => ev is HandshakeDone || ev is HandshakeFailed,
            RelayState::SendingRequest => ev is RequestSent || ev is SendFailed,
            RelayState::SkippingPreamble | RelayState::Streaming => (ev matches RelayEvent::Data(d)
                && d@.len() > 0) || ev is Eof || ev is ReadFailed,
            RelayState::Closed | RelayState::Failed => false,
        }
    }

    /// A relay about to connect; `tls` selects the encrypted transport.
    pub fn new(tls: bool) -> (s: Self)
        ensures
            s.wf(),
            s.state == (RelayState::Connecting { tls }),
            s.received() == Seq::<u8>::empty(),
            s.yielded() == Seq::<u8>::empty(),
    {
        RelaySession { state: RelayState::Connecting { tls }, skipper: PreambleSkipper::new() }
    }

    /// Advances the machine by one event and says what to do next.
    ///
    /// Setup failures surface as the matching error: an unreachable
    /// origin, a failed handshake, a failed request write. Received
    /// bytes pass through the preamble skipper, and exactly the body
    /// bytes come back out, in order: a chunk that contributes none
    /// (still preamble) asks for another read. A clean end of stream
    /// finishes successfully — also when it comes before any blank
    /// line, in which case nothing was yielded. A read failure ends
    /// the stream with `StreamIoError`: the bytes already yielded
    /// stand, and the terminal state accepts no further event.
    pub fn step(&mut self, ev: RelayEvent) -> (act: RelayAction)
        requires
            old(self).wf(),
            old(self).accepts(ev),
        ensures
            final(self).wf(),
            final(self).yielded() == body_of(final(self).received()),
            ev is Connected ==> {
                &&& final(self).received() == old(self).received()
                &&& final(self).yielded() == old(self).yielded()
                &&& (old(self).state matches RelayState::Connecting { tls } ==> {
                    &&& (tls ==> final(self).state is Handshaking && act is Handshake)
                    &&& (!tls ==> final(self).state is SendingRequest && act is SendRequest)
                })
            },
            ev is ConnectFailed ==> final(self).state is Failed && (act
                matches RelayAction::Fail(e) && e == MediaError::UpstreamUnreachable),
            ev is HandshakeDone ==> {
                &&& final(self).state is SendingRequest
                &&& act is SendRequest
                &&& final(self).received() == old(self).received()
                &&& final(self).yielded() == old(self).yielded()
            },
            ev is HandshakeFailed ==> final(self).state is Failed && (act
                matches RelayAction::Fail(e) && e == MediaError::UpstreamTlsError),
            ev is RequestSent ==> {
                &&& final(self).state is SkippingPreamble
                &&& act is Read
                &&& final(self).received() == old(self).received()
                &&& final(self).yielded() == old(self).yielded()
            },
            ev is SendFailed ==> final(self).state is Failed && (act matches RelayAction::Fail(e)
                && e == MediaError::UpstreamUnreachable),
            ev matches RelayEvent::Data(d) ==> {
                &&& final(self).received() == old(self).received() + d@
                &&& (act matches RelayAction::Yield(v) ==> final(self).yielded() == old(
                    self,
                ).yielded() + v@ && v@.len() > 0)
                &&& (act is Read ==> final(self).yielded() == old(self).yielded())
                &&& (act matches RelayAction::Yield(v) || act is Read)
                &&& (final(self).state is Streaming <==> scan_in_body(final(self).received()))
                &&& (final(self).state is Streaming || final(self).state is SkippingPreamble)
            },
            ev is Eof ==> {
                &&& final(self).state is Closed
                &&& act is Finish
                &&& final(self).received() == old(self).received()
                &&& final(self).yielded() == old(self).yielded()
            },
            ev is ReadFailed ==> {
                &&& final(self).state is Failed
                &&& (act matches RelayAction::Fail(e) && e == MediaError::StreamIoError)
                &&& final(self).received() == old(self).received()
                &&& final(self).yielded() == old(self).yielded()
            },
    {
        proof {
            self.skipper.lemma_wf_observables();
        }
        match ev {
            RelayEvent::Connected => {
                let tls = match self.state {
                    RelayState::Connecting { tls } => tls,
                    _ => false,
                };
                if tls {
                    self.state = RelayState::Handshaking;
                    RelayAction::Handshake
                } else {
                    self.state = RelayState::SendingRequest;
                    RelayAction::SendRequest
                }
            },
            RelayEvent::ConnectFailed => {
                self.state = RelayState::Failed;
                RelayAction::Fail(MediaError::UpstreamUnreachable)
            },
            RelayEvent::HandshakeDone => {
                self.state = RelayState::SendingRequest;
                RelayAction::SendRequest
            },
            RelayEvent::HandshakeFailed => {
                self.state = RelayState::Failed;
                RelayAction::Fail(MediaError::UpstreamTlsError)
            },
            RelayEvent::RequestSent => {
                self.state = RelayState::SkippingPreamble;
                RelayAction::Read
            },
            RelayEvent::SendFailed => {
                self.state = RelayState::Failed;
                RelayAction::Fail(MediaError::UpstreamUnreachable)
            },
            RelayEvent::Data(d) => {
                let out = self.skipper.feed(d.as_slice());
                proof {
                    self.skipper.lemma_wf_observables();
                }
                if self.skipper.is_in_body() {
                    self.state = RelayState::Streaming;
                } else {
                    self.state = RelayState::SkippingPreamble;
                }
                if out.len() > 0 {
                    RelayAction::Yield(out)
                } else {
                    RelayAction::Read
                }
            },
            RelayEvent::Eof => {
                self.state = RelayState::Closed;
                RelayAction::Finish
            },
            RelayEvent::ReadFailed => {
                self.state = RelayState::Failed;
                RelayAction::Fail(MediaError::StreamIoError)
            },
        }
    }
}

/// The law of the relayed body: when the origin's answer so far is a
/// preamble, a blank line, and body bytes, the relay has yielded exactly
/// the bytes after the blank line — whatever the preamble held, and
/// whatever the line-ending style of the blank line. `pre` is any fully
/// terminated, never-blank run of preamble lines (possibly empty), `w`
/// the blank bytes of the blank line before its `\n`.
pub proof fn lemma_relay_yields_bytes_after_blank_line(
    s: RelaySession,
    pre: Seq<u8>,
    w: Seq<u8>,
    body: Seq<u8>,
)
    requires
        s.wf(),
        s.received() == pre + w + seq![10u8] + body,
        !scan_in_body(pre),
        scan_line_blank(pre),
        forall|i: int| 0 <= i < w.len() ==> is_blank_byte(#[trigger] w[i]),
    ensures
        s.yielded() == body,
{
    lemma_body_after_blank_line(pre, w, body);
}

/// The law of the origin that closes early: while no blank line has
/// arrived — in particular when the origin closed immediately — the
/// relay has yielded nothing, and a clean end of stream there is a
/// normal, empty, successful stream (`step` answers `Eof` with `Finish`).
pub proof fn lemma_relay_empty_before_blank_line(s: RelaySession)
    requires
        s.wf(),
        !scan_in_body(s.received()),
    ensures
        s.yielded() == Seq::<u8>::empty(),
{
    lemma_no_blank_line_no_body(s.received());
}

/// The law of the dropped connection: once a read failure (or a clean
/// end) has put the relay in a terminal state, it accepts no event at
/// all, so the bytes yielded so far are final and no further chunk can
/// be produced.
pub proof fn lemma_terminal_accepts_nothing(s: RelaySession, ev: RelayEvent)
    requires
        s.state is Closed || s.state is Failed,
    ensures
        !s.accepts(ev),
{
}

} // verus!
