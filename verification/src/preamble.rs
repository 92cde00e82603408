//! Tolerant skipping of an upstream response preamble.
//!
//! Some radio origins answer with a legacy status token instead of a
//! standard HTTP status line, so nothing before the first blank line is
//! parsed: it is opaque framing to discard. The scanner below consumes
//! the incoming bytes line by line until a blank line ends the preamble,
//! then passes every further byte through unchanged. If the connection
//! ends before a blank line is seen, no body byte is ever produced,
//! which the relay treats as a normal empty stream.

use vstd::prelude::*;

verus! {

/// A byte that may appear on a blank line besides its terminator: the
/// carriage return of a `\r\n` ending, or horizontal whitespace.
pub open spec fn is_blank_byte(b: u8) -> bool {
    b == 13 || b == 32 || b == 9
}

/// After reading `s`, is the scanner inside the body? True once some
/// line consisting only of blank bytes has been terminated by `\n`.
pub open spec fn scan_in_body(s: Seq<u8>) -> bool
    decreases s.len(), 1int,
{
    if s.len() == 0 {
        false
    } else {
        scan_in_body(s.drop_last()) || (s.last() == 10 && scan_line_blank(s.drop_last()))
    }
}

/// After reading `s` while still in the preamble: is the line being
/// read blank so far? (Trivially true right after a line terminator.)
pub open spec fn scan_line_blank(s: Seq<u8>) -> bool
    decreases s.len(), 0int,
{
    if s.len() == 0 {
        true
    } else if s.last() == 10 {
        true
    } else {
        scan_line_blank(s.drop_last()) && is_blank_byte(s.last())
    }
}

/// The body that the preamble skipper extracts from a received byte
/// sequence: everything after the `\n` that terminates the first blank
/// line, and nothing when no blank line has been completed.
pub open spec fn body_of(s: Seq<u8>) -> Seq<u8>
    decreases s.len(),
{
    if !scan_in_body(s) {
        Seq::empty()
    } else if scan_in_body(s.drop_last()) {
        body_of(s.drop_last()).push(s.last())
    } else {
        Seq::empty()
    }
}

/// Once in the body, every appended byte is appended to the body.
pub proof fn lemma_body_append(s: Seq<u8>, t: Seq<u8>)
    requires
        scan_in_body(s),
    ensures
        scan_in_body(s + t),
        body_of(s + t) == body_of(s) + t,
    decreases t.len(),
{
    if t.len() == 0 {
        assert(s + t =~= s);
        assert(body_of(s) + t =~= body_of(s));
    } else {
        lemma_body_append(s, t.drop_last());
        assert((s + t).drop_last() =~= s + t.drop_last());
        assert(body_of(s + t) =~= body_of(s) + t);
    }
}

/// Blank bytes keep the scanner in the preamble, on a still-blank line.
proof fn lemma_blank_extend(s: Seq<u8>, w: Seq<u8>)
    requires
        !scan_in_body(s),
        scan_line_blank(s),
        forall|i: int| 0 <= i < w.len() ==> is_blank_byte(#[trigger] w[i]),
    ensures
        !scan_in_body(s + w),
        scan_line_blank(s + w),
    decreases w.len(),
{
    if w.len() == 0 {
        assert(s + w =~= s);
    } else {
        lemma_blank_extend(s, w.drop_last());
        assert((s + w).drop_last() =~= s + w.drop_last());
        assert((s + w).last() == w.last());
    }
}

/// The law of the preamble skipper: when an origin sends a preamble,
/// then a blank line, then body bytes, the extracted body is exactly
/// the bytes after the blank line — whatever the preamble held, and
/// whether the blank line is `\n` alone or blank bytes (such as `\r`)
/// followed by `\n`. `pre` is any fully terminated, never-blank run of
/// preamble lines (possibly empty).
pub proof fn lemma_body_after_blank_line(pre: Seq<u8>, w: Seq<u8>, body: Seq<u8>)
    requires
        !scan_in_body(pre),
        scan_line_blank(pre),
        forall|i: int| 0 <= i < w.len() ==> is_blank_byte(#[trigger] w[i]),
    ensures
        body_of(pre + w + seq![10u8] + body) == body,
{
    lemma_blank_extend(pre, w);
    let s0 = pre + w + seq![10u8];
    assert(s0.drop_last() =~= pre + w);
    assert(s0.last() == 10);
    assert(scan_in_body(s0));
    assert(body_of(s0) =~= Seq::<u8>::empty());
    lemma_body_append(s0, body);
    assert(pre + w + seq![10u8] + body =~= s0 + body);
    assert(body_of(s0 + body) =~= body);
}

/// The law of the empty stream: while no blank line has been completed
/// — in particular when the origin closes immediately — the extracted
/// body is empty; the relay reports such a stream as a normal, empty,
/// successful one.
pub proof fn lemma_no_blank_line_no_body(s: Seq<u8>)
    requires
        !scan_in_body(s),
    ensures
        body_of(s) == Seq::<u8>::empty(),
{
}

/// The incremental preamble skipper. Bytes read from the origin are fed
/// in arbitrary chunks; what comes back out is, in total, exactly
/// `body_of` all bytes fed so far.
pub struct PreambleSkipper {
    in_body: bool,
    line_blank: bool,
    received: Ghost<Seq<u8>>,
    emitted: Ghost<Seq<u8>>,
}

impl PreambleSkipper {
    /// All bytes fed so far.
    pub closed spec fn bytes_in(self) -> Seq<u8> {
        self.received@
    }

    /// All bytes handed back so far.
    pub closed spec fn bytes_out(self) -> Seq<u8> {
        self.emitted@
    }

    /// Is the scanner past the preamble?
    pub closed spec fn in_body_state(self) -> bool {
        self.in_body
    }

    /// The scanner's flags agree with a by-the-book scan of everything
    /// it has consumed, and it has emitted exactly the body seen so far.
    pub closed spec fn wf(self) -> bool {
        &&& self.in_body == scan_in_body(self.received@)
        &&& (!self.in_body ==> self.line_blank == scan_line_blank(self.received@))
        &&& self.emitted@ == body_of(self.received@)
    }

    /// What well-formedness says of the scanner's observable state: the
    /// phase flag agrees with a scan of the consumed bytes, and the
    /// emitted bytes are exactly their body.
    pub proof fn lemma_wf_observables(self)
        requires
            self.wf(),
        ensures
            self.in_body_state() == scan_in_body(self.bytes_in()),
            self.bytes_out() == body_of(self.bytes_in()),
    {
    }

    /// A fresh scanner: nothing consumed, nothing emitted.
    pub fn new() -> (s: Self)
        ensures
            s.wf(),
            s.bytes_in() == Seq::<u8>::empty(),
            s.bytes_out() == Seq::<u8>::empty(),
            !s.in_body_state(),
    {
        PreambleSkipper {
            in_body: false,
            line_blank: true,
            received: Ghost(Seq::empty()),
            emitted: Ghost(Seq::empty()),
        }
    }

    /// Is the scanner past the preamble?
    pub fn is_in_body(&self) -> (b: bool)
        ensures
            b == self.in_body_state(),
    {
        self.in_body
    }

    /// Consumes one chunk of bytes read from the origin and returns the
    /// body bytes it contributes: nothing while the preamble lasts, and
    /// every byte past the first blank line, in order.
    pub fn feed(&mut self, chunk: &[u8]) -> (out: Vec<u8>)
        requires
            old(self).wf(),
        ensures
            final(self).wf(),
            final(self).bytes_in() == old(self).bytes_in() + chunk@,
            final(self).bytes_out() == old(self).bytes_out() + out@,
            final(self).bytes_out() == body_of(final(self).bytes_in()),
            old(self).in_body_state() ==> final(self).in_body_state(),
    {
        let mut out: Vec<u8> = Vec::new();
        let mut in_body = self.in_body;
        let mut line_blank = self.line_blank;
        let ghost prev = self.received@;
        let mut i: usize = 0;
        while i < chunk.len()
            invariant
                0 <= i <= chunk@.len(),
                in_body == scan_in_body(prev + chunk@.take(i as int)),
                !in_body ==> line_blank == scan_line_blank(prev + chunk@.take(i as int)),
                body_of(prev) + out@ == body_of(prev + chunk@.take(i as int)),
                scan_in_body(prev) ==> in_body,
            decreases chunk@.len() - i,
        {
            let b = chunk[i];
            proof {
                let s = prev + chunk@.take(i as int);
                assert((prev + chunk@.take(i + 1)).drop_last() =~= s);
                assert((prev + chunk@.take(i + 1)).last() == chunk@[i as int]);
            }
            if in_body {
                out.push(b);
            } else if b == 10 {
                if line_blank {
                    in_body = true;
                } else {
                    line_blank = true;
                }
            } else {
                line_blank = line_blank && (b == 13 || b == 32 || b == 9);
            }
            i = i + 1;
        }
        proof {
            assert(prev + chunk@.take(chunk@.len() as int) =~= prev + chunk@);
        }
        self.in_body = in_body;
        self.line_blank = line_blank;
        proof {
            self.received@ = prev + chunk@;
            self.emitted@ = self.emitted@ + out@;
        }
        out
    }
}

} // verus!
