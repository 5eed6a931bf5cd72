//! LineStreamer: turns one readable byte stream into a sequence of log
//! events, one per line, in the order the child produced them.
//!
//! The surrounding binary reads the child's output pipe and feeds the bytes
//! here chunk by chunk; when the pipe reaches end-of-stream it asks for the
//! final partial line.  Every event carries the streamer's fixed error tag.
//!
//! A line terminator is a line feed; a carriage return standing immediately
//! before the terminator (or at the very end of the stream) is treated as
//! part of the terminator and stripped.

use vstd::prelude::*;
use crate::events::{LogEvent, event_is};
use crate::text::{NL, CR};

verus! {

/// The contents of the complete (terminator-ended) lines of `s`, in order,
/// each without its terminator.
pub open spec fn complete_lines(s: Seq<u8>) -> Seq<Seq<u8>>
    decreases s.len(),
{
    if s.len() == 0 {
        Seq::empty()
    } else if s.last() == NL {
        complete_lines(s.drop_last()).push(residual(s.drop_last()))
    } else {
        complete_lines(s.drop_last())
    }
}

/// The bytes of `s` after its last line terminator: the partial line still
/// waiting for its terminator (or for end-of-stream).
pub open spec fn residual(s: Seq<u8>) -> Seq<u8>
    decreases s.len(),
{
    if s.len() == 0 {
        Seq::empty()
    } else if s.last() == NL {
        Seq::empty()
    } else {
        residual(s.drop_last()).push(s.last())
    }
}

/// `l` without a trailing carriage return, if it has one.
pub open spec fn strip_cr(l: Seq<u8>) -> Seq<u8> {
    if l.len() > 0 && l.last() == CR {
        l.drop_last()
    } else {
        l
    }
}

/// The messages of the complete lines of `s`: each line's content with a
/// trailing carriage return stripped.
pub open spec fn line_msgs(s: Seq<u8>) -> Seq<Seq<u8>> {
    complete_lines(s).map(|i: int, l: Seq<u8>| strip_cr(l))
}

/// Every message a stream with contents `s` yields over its whole life: the
/// complete lines, then the final unterminated line if there is one.
pub open spec fn stream_msgs(s: Seq<u8>) -> Seq<Seq<u8>> {
    if residual(s).len() > 0 {
        line_msgs(s).push(strip_cr(residual(s)))
    } else {
        line_msgs(s)
    }
}

/// The messages of a sequence of events.
pub open spec fn msgs_of(events: Seq<LogEvent>) -> Seq<Seq<u8>> {
    events.map(|i: int, e: LogEvent| e.message@)
}

/// Reads one byte stream end-to-end, splitting on line terminators, and
/// emits one log event per line, all tagged with the same error flag.
pub struct LineStreamer {
    /// The fixed error tag assigned at construction.
    pub is_error: bool,
    /// Whether end-of-stream has been reached; no more bytes may be fed.
    pub finished: bool,
    /// The bytes after the last terminator seen so far.
    pub pending: Vec<u8>,
    /// All bytes fed so far, for specification only.
    pub consumed: Ghost<Seq<u8>>,
}

impl LineStreamer {
    /// All bytes fed to this streamer so far.
    pub open spec fn consumed_bytes(self) -> Seq<u8> {
        self.consumed@
    }

    /// The pending buffer holds exactly the bytes after the last terminator.
    pub open spec fn wf(self) -> bool {
        self.pending@ == residual(self.consumed@)
    }

    /// A fresh streamer with the given error tag and nothing consumed.
    pub fn new(is_error: bool) -> (s: Self)
        ensures
            s.wf(),
            !s.finished,
            s.is_error == is_error,
            s.consumed_bytes() == Seq::<u8>::empty(),
    {
        LineStreamer {
            is_error,
            finished: false,
            pending: Vec::new(),
            consumed: Ghost(Seq::empty()),
        }
    }

    /// Feeds the next bytes read from the stream.  Returns one event per line
    /// completed by these bytes: after the call, the line messages of
    /// everything consumed are those already complete before the call
    /// followed by exactly the messages of the returned events, in stream
    /// order, each tagged with this streamer's error flag.
    pub fn push_chunk(&mut self, chunk: &[u8]) -> (events: Vec<LogEvent>)
        requires
            old(self).wf(),
            !old(self).finished,
        ensures
            final(self).wf(),
            !final(self).finished,
            final(self).is_error == old(self).is_error,
            final(self).consumed_bytes() == old(self).consumed_bytes() + chunk@,
            line_msgs(final(self).consumed_bytes()) == line_msgs(old(self).consumed_bytes())
                + msgs_of(events@),
            forall|i: int|
                0 <= i < events@.len() ==> (#[trigger] events@[i]).is_error == old(
                    self,
                ).is_error,
    {
        let ghost base = self.consumed@;
        let err = self.is_error;
        let mut events: Vec<LogEvent> = Vec::new();
        proof {
            assert(base + chunk@.subrange(0, 0) =~= base);
            assert(line_msgs(base) + msgs_of(events@) =~= line_msgs(base));
        }
        let mut i: usize = 0;
        while i < chunk.len()
            invariant
                0 <= i <= chunk@.len(),
                self.wf(),
                !self.finished,
                self.is_error == err,
                self.consumed@ == base + chunk@.subrange(0, i as int),
                line_msgs(self.consumed@) == line_msgs(base) + msgs_of(events@),
                forall|k: int| 0 <= k < events@.len() ==> (#[trigger] events@[k]).is_error == err,
            decreases chunk@.len() - i,
        {
            let b = chunk[i];
            let ghost c0 = self.consumed@;
            let ghost c1 = c0.push(b);
            proof {
                assert(chunk@.subrange(0, i as int + 1) =~= chunk@.subrange(0, i as int).push(b));
                assert(c1 =~= base + chunk@.subrange(0, i as int + 1));
                assert(c1.drop_last() =~= c0);
                assert(c1.last() == b);
            }
            self.consumed = Ghost(c1);
            if b == NL {
                let mut line: Vec<u8> = Vec::new();
                core::mem::swap(&mut line, &mut self.pending);
                if line.len() > 0 && line[line.len() - 1] == CR {
                    line.pop();
                }
                proof {
                    assert(line@ == strip_cr(residual(c0)));
                    assert(complete_lines(c1) == complete_lines(c0).push(residual(c0)));
                    assert(line_msgs(c1) =~= line_msgs(c0).push(strip_cr(residual(c0))));
                    assert(residual(c1) =~= Seq::<u8>::empty());
                }
                let e = LogEvent { message: line, is_error: err };
                let ghost evs0 = events@;
                events.push(e);
                proof {
                    let x = strip_cr(residual(c0));
                    assert(msgs_of(events@) =~= msgs_of(evs0).push(x));
                    assert(line_msgs(base) + msgs_of(events@) =~= (line_msgs(base) + msgs_of(
                        evs0,
                    )).push(x));
                    assert(line_msgs(c1) == line_msgs(base) + msgs_of(events@));
                }
            } else {
                self.pending.push(b);
                proof {
                    assert(residual(c1) =~= residual(c0).push(b));
                    assert(complete_lines(c1) == complete_lines(c0));
                    assert(line_msgs(c1) =~= line_msgs(c0));
                }
            }
            i = i + 1;
        }
        proof {
            assert(chunk@.subrange(0, chunk@.len() as int) =~= chunk@);
        }
        events
    }

    /// Marks end-of-stream.  If an unterminated final line is pending, emits
    /// it as one last event; otherwise nothing is left to report.
    pub fn end_of_stream(&mut self) -> (ev: Option<LogEvent>)
        requires
            old(self).wf(),
            !old(self).finished,
        ensures
            final(self).finished,
            final(self).is_error == old(self).is_error,
            final(self).consumed_bytes() == old(self).consumed_bytes(),
            residual(old(self).consumed_bytes()).len() == 0 ==> ev is None,
            residual(old(self).consumed_bytes()).len() > 0 ==> (ev matches Some(e)
                && event_is(e, strip_cr(residual(old(self).consumed_bytes())), old(self).is_error)),
    {
        self.finished = true;
        if self.pending.len() == 0 {
            None
        } else {
            let mut line: Vec<u8> = Vec::new();
            core::mem::swap(&mut line, &mut self.pending);
            if line.len() > 0 && line[line.len() - 1] == CR {
                line.pop();
            }
            Some(LogEvent { message: line, is_error: self.is_error })
        }
    }
}

/// Stream fidelity: a stream whose whole contents are `s`, read with no
/// errors, is delivered as exactly `stream_msgs(s)` — every line, in stream
/// order, with its terminator stripped.  The premises are what `push_chunk`
/// guarantees for the events emitted over a fresh streamer's life and what
/// `end_of_stream` guarantees for the final event.
pub proof fn lemma_stream_fidelity(s: Seq<u8>, events: Seq<LogEvent>, last: Option<LogEvent>)
    requires
        msgs_of(events) == line_msgs(s),
        residual(s).len() == 0 ==> last is None,
        residual(s).len() > 0 ==> (last matches Some(e) && e.message@ == strip_cr(residual(s))),
    ensures
        match last {
            Some(e) => msgs_of(events.push(e)) == stream_msgs(s),
            None => msgs_of(events) == stream_msgs(s),
        },
{
    match last {
        Some(e) => {
            assert(msgs_of(events.push(e)) =~= msgs_of(events).push(e.message@));
        },
        None => {},
    }
}

} // verus!
