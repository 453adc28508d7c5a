//! The streaming completion path: a state machine that folds the
//! events of a server-sent-event connection into an ordered chunk
//! sequence, ends on the sentinel terminator, and fails the whole
//! stream on a transport or a decode error.

use vstd::prelude::*;
use crate::client::CompletionOption;
use crate::error::{CompletionError, PreconditionViolation};
use crate::json::{json_accepts, json_well_formed};
use crate::request::Request;
use crate::response::StreamResponse;

verus! {

/// One observation made while driving the event-stream connection.
#[derive(Debug, Clone, PartialEq, Eq)]
pub enum StreamEvent {
    /// The connection was established; no payload yet.
    Open,
    /// One event arrived, carrying its payload text.
    Data(String),
    /// The transport failed, with its own description.
    Failed(String),
}

/// What the caller driving the connection must do after handing one
/// event to the session.
#[derive(Debug, Clone, PartialEq)]
pub enum StreamStep {
    /// Keep reading events.
    Continue,
    /// The sentinel arrived: stop reading, close the connection, and
    /// take the accumulated chunks as the successful outcome.
    Done,
    /// Abort: close the connection and surface this failure; the
    /// accumulated chunks are discarded, never returned as success.
    Fail(CompletionError),
}

/// The literal end-of-stream marker distinguishing normal completion
/// from an open connection awaiting more data.
pub open spec fn is_sentinel(data: Seq<char>) -> bool {
    data == "[DONE]"@
}

/// The meaning of one whole event sequence: the chunks accumulated so
/// far, extended event by event until the sequence ends or a sentinel
/// ends it (success), or a transport failure or undecodable payload
/// aborts it (failure).
pub open spec fn consume(acc: Seq<StreamResponse>, events: Seq<StreamEvent>) -> Result<
    Seq<StreamResponse>,
    CompletionError,
>
    decreases events.len(),
{
    if events.len() == 0 {
        Ok(acc)
    } else {
        match events[0] {
            StreamEvent::Open => consume(acc, events.drop_first()),
            StreamEvent::Data(d) => if is_sentinel(d@) {
                Ok(acc)
            } else if json_accepts(d@) {
                consume(acc.push(StreamResponse { data: d }), events.drop_first())
            } else {
                Err(CompletionError::Decode(d))
            },
            StreamEvent::Failed(m) => Err(CompletionError::Transport(m)),
        }
    }
}

/// An event that neither ends nor aborts the stream: the connection
/// opening, or a decodable non-sentinel payload.
pub open spec fn yields_chunk_or_continue(ev: StreamEvent) -> bool {
    match ev {
        StreamEvent::Open => true,
        StreamEvent::Data(d) => !is_sentinel(d@) && json_accepts(d@),
        StreamEvent::Failed(_) => false,
    }
}

/// The chunks carried by the payload events of a sequence, in order.
pub open spec fn chunks_of(events: Seq<StreamEvent>) -> Seq<StreamResponse>
    decreases events.len(),
{
    if events.len() == 0 {
        Seq::<StreamResponse>::empty()
    } else {
        match events[0] {
            StreamEvent::Data(d) => seq![StreamResponse { data: d }] + chunks_of(
                events.drop_first(),
            ),
            _ => chunks_of(events.drop_first()),
        }
    }
}

/// One in-flight streaming completion: the chunks accumulated so far,
/// in arrival order.
#[derive(Debug)]
pub struct StreamSession {
    bufs: Vec<StreamResponse>,
}

impl StreamSession {
    /// The chunk sequence accumulated so far.
    pub closed spec fn chunks(&self) -> Seq<StreamResponse> {
        self.bufs@
    }

    /// Opens the streaming path for a request. Entering it with the
    /// streaming flag off is a programming error at the call site and
    /// is refused before anything else happens.
    pub fn start(req: &Request) -> (r: Result<StreamSession, CompletionError>)
        ensures
            req.stream ==> (r matches Ok(s) && s.chunks() == Seq::<StreamResponse>::empty()),
            !req.stream ==> r == Err::<StreamSession, CompletionError>(
                CompletionError::Precondition(PreconditionViolation::StreamFlagOff),
            ),
    {
        if req.is_stream() {
            Ok(StreamSession { bufs: Vec::new() })
        } else {
            Err(CompletionError::Precondition(PreconditionViolation::StreamFlagOff))
        }
    }

    /// Feeds one event to the session. The sentinel is recognized
    /// before any decoding is attempted, so the terminator is never
    /// treated as a malformed chunk.
    pub fn on_event(&mut self, event: &StreamEvent) -> (step: StreamStep)
        ensures
            *event matches StreamEvent::Open ==> step == StreamStep::Continue
                && final(self).chunks() == old(self).chunks(),
            *event matches StreamEvent::Data(d) ==> ((is_sentinel(d@) ==> step == StreamStep::Done
                && final(self).chunks() == old(self).chunks()) && (!is_sentinel(d@)
                && json_accepts(d@) ==> step == StreamStep::Continue && final(self).chunks() == old(
                self,
            ).chunks().push((StreamResponse { data: d }))) && (!is_sentinel(d@) && !json_accepts(
                d@,
            ) ==> step == StreamStep::Fail(CompletionError::Decode(d)) && final(self).chunks()
                == old(self).chunks())),
            *event matches StreamEvent::Failed(m)
                ==> step == StreamStep::Fail(CompletionError::Transport(m))
                && final(self).chunks() == old(self).chunks(),
    {
        match event {
            StreamEvent::Open => StreamStep::Continue,
            StreamEvent::Data(d) => {
                let sentinel: String = "[DONE]".to_owned();
                if sentinel.eq(d) {
                    StreamStep::Done
                } else if json_well_formed(d.as_str()) {
                    self.bufs.push(StreamResponse { data: d.clone() });
                    StreamStep::Continue
                } else {
                    StreamStep::Fail(CompletionError::Decode(d.clone()))
                }
            },
            StreamEvent::Failed(m) => StreamStep::Fail(CompletionError::Transport(m.clone())),
        }
    }

    /// Closes the session and returns everything accumulated, in
    /// arrival order, as the streaming outcome. Used both after the
    /// sentinel and when the stream ends without one.
    pub fn finish(self) -> (out: CompletionOption)
        ensures
            out matches CompletionOption::Stream(v) && v@ == self.chunks(),
    {
        CompletionOption::Stream(self.bufs)
    }

    /// Folds a whole event sequence, exactly as a caller driving the
    /// connection event by event would: stop at the first sentinel,
    /// abort at the first failure, and otherwise accumulate every
    /// decoded chunk until the events run out.
    #[verifier::loop_isolation(false)]
    pub fn run(self, events: &Vec<StreamEvent>) -> (r: Result<CompletionOption, CompletionError>)
        ensures
            consume(self.chunks(), events@) matches Ok(s) ==> (r matches Ok(out) && out matches
                CompletionOption::Stream(v) && v@ == s),
            consume(self.chunks(), events@) matches Err(e) ==> r == Err::<
                CompletionOption,
                CompletionError,
            >(e),
    {
        let ghost acc0 = self.chunks();
        let mut session = self;
        let mut i: usize = 0;
        proof {
            assert(events@.skip(0) =~= events@);
        }
        while i < events.len()
            invariant
                i <= events@.len(),
                consume(acc0, events@) == consume(session.chunks(), events@.skip(i as int)),
            decreases events@.len() - i,
        {
            proof {
                assert(events@.skip(i as int)[0] == events@[i as int]);
                assert(events@.skip(i as int).drop_first() =~= events@.skip(i as int + 1));
            }
            let step = session.on_event(&events[i]);
            match step {
                StreamStep::Continue => {},
                StreamStep::Done => {
                    proof {
                        assert(consume(acc0, events@) == Ok::<Seq<StreamResponse>, CompletionError>(
                            session.chunks(),
                        ));
                    }
                    return Ok(session.finish());
                },
                StreamStep::Fail(e) => {
                    proof {
                        assert(consume(acc0, events@) == Err::<
                            Seq<StreamResponse>,
                            CompletionError,
                        >(e));
                    }
                    return Err(e);
                },
            }
            i = i + 1;
        }
        proof {
            assert(events@.skip(i as int) =~= Seq::<StreamEvent>::empty());
        }
        Ok(session.finish())
    }
}

/// Law: when every event before the first sentinel either opens the
/// connection or carries a decodable chunk, the stream succeeds at the
/// sentinel with exactly the chunks of those events, in order — and the
/// events after the sentinel have no effect on the outcome at all.
pub proof fn lemma_sentinel_termination(
    acc: Seq<StreamResponse>,
    before: Seq<StreamEvent>,
    done: StreamEvent,
    after: Seq<StreamEvent>,
)
    requires
        done matches StreamEvent::Data(d) && is_sentinel(d@),
        forall|i: int| 0 <= i < before.len() ==> yields_chunk_or_continue(#[trigger] before[i]),
    ensures
        consume(acc, before + seq![done] + after) == Ok::<Seq<StreamResponse>, CompletionError>(
            acc + chunks_of(before),
        ),
    decreases before.len(),
{
    let events = before + seq![done] + after;
    if before.len() == 0 {
        assert(events[0] == done);
        assert(acc + chunks_of(before) =~= acc);
    } else {
        let rest = before.drop_first();
        assert(events[0] == before[0]);
        assert(events.drop_first() =~= rest + seq![done] + after);
        match before[0] {
            StreamEvent::Open => {
                lemma_sentinel_termination(acc, rest, done, after);
            },
            StreamEvent::Data(d) => {
                lemma_sentinel_termination(acc.push(StreamResponse { data: d }), rest, done, after);
                assert(acc.push(StreamResponse { data: d }) + chunks_of(rest) =~= acc + chunks_of(
                    before,
                ));
            },
            StreamEvent::Failed(_) => {
                assert(false);
            },
        }
    }
}

/// Law: a transport failure, or an undecodable payload, anywhere before
/// a sentinel fails the whole stream with that failure: the chunks
/// accumulated before it are never returned as a partial success.
pub proof fn lemma_all_or_nothing(
    acc: Seq<StreamResponse>,
    before: Seq<StreamEvent>,
    bad: StreamEvent,
    after: Seq<StreamEvent>,
)
    requires
        forall|i: int| 0 <= i < before.len() ==> yields_chunk_or_continue(#[trigger] before[i]),
        !yields_chunk_or_continue(bad),
        !(bad matches StreamEvent::Data(d) && is_sentinel(d@)),
    ensures
        bad matches StreamEvent::Failed(m) ==> consume(acc, before + seq![bad] + after) == Err::<
            Seq<StreamResponse>,
            CompletionError,
        >(CompletionError::Transport(m)),
        bad matches StreamEvent::Data(d) ==> consume(acc, before + seq![bad] + after) == Err::<
            Seq<StreamResponse>,
            CompletionError,
        >(CompletionError::Decode(d)),
    decreases before.len(),
{
    let events = before + seq![bad] + after;
    if before.len() == 0 {
        assert(events[0] == bad);
    } else {
        let rest = before.drop_first();
        assert(events[0] == before[0]);
        assert(events.drop_first() =~= rest + seq![bad] + after);
        match before[0] {
            StreamEvent::Open => {
                lemma_all_or_nothing(acc, rest, bad, after);
            },
            StreamEvent::Data(d) => {
                lemma_all_or_nothing(acc.push(StreamResponse { data: d }), rest, bad, after);
            },
            StreamEvent::Failed(_) => {
                assert(false);
            },
        }
    }
}

} // verus!
