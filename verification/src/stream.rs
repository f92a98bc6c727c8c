//! The stream supervisor: produces the caller-visible frame sequence with
//! exactly one terminal frame, under cooperative cancellation and rate
//! limiting.
//!
//! Each iteration races "next decoded unit" against "cancellation fired";
//! the decision taken on the winner is the verified [`Supervisor::step`].
//! The embedding application owns the asynchronous race itself and the
//! sleeps, and feeds every outcome through `step`; [`collect_tokens`]
//! replays a fully buffered event list through the same decisions.

use vstd::prelude::*;
use crate::config::{FetchError, FetchErrorKind};
use crate::text::{dec_str, push_dec};

verus! {

/// One frame delivered to the consumer: incremental text, the single
/// end-of-stream frame, or a terminal error.
#[derive(Clone, Debug, PartialEq)]
pub enum Frame {
    Text(String),
    End,
    Error(FetchError),
}

/// Whether a frame ends the stream.
pub open spec fn is_terminal_frame(f: Frame) -> bool {
    !(f is Text)
}

/// One input to the supervisor's per-iteration race: the cancellation
/// signal fired, or the next decoded unit is ready. `Ready(None)` is
/// natural transport exhaustion with no explicit end parsed.
#[derive(Debug)]
pub enum StreamEvent {
    Canceled,
    Ready(Option<Result<Option<String>, FetchError>>),
}

/// What the supervisor does with one event.
#[derive(Debug, PartialEq)]
pub enum Action {
    EmitText(String),
    EmitEnd,
    EmitError(FetchError),
    Skip,
}

/// The lifecycle of one completion request; the last three phases are
/// final.
#[derive(Clone, Copy, Debug, PartialEq, Eq, Structural)]
pub enum Phase {
    Idle,
    Sending,
    Streaming,
    Completed,
    Canceled,
    Failed,
}

pub open spec fn is_terminal_phase(p: Phase) -> bool {
    p == Phase::Completed || p == Phase::Canceled || p == Phase::Failed
}

/// Supervision state for one request: the lifecycle phase, the timestamp
/// of the last emission, and the minimum interval between emissions.
/// Every request gets a fresh instance; nothing is shared between
/// requests.
#[derive(Clone, Copy, Debug)]
pub struct Supervisor {
    pub phase: Phase,
    pub last_emit_ms: u64,
    pub min_interval_ms: u64,
}

/// The frame sequence a (prefix of a) stream of events produces: frames
/// for the events up to and including the first terminating event, in
/// order; empty keep-alive tokens are swallowed.
pub open spec fn frames_of(events: Seq<StreamEvent>) -> Seq<Frame>
    decreases events.len(),
{
    if events.len() == 0 {
        Seq::empty()
    } else {
        let rest = events.subrange(1, events.len() as int);
        match events[0] {
            StreamEvent::Canceled => seq![Frame::End],
            StreamEvent::Ready(None) => seq![Frame::End],
            StreamEvent::Ready(Some(Ok(None))) => seq![Frame::End],
            StreamEvent::Ready(Some(Ok(Some(s)))) => {
                if s@.len() == 0 {
                    frames_of(rest)
                } else {
                    seq![Frame::Text(s)] + frames_of(rest)
                }
            },
            StreamEvent::Ready(Some(Err(e))) => seq![Frame::Error(e)],
        }
    }
}

/// The phase a supervisor that was streaming ends in after taking the
/// given events: canceling, explicit or natural end, and errors settle it,
/// and it stays streaming while only text and keep-alives arrive.
pub open spec fn phase_after(events: Seq<StreamEvent>) -> Phase
    decreases events.len(),
{
    if events.len() == 0 {
        Phase::Streaming
    } else {
        match events[0] {
            StreamEvent::Canceled => Phase::Canceled,
            StreamEvent::Ready(None) => Phase::Completed,
            StreamEvent::Ready(Some(Ok(None))) => Phase::Completed,
            StreamEvent::Ready(Some(Ok(Some(_)))) => phase_after(
                events.subrange(1, events.len() as int),
            ),
            StreamEvent::Ready(Some(Err(_))) => Phase::Failed,
        }
    }
}

/// The delay owed before the next emission at time `now`: zero once the
/// minimum interval has elapsed since the last emission, else the
/// remainder of that interval.
pub open spec fn spec_required_delay(sup: Supervisor, now_ms: u64) -> int {
    if now_ms - sup.last_emit_ms >= sup.min_interval_ms {
        0
    } else {
        sup.last_emit_ms + sup.min_interval_ms - now_ms
    }
}

impl Supervisor {
    /// A fresh supervisor for one request.
    pub fn new(min_interval_ms: u64) -> (s: Supervisor)
        ensures
            s.phase == Phase::Idle,
            s.min_interval_ms == min_interval_ms,
            s.last_emit_ms == 0,
    {
        Supervisor { phase: Phase::Idle, last_emit_ms: 0, min_interval_ms }
    }

    /// The request is being dispatched. Cancellation is registered before
    /// this point, so a cancel during the send is not lost.
    pub fn start_send(&mut self)
        requires
            old(self).phase == Phase::Idle,
        ensures
            final(self).phase == Phase::Sending,
            final(self).last_emit_ms == old(self).last_emit_ms,
            final(self).min_interval_ms == old(self).min_interval_ms,
    {
        self.phase = Phase::Sending;
    }

    /// Cancellation won the race against the response: the request ends
    /// quietly, with no frame delivered.
    pub fn cancel_during_send(&mut self)
        requires
            old(self).phase == Phase::Sending,
        ensures
            final(self).phase == Phase::Canceled,
            final(self).last_emit_ms == old(self).last_emit_ms,
            final(self).min_interval_ms == old(self).min_interval_ms,
    {
        self.phase = Phase::Canceled;
    }

    /// Takes the upstream status: 200 starts streaming (and starts the
    /// rate-limit clock at `now_ms`); anything else fails the request with
    /// a transport error carrying the status and the response body.
    pub fn on_response(&mut self, status: u16, body: &str, now_ms: u64) -> (r: Result<(), FetchError>)
        requires
            old(self).phase == Phase::Sending,
        ensures
            final(self).min_interval_ms == old(self).min_interval_ms,
            status == 200 ==> r is Ok && final(self).phase == Phase::Streaming
                && final(self).last_emit_ms == now_ms,
            status != 200 ==> (r matches Err(e) && e.kind == FetchErrorKind::Transport
                && e.message@ == "Invalid status code: "@ + dec_str(status as nat) + ": "@ + body@
                && final(self).phase == Phase::Failed),
    {
        if status == 200 {
            self.phase = Phase::Streaming;
            self.last_emit_ms = now_ms;
            Ok(())
        } else {
            self.phase = Phase::Failed;
            let mut message = String::from_str("Invalid status code: ");
            push_dec(&mut message, status as u32);
            message.append(": ");
            message.append(body);
            Err(FetchError { kind: FetchErrorKind::Transport, message })
        }
    }

    /// The delay owed before the next frame may be emitted. Frames are
    /// never dropped to enforce the rate limit, only delayed.
    pub fn required_delay(&self, now_ms: u64) -> (d: u64)
        requires
            now_ms >= self.last_emit_ms,
        ensures
            d == spec_required_delay(*self, now_ms),
    {
        let elapsed = now_ms - self.last_emit_ms;
        if elapsed >= self.min_interval_ms {
            0
        } else {
            self.min_interval_ms - elapsed
        }
    }

    /// One supervision decision: what to do with the winner of the race at
    /// time `now_ms`. In a terminal phase every further event (a late
    /// cancellation included) is inert, so no frame ever follows the
    /// terminal one.
    pub fn step(&mut self, ev: StreamEvent, now_ms: u64) -> (act: Action)
        requires
            old(self).phase == Phase::Streaming || is_terminal_phase(old(self).phase),
        ensures
            final(self).min_interval_ms == old(self).min_interval_ms,
            is_terminal_phase(old(self).phase) ==> act is Skip && *final(self) == *old(self),
            old(self).phase == Phase::Streaming ==> match ev {
                StreamEvent::Canceled => act == Action::EmitEnd
                    && final(self).phase == Phase::Canceled,
                StreamEvent::Ready(None) => act == Action::EmitEnd
                    && final(self).phase == Phase::Completed,
                StreamEvent::Ready(Some(Ok(None))) => act == Action::EmitEnd
                    && final(self).phase == Phase::Completed,
                StreamEvent::Ready(Some(Ok(Some(s)))) => {
                    if s@.len() == 0 {
                        act is Skip && *final(self) == *old(self)
                    } else {
                        act == Action::EmitText(s) && final(self).phase == Phase::Streaming
                            && final(self).last_emit_ms == now_ms
                    }
                },
                StreamEvent::Ready(Some(Err(e))) => act == Action::EmitError(e)
                    && final(self).phase == Phase::Failed,
            },
    {
        if self.phase != Phase::Streaming {
            return Action::Skip;
        }
        match ev {
            StreamEvent::Canceled => {
                self.phase = Phase::Canceled;
                Action::EmitEnd
            },
            StreamEvent::Ready(None) => {
                self.phase = Phase::Completed;
                Action::EmitEnd
            },
            StreamEvent::Ready(Some(Ok(None))) => {
                self.phase = Phase::Completed;
                Action::EmitEnd
            },
            StreamEvent::Ready(Some(Ok(Some(s)))) => {
                if s.as_str().unicode_len() == 0 {
                    Action::Skip
                } else {
                    self.last_emit_ms = now_ms;
                    Action::EmitText(s)
                }
            },
            StreamEvent::Ready(Some(Err(e))) => {
                self.phase = Phase::Failed;
                Action::EmitError(e)
            },
        }
    }
}

/// Replays a fully buffered event list through the supervisor's decisions
/// and returns the delivered frame sequence: exactly `frames_of` the
/// events.
pub fn collect_tokens(sup: &mut Supervisor, events: Vec<StreamEvent>) -> (frames: Vec<Frame>)
    requires
        old(sup).phase == Phase::Streaming,
    ensures
        frames@ == frames_of(events@),
        final(sup).phase == phase_after(events@),
{
    let ghost orig = events@;
    let mut events = events;
    let mut frames: Vec<Frame> = Vec::new();
    while events.len() > 0
        invariant
            sup.phase == Phase::Streaming || is_terminal_phase(sup.phase),
            sup.phase == Phase::Streaming ==> frames_of(orig) == frames@ + frames_of(events@),
            sup.phase == Phase::Streaming ==> phase_after(orig) == phase_after(events@),
            is_terminal_phase(sup.phase) ==> frames@ == frames_of(orig),
            is_terminal_phase(sup.phase) ==> sup.phase == phase_after(orig),
        decreases events@.len(),
    {
        let ghost pre = events@;
        let ghost frames_pre = frames@;
        let ghost was_streaming = (sup.phase == Phase::Streaming);
        let ev = events.remove(0);
        let ghost gev = ev;
        assert(events@ =~= pre.subrange(1, pre.len() as int));
        let now = sup.last_emit_ms;
        let act = sup.step(ev, now);
        match act {
            Action::EmitText(s) => {
                frames.push(Frame::Text(s));
            },
            Action::EmitEnd => {
                frames.push(Frame::End);
            },
            Action::EmitError(e) => {
                frames.push(Frame::Error(e));
            },
            Action::Skip => {},
        }
        proof {
            if was_streaming {
                match gev {
                    StreamEvent::Canceled => {
                        assert(frames_of(pre) =~= seq![Frame::End]);
                        assert(frames@ =~= frames_pre + seq![Frame::End]);
                        assert(frames@ =~= frames_of(orig));
                    },
                    StreamEvent::Ready(None) => {
                        assert(frames_of(pre) =~= seq![Frame::End]);
                        assert(frames@ =~= frames_pre + seq![Frame::End]);
                        assert(frames@ =~= frames_of(orig));
                    },
                    StreamEvent::Ready(Some(Ok(None))) => {
                        assert(frames_of(pre) =~= seq![Frame::End]);
                        assert(frames@ =~= frames_pre + seq![Frame::End]);
                        assert(frames@ =~= frames_of(orig));
                    },
                    StreamEvent::Ready(Some(Ok(Some(t)))) => {
                        if t@.len() == 0 {
                            assert(frames_of(pre) == frames_of(events@));
                        } else {
                            assert(frames_of(pre) =~= seq![Frame::Text(t)] + frames_of(events@));
                            assert(frames@ =~= frames_pre + seq![Frame::Text(t)]);
                            assert(frames_of(orig) =~= frames@ + frames_of(events@));
                        }
                    },
                    StreamEvent::Ready(Some(Err(e))) => {
                        assert(frames_of(pre) =~= seq![Frame::Error(e)]);
                        assert(frames@ =~= frames_pre + seq![Frame::Error(e)]);
                        assert(frames@ =~= frames_of(orig));
                    },
                }
            }
        }
    }
    assert(frames@ =~= frames_of(orig));
    frames
}

// ------------------------------------------------------------------
// Supervision laws.
// ------------------------------------------------------------------

/// Law: in a delivered frame sequence only the last frame can be terminal,
/// so there is never a frame after an end or error frame.
pub proof fn lemma_terminal_only_last(events: Seq<StreamEvent>)
    ensures
        forall|i: int|
            0 <= i < frames_of(events).len() - 1 ==> !is_terminal_frame(
                #[trigger] frames_of(events)[i],
            ),
    decreases events.len(),
{
    if events.len() > 0 {
        let rest = events.subrange(1, events.len() as int);
        lemma_terminal_only_last(rest);
        assert forall|i: int|
            0 <= i < frames_of(events).len() - 1 implies !is_terminal_frame(
            frames_of(events)[i],
        ) by {
            match events[0] {
                StreamEvent::Ready(Some(Ok(Some(s)))) => {
                    if s@.len() == 0 {
                        assert(frames_of(events) == frames_of(rest));
                        assert(!is_terminal_frame(frames_of(rest)[i]));
                    } else if i > 0 {
                        assert(frames_of(events)[i] == frames_of(rest)[i - 1]);
                        assert(!is_terminal_frame(frames_of(rest)[i - 1]));
                    } else {
                        assert(frames_of(events)[0] == Frame::Text(s));
                    }
                },
                _ => {
                    assert(frames_of(events).len() == 1);
                },
            }
        }
    }
}

/// Law: cancellation before any text frame was decoded yields exactly the
/// end frame, whatever might still follow on the wire.
pub proof fn lemma_cancel_first(events: Seq<StreamEvent>)
    requires
        events.len() > 0,
        events[0] is Canceled,
    ensures
        frames_of(events) == seq![Frame::End],
{
}

/// Law: an explicitly decoded end marker, or natural transport
/// exhaustion, yields exactly the end frame and nothing after it.
pub proof fn lemma_end_marker_ends(events: Seq<StreamEvent>)
    requires
        events.len() > 0,
        events[0] == StreamEvent::Ready(None) || events[0] == StreamEvent::Ready(
            Some(Ok::<Option<String>, FetchError>(None)),
        ),
    ensures
        frames_of(events) == seq![Frame::End],
{
}

/// Law: a decode error yields exactly one error frame and nothing after
/// it.
pub proof fn lemma_error_stops(events: Seq<StreamEvent>, e: FetchError)
    requires
        events.len() > 0,
        events[0] == StreamEvent::Ready(Some(Err::<Option<String>, FetchError>(e))),
    ensures
        frames_of(events) == seq![Frame::Error(e)],
{
}

/// The event carrying one decoded non-empty text token.
pub open spec fn text_event(s: String) -> StreamEvent {
    StreamEvent::Ready(Some(Ok(Some(s))))
}

/// The events carrying the given text tokens, in order.
pub open spec fn text_events(texts: Seq<String>) -> Seq<StreamEvent>
    decreases texts.len(),
{
    if texts.len() == 0 {
        Seq::empty()
    } else {
        seq![text_event(texts[0])] + text_events(texts.drop_first())
    }
}

/// The text frames for the given tokens, in order.
pub open spec fn text_frames(texts: Seq<String>) -> Seq<Frame>
    decreases texts.len(),
{
    if texts.len() == 0 {
        Seq::empty()
    } else {
        seq![Frame::Text(texts[0])] + text_frames(texts.drop_first())
    }
}

proof fn lemma_text_events_len(texts: Seq<String>)
    ensures
        text_events(texts).len() == texts.len(),
    decreases texts.len(),
{
    if texts.len() > 0 {
        lemma_text_events_len(texts.drop_first());
    }
}

/// Law: canceling after N delivered text frames yields exactly those N
/// text frames and then one end frame, whatever might still follow on the
/// wire.
pub proof fn lemma_cancel_after_texts(texts: Seq<String>, tail: Seq<StreamEvent>)
    requires
        forall|i: int| 0 <= i < texts.len() ==> (#[trigger] texts[i])@.len() > 0,
        tail.len() > 0,
        tail[0] is Canceled,
    ensures
        frames_of(text_events(texts) + tail) == text_frames(texts) + seq![Frame::End],
    decreases texts.len(),
{
    lemma_text_events_len(texts);
    if texts.len() == 0 {
        assert(text_events(texts) + tail =~= tail);
        lemma_cancel_first(tail);
        assert(text_frames(texts) + seq![Frame::End] =~= seq![Frame::End]);
    } else {
        let events = text_events(texts) + tail;
        assert(events[0] == text_event(texts[0]));
        let rest = events.subrange(1, events.len() as int);
        assert(rest =~= text_events(texts.drop_first()) + tail) by {
            lemma_text_events_len(texts.drop_first());
        }
        lemma_cancel_after_texts(texts.drop_first(), tail);
        assert(frames_of(events) =~= text_frames(texts) + seq![Frame::End]);
    }
}

/// Law: a frame emitted no earlier than `now + d`, where `d` is the delay
/// the supervisor requires at `now`, lies at least the minimum interval
/// after the previous emission; and when the natural gap already reached
/// the minimum, no artificial delay is added (`d` is zero).
pub proof fn lemma_min_gap(sup: Supervisor, now_ms: u64, emit_ms: int)
    requires
        now_ms >= sup.last_emit_ms,
        emit_ms >= now_ms + spec_required_delay(sup, now_ms),
    ensures
        emit_ms - sup.last_emit_ms >= sup.min_interval_ms,
        now_ms - sup.last_emit_ms >= sup.min_interval_ms ==> spec_required_delay(sup, now_ms)
            == 0,
{
}

} // verus!
