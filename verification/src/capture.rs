use vstd::prelude::*;

verus! {

use crate::buffer::Buffer;

// The audio backend is driven from an ordinary worker thread; the
// decisions of that thread - which state follows which backend event,
// and what to do with each peeked chunk - are the verified state machine
// below. The thread performs the returned action and feeds the next
// event back in.

/// Connection state of the audio capture.
#[derive(Clone, Copy, Debug, PartialEq, Eq, Structural)]
pub enum CaptureState {
    /// No connection attempt yet.
    Disconnected,
    /// Waiting for the audio backend to become ready.
    ConnectingBackend,
    /// Waiting for the record stream to become ready.
    ConnectingStream,
    /// Pulling audio data.
    Streaming,
    /// Tearing the stream down after cancellation.
    Disconnecting,
    /// Terminal state.
    Stopped,
}

/// What the audio backend reported, or what the capture loop observed.
#[derive(Clone, Copy, Debug, PartialEq, Eq, Structural)]
pub enum CaptureEvent {
    /// Start the connection attempt.
    Start,
    /// The backend context became ready.
    BackendReady,
    /// The backend context failed or terminated.
    BackendFailed,
    /// The record stream became ready.
    StreamReady,
    /// The record stream failed or terminated.
    StreamFailed,
    /// A peek returned this many readable bytes.
    DataAvailable(usize),
    /// A peek returned nothing.
    Empty,
    /// A peek returned a gap in the stream.
    Hole,
    /// The cancellation flag was observed.
    Cancelled,
}

/// What the worker thread must do next.
#[derive(Clone, Copy, Debug, PartialEq, Eq, Structural)]
pub enum CaptureAction {
    /// Connect to the audio backend and wait for its state signal.
    ConnectBackend,
    /// Enumerate endpoints, open the record stream corked, and wait.
    OpenStream,
    /// Uncork the stream and enter the capture loop.
    Uncork,
    /// Sleep briefly and poll again.
    Sleep,
    /// Read the peeked bytes into the byte buffer, then discard them.
    ReadChunk,
    /// Silently discard the peeked data.
    DiscardChunk,
    /// Cork, flush and disconnect the stream, then stop the backend loop.
    Disconnect,
    /// Stay stopped.
    Idle,
}

/// Bytes below which the capture loop sleeps instead of reading.
pub open spec fn read_threshold() -> int {
    128
}

/// The capture transition relation: next state and action for a state
/// and event. Backend failures abort the attempt (no automatic retry);
/// stream gaps are discarded silently; data below the threshold defers
/// to the next poll; cancellation tears the stream down.
pub open spec fn spec_capture_step(state: CaptureState, event: CaptureEvent) -> (
    CaptureState,
    CaptureAction,
) {
    match (state, event) {
        (CaptureState::Disconnected, CaptureEvent::Start) => (
            CaptureState::ConnectingBackend,
            CaptureAction::ConnectBackend,
        ),
        (CaptureState::ConnectingBackend, CaptureEvent::BackendReady) => (
            CaptureState::ConnectingStream,
            CaptureAction::OpenStream,
        ),
        (CaptureState::ConnectingBackend, CaptureEvent::BackendFailed) => (
            CaptureState::Stopped,
            CaptureAction::Idle,
        ),
        (CaptureState::ConnectingStream, CaptureEvent::StreamReady) => (
            CaptureState::Streaming,
            CaptureAction::Uncork,
        ),
        (CaptureState::ConnectingStream, CaptureEvent::StreamFailed) => (
            CaptureState::Stopped,
            CaptureAction::Idle,
        ),
        (CaptureState::Streaming, CaptureEvent::DataAvailable(count)) => (
            CaptureState::Streaming,
            if count < read_threshold() {
                CaptureAction::Sleep
            } else {
                CaptureAction::ReadChunk
            },
        ),
        (CaptureState::Streaming, CaptureEvent::Empty) => (
            CaptureState::Streaming,
            CaptureAction::Sleep,
        ),
        (CaptureState::Streaming, CaptureEvent::Hole) => (
            CaptureState::Streaming,
            CaptureAction::DiscardChunk,
        ),
        (CaptureState::Streaming, CaptureEvent::StreamFailed) => (
            CaptureState::Stopped,
            CaptureAction::Idle,
        ),
        (_, CaptureEvent::Cancelled) => (CaptureState::Disconnecting, CaptureAction::Disconnect),
        (CaptureState::Disconnecting, _) => (CaptureState::Stopped, CaptureAction::Idle),
        (s, _) => (s, CaptureAction::Idle),
    }
}

/// Advances the capture state machine by one event.
pub fn capture_step(state: CaptureState, event: CaptureEvent) -> (next: (
    CaptureState,
    CaptureAction,
))
    ensures
        next == spec_capture_step(state, event),
        state is Stopped && !(event is Cancelled) ==> next.0 is Stopped,
{
    match (state, event) {
        (CaptureState::Disconnected, CaptureEvent::Start) => (
            CaptureState::ConnectingBackend,
            CaptureAction::ConnectBackend,
        ),
        (CaptureState::ConnectingBackend, CaptureEvent::BackendReady) => (
            CaptureState::ConnectingStream,
            CaptureAction::OpenStream,
        ),
        (CaptureState::ConnectingBackend, CaptureEvent::BackendFailed) => (
            CaptureState::Stopped,
            CaptureAction::Idle,
        ),
        (CaptureState::ConnectingStream, CaptureEvent::StreamReady) => (
            CaptureState::Streaming,
            CaptureAction::Uncork,
        ),
        (CaptureState::ConnectingStream, CaptureEvent::StreamFailed) => (
            CaptureState::Stopped,
            CaptureAction::Idle,
        ),
        (CaptureState::Streaming, CaptureEvent::DataAvailable(count)) => (
            CaptureState::Streaming,
            if count < 128 {
                CaptureAction::Sleep
            } else {
                CaptureAction::ReadChunk
            },
        ),
        (CaptureState::Streaming, CaptureEvent::Empty) => (
            CaptureState::Streaming,
            CaptureAction::Sleep,
        ),
        (CaptureState::Streaming, CaptureEvent::Hole) => (
            CaptureState::Streaming,
            CaptureAction::DiscardChunk,
        ),
        (CaptureState::Streaming, CaptureEvent::StreamFailed) => (
            CaptureState::Stopped,
            CaptureAction::Idle,
        ),
        (_, CaptureEvent::Cancelled) => (CaptureState::Disconnecting, CaptureAction::Disconnect),
        (CaptureState::Disconnecting, _) => (CaptureState::Stopped, CaptureAction::Idle),
        (s, _) => (s, CaptureAction::Idle),
    }
}

/// Capture-side description of an audio endpoint, as plain values.
#[derive(Clone, Debug)]
pub struct AudioSource {
    /// Name of the audio source.
    pub name: String,
    /// Sampling rate in Hz.
    pub rate: u32,
    /// Name of the sink this source monitors.
    pub sink_name: String,
}

impl AudioSource {
    /// Builds an endpoint description from what the backend reported,
    /// substituting placeholder names where the backend reported none.
    pub fn from_parts(name: Option<String>, sink_name: Option<String>, rate: u32) -> (source:
        AudioSource)
        ensures
            source.rate == rate,
            (match name {
                Some(n) => source.name@ == n@,
                None => source.name@ == "Unnamed audio source"@,
            }),
            (match sink_name {
                Some(n) => source.sink_name@ == n@,
                None => source.sink_name@ == "Unnamed audio sink"@,
            }),
    {
        let resolved_name = match name {
            Some(n) => n,
            None => String::from_str("Unnamed audio source"),
        };
        let resolved_sink = match sink_name {
            Some(n) => n,
            None => String::from_str("Unnamed audio sink"),
        };
        AudioSource { name: resolved_name, rate, sink_name: resolved_sink }
    }
}

/// Index of the first endpoint monitoring the wanted sink.
pub open spec fn spec_select_source(sources: Seq<AudioSource>, sink: Seq<char>) -> Option<int>
    decreases sources.len(),
{
    if sources.len() == 0 {
        None
    } else if sources[0].sink_name@ == sink {
        Some(0)
    } else {
        match spec_select_source(sources.drop_first(), sink) {
            Some(i) => Some(i + 1),
            None => None,
        }
    }
}

/// Selects the first endpoint whose monitored sink name matches exactly.
pub fn select_source(sources: &Vec<AudioSource>, sink: &str) -> (found: Option<usize>)
    ensures
        (match found {
            Some(i) => spec_select_source(sources@, sink@) == Some(i as int) && i < sources@.len()
                && sources@[i as int].sink_name@ == sink@,
            None => spec_select_source(sources@, sink@) is None,
        }),
{
    let wanted = String::from_str(sink);
    let mut i: usize = 0;
    proof {
        assert(sources@.skip(0) =~= sources@);
    }
    while i < sources.len()
        invariant
            i <= sources@.len(),
            wanted@ == sink@,
            spec_select_source(sources@, sink@) == (match spec_select_source(
                sources@.skip(i as int),
                sink@,
            ) {
                Some(j) => Some(j + i),
                None => None::<int>,
            }),
        decreases sources@.len() - i,
    {
        proof {
            assert(sources@.skip(i as int).drop_first() =~= sources@.skip(i + 1));
            assert(sources@.skip(i as int)[0] == sources@[i as int]);
        }
        if sources[i].sink_name.eq(&wanted) {
            return Some(i);
        }
        i += 1;
    }
    proof {
        assert(sources@.skip(sources@.len() as int) =~= Seq::<AudioSource>::empty());
    }
    None
}

/// Absorbs one peeked chunk into the byte buffer: capacity is reserved
/// first, so with this exclusively-owned buffer the whole chunk is
/// written in one attempt.
pub fn absorb_chunk(buffer: &mut Buffer, data: &[u8]) -> (written: usize)
    requires
        old(buffer)@.len() + data@.len() <= usize::MAX,
    ensures
        final(buffer)@ == old(buffer)@ + data@,
        written == data@.len(),
{
    let spare = buffer.reserve(data.len());
    let _ = spare;
    buffer.write(data);
    data.len()
}

} // verus!
