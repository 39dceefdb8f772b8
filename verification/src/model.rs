//! The playback state as a mathematical value, and every transition that the
//! commands and the controller make on it.

use crate::queue::all_locators;
use crate::track::is_http_locator;
use crate::volume::in_unit_range;
use vstd::prelude::*;

verus! {

/// What a session is doing about playback. At most one track plays at any
/// time, and none plays while another is being resolved.
pub enum Playback<H> {
    /// Nothing plays; the next pending track may start.
    Idle,
    /// The head of the queue was taken and is being turned into audio.
    Resolving { generation: u64, uri: Seq<char> },
    /// A track plays; `handle` controls it.
    Playing { uri: Seq<char>, title: Seq<char>, handle: H },
}

/// The three phases of the controller.
#[derive(Clone, Copy, Debug, PartialEq, Eq, Structural)]
pub enum Phase {
    Idle,
    Resolving,
    Playing,
}

/// The playback state of one guild as a mathematical value: what the
/// executable state denotes, and what every contract speaks of.
pub struct PlaybackState<H> {
    /// Bit pattern of the volume.
    pub volume: u32,
    pub playback: Playback<H>,
    /// Locators of the pending tracks, head first.
    pub queue: Seq<Seq<char>>,
    /// Where feedback for the guild is sent.
    pub text_channel: u64,
    /// Number of the latest attempt to advance the queue.
    pub generation: u64,
}

/// Everything that can happen to the playback state of a guild: what its
/// members ask for, and what the transport reports.
pub enum Event<H> {
    /// A member requests the track at a locator.
    Enqueue { uri: Seq<char> },
    /// A member sets the volume to the number with a bit pattern.
    SetVolume { bits: u32 },
    /// The pending tracks are dropped.
    Clear,
    /// A member skips the track that plays.
    Skip,
    /// A member stops playback.
    Stop,
    /// The session is torn down.
    Teardown,
    /// The periodic tick.
    Tick,
    /// A track ended.
    Finish,
    /// An attempt was resolved and plays.
    Started { generation: u64, title: Seq<char>, handle: H },
    /// An attempt could not be resolved.
    ResolveFailed { generation: u64 },
    /// An attempt was resolved, but there is no session to play it on.
    SessionMissing { generation: u64 },
}

impl<H> Event<H> {
    /// Whether the event comes from the transport, and so is left to the
    /// controller, rather than from a member of the guild.
    pub open spec fn is_controller(self) -> bool {
        match self {
            Event::Tick
            | Event::Finish
            | Event::Started { .. }
            | Event::ResolveFailed { .. }
            | Event::SessionMissing { .. } => true,
            _ => false,
        }
    }
}

/// The number of the attempt after attempt `g`.
pub open spec fn next_generation(g: u64) -> u64 {
    if g == u64::MAX {
        0
    } else {
        (g + 1) as u64
    }
}

impl<H> PlaybackState<H> {
    /// The state of a guild in which nothing was requested yet.
    pub open spec fn initial(volume: u32, text_channel: u64) -> Self {
        PlaybackState {
            volume,
            playback: Playback::Idle,
            queue: Seq::empty(),
            text_channel,
            generation: 0,
        }
    }

    /// The volume lies between zero and one, and every locator the state
    /// holds was validated.
    pub open spec fn wf(self) -> bool {
        &&& in_unit_range(self.volume)
        &&& all_locators(self.queue)
        &&& match self.playback {
            Playback::Idle => true,
            Playback::Resolving { uri, .. } => is_http_locator(uri),
            Playback::Playing { uri, .. } => is_http_locator(uri),
        }
    }

    pub open spec fn phase(self) -> Phase {
        match self.playback {
            Playback::Idle => Phase::Idle,
            Playback::Resolving { .. } => Phase::Resolving,
            Playback::Playing { .. } => Phase::Playing,
        }
    }

    /// Title and locator of the track that plays, and the pending locators.
    pub open spec fn snapshot(self) -> (Option<(Seq<char>, Seq<char>)>, Seq<Seq<char>>) {
        (
            match self.playback {
                Playback::Playing { uri, title, .. } => Some((title, uri)),
                _ => None,
            },
            self.queue,
        )
    }

    /// The one condition under which the head of the queue is taken.
    pub open spec fn can_advance(self) -> bool {
        self.playback is Idle && self.queue.len() > 0
    }

    /// Number and locator of the attempt that the next advance starts.
    pub open spec fn ticket(self) -> (u64, Seq<char>) {
        (next_generation(self.generation), self.queue[0])
    }

    /// Takes the head of the queue for resolution if the session is idle and
    /// a track is pending; changes nothing otherwise.
    pub open spec fn advance(self) -> Self {
        if self.can_advance() {
            PlaybackState {
                playback: Playback::Resolving {
                    generation: next_generation(self.generation),
                    uri: self.queue[0],
                },
                queue: self.queue.drop_first(),
                generation: next_generation(self.generation),
                ..self
            }
        } else {
            self
        }
    }

    /// The periodic tick.
    pub open spec fn tick(self) -> Self {
        self.advance()
    }

    /// The notification that a track ended: a playing session falls idle,
    /// and an idle one advances as on a tick.
    pub open spec fn finish(self) -> Self {
        match self.playback {
            Playback::Playing { .. } => PlaybackState { playback: Playback::Idle, ..self },
            Playback::Idle => self.advance(),
            Playback::Resolving { .. } => self,
        }
    }

    /// Whether the outcome of attempt `generation` is still wanted.
    pub open spec fn awaits(self, generation: u64) -> bool {
        self.playback matches Playback::Resolving { generation: g, .. } && g == generation
    }

    /// The locator under resolution.
    pub open spec fn resolving_uri(self) -> Seq<char>
        recommends
            self.playback is Resolving,
    {
        self.playback->Resolving_uri
    }

    /// Attempt `generation` was resolved and its playback started.
    pub open spec fn started(self, generation: u64, title: Seq<char>, handle: H) -> Self {
        if self.awaits(generation) {
            PlaybackState {
                playback: Playback::Playing { uri: self.resolving_uri(), title, handle },
                ..self
            }
        } else {
            self
        }
    }

    /// Attempt `generation` could not be resolved: its entry is gone for
    /// good.
    pub open spec fn resolve_failed(self, generation: u64) -> Self {
        if self.awaits(generation) {
            PlaybackState { playback: Playback::Idle, ..self }
        } else {
            self
        }
    }

    /// Attempt `generation` was resolved, but there is no session to play it
    /// on: its entry returns to the head of the queue.
    pub open spec fn session_missing(self, generation: u64) -> Self {
        if self.awaits(generation) {
            PlaybackState {
                playback: Playback::Idle,
                queue: seq![self.resolving_uri()] + self.queue,
                ..self
            }
        } else {
            self
        }
    }

    /// A validated locator joins the end of the queue; any other is refused.
    pub open spec fn enqueue(self, uri: Seq<char>) -> Self {
        if is_http_locator(uri) {
            PlaybackState { queue: self.queue.push(uri), ..self }
        } else {
            self
        }
    }

    /// A volume between zero and one replaces the present one; any other is
    /// refused.
    pub open spec fn set_volume(self, bits: u32) -> Self {
        if in_unit_range(bits) {
            PlaybackState { volume: bits, ..self }
        } else {
            self
        }
    }

    /// Playback ends and an attempt in flight is abandoned; the queue stays.
    pub open spec fn skip(self) -> Self {
        PlaybackState { playback: Playback::Idle, ..self }
    }

    /// As `skip`, and the queue is emptied.
    pub open spec fn stop(self) -> Self {
        PlaybackState { playback: Playback::Idle, queue: Seq::empty(), ..self }
    }

    /// Every pending track is dropped; playback is left alone.
    pub open spec fn clear(self) -> Self {
        PlaybackState { queue: Seq::empty(), ..self }
    }

    /// The state after one event.
    pub open spec fn apply(self, event: Event<H>) -> Self {
        match event {
            Event::Enqueue { uri } => self.enqueue(uri),
            Event::SetVolume { bits } => self.set_volume(bits),
            Event::Clear => self.clear(),
            Event::Skip => self.skip(),
            Event::Stop => self.stop(),
            Event::Teardown => self.teardown(),
            Event::Tick => self.tick(),
            Event::Finish => self.finish(),
            Event::Started { generation, title, handle } => self.started(
                generation,
                title,
                handle,
            ),
            Event::ResolveFailed { generation } => self.resolve_failed(generation),
            Event::SessionMissing { generation } => self.session_missing(generation),
        }
    }

    /// The state after a run of events, the first of them first.
    pub open spec fn run(self, events: Seq<Event<H>>) -> Self
        decreases events.len(),
    {
        if events.len() == 0 {
            self
        } else {
            self.apply(events.first()).run(events.drop_first())
        }
    }

    /// The session goes away: a track that was playing returns to the head
    /// of the queue.
    pub open spec fn teardown(self) -> Self {
        match self.playback {
            Playback::Playing { uri, .. } => PlaybackState {
                playback: Playback::Idle,
                queue: seq![uri] + self.queue,
                ..self
            },
            _ => self,
        }
    }
}

} // verus!
