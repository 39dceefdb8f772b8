//! The executable playback state of a guild and the controller that advances
//! its queue.

use crate::error::ValidationError;
use crate::model::{Phase, Playback, PlaybackState};
use crate::notice::{describe_current, Notice};
use crate::queue::TrackQueue;
use crate::track::{is_http_locator, TrackRequest};
use crate::volume::{in_unit_range, Volume};
use vstd::prelude::*;

verus! {

/// The track that plays: its request, the title it resolved to, and the
/// transport's handle to the live playback.
pub struct CurrentSong<H> {
    pub uri: TrackRequest,
    pub title: String,
    pub handle: H,
}

impl<H> CurrentSong<H> {
    /// The playback that the song stands for.
    pub open spec fn playback(self) -> Playback<H> {
        Playback::Playing { uri: self.uri@, title: self.title@, handle: self.handle }
    }
}

/// One attempt to turn the head of the queue into audio: the caller resolves
/// `uri` and reports the outcome under `generation`.
#[derive(Debug)]
pub struct Ticket {
    pub generation: u64,
    pub uri: String,
}

impl View for Ticket {
    type V = (u64, Seq<char>);

    open spec fn view(&self) -> (u64, Seq<char>) {
        (self.generation, self.uri@)
    }
}

/// Title and locator of the track that plays, for display.
#[derive(Debug)]
pub struct NowPlaying {
    pub title: String,
    pub uri: String,
}

/// What a guild's playback looks like at one instant: the track that plays
/// and the pending ones, head first.
#[derive(Debug)]
pub struct Snapshot {
    pub current: Option<NowPlaying>,
    pub pending: Vec<String>,
}

impl View for Snapshot {
    type V = (Option<(Seq<char>, Seq<char>)>, Seq<Seq<char>>);

    open spec fn view(&self) -> (Option<(Seq<char>, Seq<char>)>, Seq<Seq<char>>) {
        (
            match self.current {
                Some(playing) => Some((playing.title@, playing.uri@)),
                None => None,
            },
            self.pending.deep_view(),
        )
    }
}

impl Snapshot {
    /// The sentence that names the track that plays, or says that none
    /// does.
    pub fn description(&self) -> (r: String)
        ensures
            r@ == describe_current(self@.0),
    {
        match &self.current {
            Some(playing) => String::from_str("Current song: ").concat(
                playing.title.as_str(),
            ).concat(" [").concat(playing.uri.as_str()).concat("]"),
            None => String::from_str("No song currently playing!"),
        }
    }
}

/// What the session holds about playback: nothing, the request under
/// resolution with the number of its attempt, or the track that plays.
enum Slot<H> {
    Idle,
    Resolving { generation: u64, request: TrackRequest },
    Playing(CurrentSong<H>),
}

/// The playback state of one guild: volume, the track that plays, the
/// pending tracks and the channel for feedback. `H` is the transport's handle
/// to a live playback; the state only stores it and hands it back.
pub struct MusicParams<H> {
    volume: Volume,
    slot: Slot<H>,
    queue: TrackQueue,
    text_channel: u64,
    generation: u64,
}

impl<H> View for MusicParams<H> {
    type V = PlaybackState<H>;

    closed spec fn view(&self) -> PlaybackState<H> {
        PlaybackState {
            volume: self.volume@,
            playback: match self.slot {
                Slot::Idle => Playback::Idle,
                Slot::Resolving { generation, request } => Playback::Resolving {
                    generation,
                    uri: request@,
                },
                Slot::Playing(song) => song.playback(),
            },
            queue: self.queue@,
            text_channel: self.text_channel,
            generation: self.generation,
        }
    }
}

impl<H> MusicParams<H> {
    /// The state of a guild in which nothing was requested yet.
    pub fn new(volume: Volume, text_channel: u64) -> (r: MusicParams<H>)
        ensures
            r@ == PlaybackState::<H>::initial(volume@, text_channel),
            r@.wf(),
    {
        let r = MusicParams {
            volume,
            slot: Slot::Idle,
            queue: TrackQueue::new(),
            text_channel,
            generation: 0,
        };
        proof {
            use_type_invariant(&r.volume);
            r.volume.lemma_in_range();
        }
        r
    }

    /// Establishes what holds of every state: the volume lies between zero
    /// and one, and every locator was validated. There is nothing to do at
    /// run time; the call lets a verified caller use the fact.
    pub fn establish_wf(&self)
        ensures
            self@.wf(),
    {
        proof {
            use_type_invariant(&self.volume);
            self.volume.lemma_in_range();
            use_type_invariant(&self.queue);
            self.queue.lemma_entries_valid();
        }
        match &self.slot {
            Slot::Idle => {},
            Slot::Resolving { request, .. } => {
                proof {
                    use_type_invariant(request);
                    request.lemma_valid();
                }
            },
            Slot::Playing(song) => {
                proof {
                    use_type_invariant(&song.uri);
                    song.uri.lemma_valid();
                }
            },
        }
    }

    /// The volume in force.
    pub fn volume(&self) -> (r: Volume)
        ensures
            r@ == self@.volume,
    {
        self.volume
    }

    /// The channel that feedback for the guild goes to.
    pub fn text_channel(&self) -> (r: u64)
        ensures
            r == self@.text_channel,
    {
        self.text_channel
    }

    /// The pending tracks.
    pub fn queue(&self) -> (r: &TrackQueue)
        ensures
            r@ == self@.queue,
    {
        &self.queue
    }

    /// The track that plays, if one does.
    pub fn current_song(&self) -> (r: Option<&CurrentSong<H>>)
        ensures
            match r {
                Some(song) => self@.playback == song.playback(),
                None => !(self@.playback is Playing),
            },
    {
        match &self.slot {
            Slot::Playing(song) => Some(song),
            _ => None,
        }
    }

    /// The phase the controller is in.
    pub fn phase(&self) -> (r: Phase)
        ensures
            r == self@.phase(),
    {
        match &self.slot {
            Slot::Idle => Phase::Idle,
            Slot::Resolving { .. } => Phase::Resolving,
            Slot::Playing(_) => Phase::Playing,
        }
    }

    /// The track that plays and the pending tracks, copied for display.
    pub fn snapshot(&self) -> (r: Snapshot)
        ensures
            r@ == self@.snapshot(),
    {
        let current = match &self.slot {
            Slot::Playing(song) => Some(
                NowPlaying { title: song.title.clone(), uri: song.uri.as_str().to_owned() },
            ),
            _ => None,
        };
        let pending = self.queue.uris();
        Snapshot { current, pending }
    }

    /// Validates a locator and appends it to the queue. A locator under
    /// neither the http nor the https scheme is refused and changes nothing.
    pub fn enqueue(&mut self, uri: String) -> (r: Result<(), ValidationError>)
        ensures
            final(self)@ == old(self)@.enqueue(uri@),
            is_http_locator(uri@) ==> r is Ok,
            !is_http_locator(uri@) ==> r == Err::<(), ValidationError>(
                ValidationError::MalformedUri,
            ),
    {
        match TrackRequest::new(uri) {
            Ok(request) => {
                self.queue.enqueue(request);
                Ok(())
            },
            Err(e) => Err(e),
        }
    }

    /// Sets the volume to the number with the given bit pattern. A number
    /// outside the interval from zero to one is refused and changes nothing.
    pub fn set_volume(&mut self, bits: u32) -> (r: Result<(), ValidationError>)
        ensures
            final(self)@ == old(self)@.set_volume(bits),
            in_unit_range(bits) ==> r is Ok,
            !in_unit_range(bits) ==> r == Err::<(), ValidationError>(
                ValidationError::VolumeOutOfRange,
            ),
    {
        match Volume::new(bits) {
            Ok(volume) => {
                self.volume = volume;
                Ok(())
            },
            Err(e) => Err(e),
        }
    }

    /// Drops every pending track. Playback is left alone.
    pub fn clear(&mut self)
        ensures
            final(self)@ == old(self)@.clear(),
    {
        self.queue.clear();
    }

    /// Ends playback and keeps the queue. An attempt in flight is abandoned:
    /// its outcome will find no one waiting.
    pub fn skip(&mut self)
        ensures
            final(self)@ == old(self)@.skip(),
    {
        self.slot = Slot::Idle;
    }

    /// Ends playback and empties the queue. An attempt in flight is
    /// abandoned as by `skip`.
    pub fn stop(&mut self)
        ensures
            final(self)@ == old(self)@.stop(),
    {
        self.slot = Slot::Idle;
        self.queue.clear();
    }

    /// The periodic tick. If nothing plays, nothing is being resolved and a
    /// track is pending, the head of the queue is taken and handed out for
    /// resolution; otherwise nothing changes. Test and removal are one step.
    pub fn on_tick(&mut self) -> (r: Option<Ticket>)
        ensures
            final(self)@ == old(self)@.tick(),
            old(self)@.can_advance() ==> r is Some && r->0@ == old(self)@.ticket(),
            !old(self)@.can_advance() ==> r is None,
    {
        self.advance()
    }

    /// Takes the head of the queue for resolution, if the session is idle and
    /// a track is pending. The attempt gets the number after that of the
    /// attempt before it.
    pub fn advance(&mut self) -> (r: Option<Ticket>)
        ensures
            final(self)@ == old(self)@.advance(),
            old(self)@.can_advance() ==> r is Some && r->0@ == old(self)@.ticket(),
            !old(self)@.can_advance() ==> r is None,
    {
        match &self.slot {
            Slot::Idle => {},
            _ => {
                return None;
            },
        }
        match self.queue.advance() {
            Err(_) => None,
            Ok(request) => {
                let generation = self.generation.wrapping_add(1);
                let uri = request.as_str().to_owned();
                self.generation = generation;
                self.slot = Slot::Resolving { generation, request };
                Some(Ticket { generation, uri })
            },
        }
    }

    /// The notification that a track ended. A playing session falls idle and
    /// leaves the queue to the next tick; an idle one advances as on a tick;
    /// one that is resolving is left alone.
    pub fn on_finish(&mut self) -> (r: Option<Ticket>)
        ensures
            final(self)@ == old(self)@.finish(),
            old(self)@.can_advance() ==> r is Some && r->0@ == old(self)@.ticket(),
            !old(self)@.can_advance() ==> r is None,
    {
        match &self.slot {
            Slot::Playing(_) => {
                self.slot = Slot::Idle;
                None
            },
            _ => self.advance(),
        }
    }

    /// Whether the outcome of attempt `generation` is still wanted: the
    /// session is resolving, and resolving that attempt.
    pub fn awaits(&self, generation: u64) -> (b: bool)
        ensures
            b == self@.awaits(generation),
    {
        match &self.slot {
            Slot::Resolving { generation: g, .. } => *g == generation,
            _ => false,
        }
    }

    /// Attempt `generation` was resolved to `title` and plays under
    /// `handle`. If the attempt is still wanted the track becomes the
    /// current one and the notice that it plays is handed out; if not,
    /// nothing changes and the handle comes back, for the caller to end that
    /// playback.
    pub fn on_started(&mut self, generation: u64, title: String, handle: H) -> (r: Result<
        Notice,
        H,
    >)
        ensures
            final(self)@ == old(self)@.started(generation, title@, handle),
            old(self)@.awaits(generation) ==> (r matches Ok(Notice::NowPlaying { title: shown })
                && shown@ == title@),
            !old(self)@.awaits(generation) ==> r == Err::<Notice, H>(handle),
    {
        if !self.awaits(generation) {
            return Err(handle);
        }
        let mut slot = Slot::Idle;
        core::mem::swap(&mut self.slot, &mut slot);
        match slot {
            Slot::Resolving { generation: _, request } => {
                let shown = title.clone();
                self.slot = Slot::Playing(CurrentSong { uri: request, title, handle });
                Ok(Notice::NowPlaying { title: shown })
            },
            other => {
                self.slot = other;
                Err(handle)
            },
        }
    }

    /// Attempt `generation` could not be resolved. If the attempt is still
    /// wanted its entry is dropped for good, the session is idle again, and
    /// the notice of the failure is handed out; if not, nothing changes.
    pub fn on_resolve_failed(&mut self, generation: u64) -> (r: Option<Notice>)
        ensures
            final(self)@ == old(self)@.resolve_failed(generation),
            old(self)@.awaits(generation) ==> (r matches Some(Notice::DownloadFailed { uri })
                && uri@ == old(self)@.resolving_uri()),
            !old(self)@.awaits(generation) ==> r is None,
    {
        if !self.awaits(generation) {
            return None;
        }
        let mut slot = Slot::Idle;
        core::mem::swap(&mut self.slot, &mut slot);
        match slot {
            Slot::Resolving { generation: _, request } => Some(
                Notice::DownloadFailed { uri: request.into_string() },
            ),
            other => {
                self.slot = other;
                None
            },
        }
    }

    /// Attempt `generation` was resolved, but the guild has no session to
    /// play it on. If the attempt is still wanted its entry returns to the
    /// head of the queue.
    pub fn on_session_missing(&mut self, generation: u64) -> (returned: bool)
        ensures
            final(self)@ == old(self)@.session_missing(generation),
            returned == old(self)@.awaits(generation),
    {
        if !self.awaits(generation) {
            return false;
        }
        let mut slot = Slot::Idle;
        core::mem::swap(&mut self.slot, &mut slot);
        match slot {
            Slot::Resolving { generation: _, request } => {
                self.queue.requeue_front(request);
                true
            },
            other => {
                self.slot = other;
                false
            },
        }
    }

    /// What the volume synchronisation pushes to the transport: the handle
    /// of the live playback and the volume in force, if a track plays.
    /// Pushing the same volume again changes nothing.
    pub fn volume_sync(&self) -> (r: Option<(&H, Volume)>)
        ensures
            match r {
                Some((handle, volume)) => self@.playback is Playing
                    && self@.playback->Playing_handle == *handle && volume@ == self@.volume,
                None => !(self@.playback is Playing),
            },
    {
        match &self.slot {
            Slot::Playing(song) => Some((&song.handle, self.volume)),
            _ => None,
        }
    }

    /// The session goes away: a track that was playing returns to the head
    /// of the queue, so that it plays again first.
    pub fn teardown(&mut self)
        ensures
            final(self)@ == old(self)@.teardown(),
    {
        let mut slot = Slot::Idle;
        core::mem::swap(&mut self.slot, &mut slot);
        match slot {
            Slot::Playing(song) => {
                self.queue.requeue_front(song.uri);
            },
            other => {
                self.slot = other;
            },
        }
    }
}

} // verus!
