//! What holds of the playback state whatever happens to it.

use crate::model::{next_generation, Event, Playback, PlaybackState};
use crate::queue::all_locators;
use crate::volume::in_unit_range;
use vstd::prelude::*;

verus! {

/// The state after each of `requests` was enqueued in turn.
pub open spec fn enqueue_all<H>(state: PlaybackState<H>, requests: Seq<Seq<char>>) -> PlaybackState<
    H,
>
    decreases requests.len(),
{
    if requests.len() == 0 {
        state
    } else {
        enqueue_all(state.enqueue(requests.first()), requests.drop_first())
    }
}

/// The state in which the next track plays: a tick takes the head of the
/// queue, and the attempt it starts is resolved to `title` and plays under
/// `handle`.
pub open spec fn play_next<H>(state: PlaybackState<H>, title: Seq<char>, handle: H) -> PlaybackState<
    H,
> {
    state.tick().started(state.ticket().0, title, handle)
}

/// What the controller plays over as many rounds as there are `outcomes`, and
/// the state it ends in. In each round a tick takes the head of the queue,
/// the attempt is resolved to the round's title and plays under the round's
/// handle, and the track ends. A round that finds nothing to take plays
/// nothing.
pub open spec fn play_rounds<H>(state: PlaybackState<H>, outcomes: Seq<(Seq<char>, H)>) -> (
    Seq<Seq<char>>,
    PlaybackState<H>,
)
    decreases outcomes.len(),
{
    if outcomes.len() == 0 {
        (Seq::empty(), state)
    } else {
        let playing = play_next(state, outcomes.first().0, outcomes.first().1);
        let rest = play_rounds(playing.finish(), outcomes.drop_first());
        match playing.playback {
            Playback::Playing { uri, .. } => (seq![uri] + rest.0, rest.1),
            _ => rest,
        }
    }
}

/// Enqueuing validated requests one after another appends them to the queue
/// in that order and changes nothing else.
pub proof fn lemma_enqueues_append<H>(state: PlaybackState<H>, requests: Seq<Seq<char>>)
    requires
        all_locators(requests),
    ensures
        enqueue_all(state, requests) == (PlaybackState {
            queue: state.queue + requests,
            ..state
        }),
    decreases requests.len(),
{
    if requests.len() > 0 {
        let next = state.enqueue(requests.first());
        lemma_enqueues_append(next, requests.drop_first());
        assert(next.queue + requests.drop_first() =~= state.queue + requests);
    }
}

/// From an idle session, as many rounds as the queue has entries play every
/// entry, head first, and leave the session idle with nothing pending.
pub proof fn lemma_rounds_drain<H>(state: PlaybackState<H>, outcomes: Seq<(Seq<char>, H)>)
    requires
        state.playback is Idle,
        outcomes.len() == state.queue.len(),
    ensures
        play_rounds(state, outcomes).0 == state.queue,
        play_rounds(state, outcomes).1.queue == Seq::<Seq<char>>::empty(),
        play_rounds(state, outcomes).1.playback is Idle,
        play_rounds(state, outcomes).1.volume == state.volume,
        play_rounds(state, outcomes).1.text_channel == state.text_channel,
    decreases outcomes.len(),
{
    if outcomes.len() > 0 {
        let playing = play_next(state, outcomes.first().0, outcomes.first().1);
        lemma_rounds_drain(playing.finish(), outcomes.drop_first());
    }
}

/// First in, first out: after any number of validated requests were
/// enqueued on an idle session with nothing pending, as many rounds of the
/// controller play them in the order in which they came, and nothing is
/// left.
pub proof fn lemma_fifo<H>(
    state: PlaybackState<H>,
    requests: Seq<Seq<char>>,
    outcomes: Seq<(Seq<char>, H)>,
)
    requires
        state.playback is Idle,
        state.queue.len() == 0,
        all_locators(requests),
        outcomes.len() == requests.len(),
    ensures
        play_rounds(enqueue_all(state, requests), outcomes).0 == requests,
        play_rounds(enqueue_all(state, requests), outcomes).1.queue == Seq::<Seq<char>>::empty(),
        play_rounds(enqueue_all(state, requests), outcomes).1.playback is Idle,
{
    lemma_fifo_behind_pending(state, requests, outcomes);
}

/// First in, first out, on a session that already has tracks pending: those
/// play first, then the new requests in the order in which they came.
pub proof fn lemma_fifo_behind_pending<H>(
    state: PlaybackState<H>,
    requests: Seq<Seq<char>>,
    outcomes: Seq<(Seq<char>, H)>,
)
    requires
        state.playback is Idle,
        all_locators(requests),
        outcomes.len() == state.queue.len() + requests.len(),
    ensures
        play_rounds(enqueue_all(state, requests), outcomes).0 == state.queue + requests,
        play_rounds(enqueue_all(state, requests), outcomes).1.queue == Seq::<Seq<char>>::empty(),
        play_rounds(enqueue_all(state, requests), outcomes).1.playback is Idle,
{
    lemma_enqueues_append(state, requests);
    lemma_rounds_drain(enqueue_all(state, requests), outcomes);
}

/// While a track plays the controller does not touch the queue: neither a
/// tick nor a track end nor the outcome of any attempt removes or adds an
/// entry, and only the track end changes the state at all, by clearing the
/// track that played.
pub proof fn lemma_playing_holds_queue<H>(
    state: PlaybackState<H>,
    generation: u64,
    title: Seq<char>,
    handle: H,
)
    requires
        state.playback is Playing,
    ensures
        !state.can_advance(),
        state.tick() == state,
        state.finish() == (PlaybackState { playback: Playback::Idle, ..state }),
        state.started(generation, title, handle) == state,
        state.resolve_failed(generation) == state,
        state.session_missing(generation) == state,
{
}

/// The head of the queue is taken only from an idle session, and taking it
/// leaves the session resolving: whenever a tick or a track end changes the
/// queue, nothing played and nothing was being resolved before, and the
/// entry taken is the one being resolved after.
pub proof fn lemma_advance_only_when_idle<H>(state: PlaybackState<H>)
    ensures
        state.tick().queue != state.queue ==> state.playback is Idle && state.tick().playback
            == (Playback::<H>::Resolving {
            generation: next_generation(state.generation),
            uri: state.queue[0],
        }),
        state.finish().queue != state.queue ==> state.playback is Idle
            && state.finish().playback == (Playback::<H>::Resolving {
            generation: next_generation(state.generation),
            uri: state.queue[0],
        }),
{
}

/// Of a tick and a track end that both find the session idle with a track
/// pending, exactly one takes the head of the queue, whichever comes first:
/// the first leaves the session resolving, and the second changes nothing.
pub proof fn lemma_single_advance<H>(state: PlaybackState<H>)
    requires
        state.can_advance(),
    ensures
        state.tick() == state.finish(),
        state.tick().queue == state.queue.drop_first(),
        !state.tick().can_advance(),
        state.tick().finish() == state.tick(),
        state.finish().tick() == state.finish(),
        state.tick().tick() == state.tick(),
{
}

/// Setting the same volume twice is the same as setting it once, and an
/// accepted volume is then the volume in force.
pub proof fn lemma_set_volume_idempotent<H>(state: PlaybackState<H>, bits: u32)
    ensures
        state.set_volume(bits).set_volume(bits) == state.set_volume(bits),
        in_unit_range(bits) ==> state.set_volume(bits).volume == bits,
        !in_unit_range(bits) ==> state.set_volume(bits) == state,
{
}

/// A track that cannot be resolved is dropped and not tried again: after the
/// failed attempt the session is idle and the queue holds the entries behind
/// the failed one.
pub proof fn lemma_failed_entry_dropped<H>(state: PlaybackState<H>)
    requires
        state.can_advance(),
    ensures
        state.tick().resolve_failed(state.ticket().0).playback is Idle,
        state.tick().resolve_failed(state.ticket().0).queue == state.queue.drop_first(),
{
}

/// A track that was resolved and started is the current one, under the
/// locator it was queued with, and the queue holds the entries behind it.
pub proof fn lemma_started_entry_plays<H>(state: PlaybackState<H>, title: Seq<char>, handle: H)
    requires
        state.can_advance(),
    ensures
        state.tick().started(state.ticket().0, title, handle).playback == (Playback::Playing {
            uri: state.queue[0],
            title,
            handle,
        }),
        state.tick().started(state.ticket().0, title, handle).queue == state.queue.drop_first(),
{
}

/// A skip or a stop abandons the attempt in flight: whatever outcome is
/// reported afterwards changes nothing, so nothing plays after a stop until
/// a later advance.
pub proof fn lemma_stop_abandons_attempt<H>(
    state: PlaybackState<H>,
    generation: u64,
    title: Seq<char>,
    handle: H,
)
    ensures
        !state.skip().awaits(generation),
        !state.stop().awaits(generation),
        state.skip().started(generation, title, handle) == state.skip(),
        state.stop().started(generation, title, handle) == state.stop(),
        state.stop().resolve_failed(generation) == state.stop(),
        state.stop().session_missing(generation) == state.stop(),
{
}

/// The outcome of an attempt that was abandoned is not taken for that of the
/// attempt that followed it.
pub proof fn lemma_stale_outcome_ignored<H>(state: PlaybackState<H>, title: Seq<char>, handle: H)
    requires
        state.can_advance(),
        state.queue.len() > 1,
    ensures
        ({
            let first = state.ticket().0;
            let second = state.tick().skip().tick();
            &&& second.awaits(second.generation)
            &&& second.generation != first
            &&& second.started(first, title, handle) == second
            &&& second.resolve_failed(first) == second
        }),
{
}

/// Tearing a session down loses no track: the one that played returns to
/// the head of the queue, in front of all pending ones, and nothing plays.
pub proof fn lemma_teardown_requeues<H>(state: PlaybackState<H>)
    ensures
        !(state.teardown().playback is Playing),
        state.playback matches Playback::Playing { uri, .. } ==> state.teardown().queue == seq![
            uri,
        ] + state.queue && state.teardown().playback is Idle,
        !(state.playback is Playing) ==> state.teardown() == state,
{
}

/// What holds of the first state holds of every later one: whatever happens
/// to a state, its volume stays between zero and one and it holds validated
/// locators only.
pub proof fn lemma_wf_preserved<H>(
    state: PlaybackState<H>,
    uri: Seq<char>,
    bits: u32,
    generation: u64,
    title: Seq<char>,
    handle: H,
)
    requires
        state.wf(),
    ensures
        state.enqueue(uri).wf(),
        state.set_volume(bits).wf(),
        state.clear().wf(),
        state.skip().wf(),
        state.stop().wf(),
        state.tick().wf(),
        state.finish().wf(),
        state.started(generation, title, handle).wf(),
        state.resolve_failed(generation).wf(),
        state.session_missing(generation).wf(),
        state.teardown().wf(),
{
}

/// The volume is between zero and one and every locator is a validated one
/// in every state that a run of events leads to from a state of which that
/// holds.
pub proof fn lemma_wf_always<H>(state: PlaybackState<H>, events: Seq<Event<H>>)
    requires
        state.wf(),
    ensures
        state.run(events).wf(),
    decreases events.len(),
{
    if events.len() > 0 {
        lemma_wf_always(state.apply(events.first()), events.drop_first());
    }
}

/// Whether a track plays at the start of a run of events and after each of
/// them but the last.
pub open spec fn plays_throughout<H>(state: PlaybackState<H>, events: Seq<Event<H>>) -> bool
    decreases events.len(),
{
    state.playback is Playing && (events.len() > 0 ==> plays_throughout(
        state.apply(events.first()),
        events.drop_first(),
    ))
}

/// The controller does not touch the queue for as long as a track plays: over
/// any run of the transport's events during which the track is never
/// cleared, the queue stays as it was, entry for entry. A track end clears
/// the track and takes nothing; only a later event can advance the queue.
pub proof fn lemma_queue_held_while_playing<H>(state: PlaybackState<H>, events: Seq<Event<H>>)
    requires
        plays_throughout(state, events),
        forall|i: int| 0 <= i < events.len() ==> (#[trigger] events[i]).is_controller(),
    ensures
        state.run(events).queue == state.queue,
    decreases events.len(),
{
    if events.len() > 0 {
        lemma_queue_held_while_playing(state.apply(events.first()), events.drop_first());
    }
}

/// The first state is well formed whenever its volume is.
pub proof fn lemma_initial_wf<H>(volume: u32, text_channel: u64)
    requires
        in_unit_range(volume),
    ensures
        PlaybackState::<H>::initial(volume, text_channel).wf(),
{
}

} // verus!
