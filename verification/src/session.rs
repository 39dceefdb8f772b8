//! Setting a voice session up and tearing it down, step by step.

use crate::error::SessionError;
use crate::music::MusicParams;
use crate::notice::Notice;
use vstd::prelude::*;

verus! {

/// What the caller does next to carry out a summon. After `Leave` and `Join`
/// it reports how the transport answered; the other two end the summon.
#[derive(Clone, Copy, Debug, PartialEq, Eq, Structural)]
pub enum SummonStep {
    /// Remove the guild's present session, then call `summon_left`.
    Leave { channel: u64 },
    /// Announce the channel and join it, then call `summon_joined`.
    Join { channel: u64 },
    /// Subscribe the controller to the ticks and track ends of the new
    /// session.
    Subscribe,
    /// Tell the requester why nothing happens.
    Refuse(SessionError),
}

/// What the caller does next to carry out a leave.
#[derive(Clone, Copy, Debug, PartialEq, Eq, Structural)]
pub enum LeaveStep {
    /// Remove the guild's session and tell the requester how that went.
    Disconnect,
    /// Tell the requester why nothing happens.
    Refuse(SessionError),
}

/// The first step of a summon: a requester outside every voice channel is
/// refused; a guild that has a session leaves it first; any other joins at
/// once.
pub open spec fn summon_first(voice_channel: Option<u64>, connected: bool) -> SummonStep {
    match voice_channel {
        None => SummonStep::Refuse(SessionError::NotInChannel),
        Some(channel) => if connected {
            SummonStep::Leave { channel }
        } else {
            SummonStep::Join { channel }
        },
    }
}

/// The step after the transport was asked to remove the old session.
pub open spec fn summon_after_leave(channel: u64, removed: bool) -> SummonStep {
    if removed {
        SummonStep::Join { channel }
    } else {
        SummonStep::Refuse(SessionError::ConnectFailed)
    }
}

/// The step after the transport was asked to join the channel.
pub open spec fn summon_after_join(joined: bool) -> SummonStep {
    if joined {
        SummonStep::Subscribe
    } else {
        SummonStep::Refuse(SessionError::ConnectFailed)
    }
}

/// The first step of a leave: only a guild that has a session can leave it.
pub open spec fn leave_first(connected: bool) -> LeaveStep {
    if connected {
        LeaveStep::Disconnect
    } else {
        LeaveStep::Refuse(SessionError::NotConnected)
    }
}

impl<H> MusicParams<H> {
    /// Begins a summon. `voice_channel` is the channel the requester is in,
    /// `connected` whether the guild has a session. Before a join is handed
    /// out, a track left over from an earlier session returns to the head of
    /// the queue.
    pub fn summon(&mut self, voice_channel: Option<u64>, connected: bool) -> (step: SummonStep)
        ensures
            step == summon_first(voice_channel, connected),
            final(self)@ == if step is Join {
                old(self)@.teardown()
            } else {
                old(self)@
            },
    {
        match voice_channel {
            None => SummonStep::Refuse(SessionError::NotInChannel),
            Some(channel) => {
                if connected {
                    SummonStep::Leave { channel }
                } else {
                    self.teardown();
                    SummonStep::Join { channel }
                }
            },
        }
    }

    /// Continues a summon after the old session was to be removed. If it
    /// was, the track it played returns to the head of the queue and the join
    /// follows; if it was not, the summon fails and the state stays as it is.
    pub fn summon_left(&mut self, channel: u64, removed: bool) -> (step: SummonStep)
        ensures
            step == summon_after_leave(channel, removed),
            final(self)@ == if removed {
                old(self)@.teardown()
            } else {
                old(self)@
            },
    {
        if removed {
            self.teardown();
            SummonStep::Join { channel }
        } else {
            SummonStep::Refuse(SessionError::ConnectFailed)
        }
    }
}

/// Ends a summon after the join: a session that stands is subscribed to, a
/// failed join is reported.
pub fn summon_joined(joined: bool) -> (step: SummonStep)
    ensures
        step == summon_after_join(joined),
{
    if joined {
        SummonStep::Subscribe
    } else {
        SummonStep::Refuse(SessionError::ConnectFailed)
    }
}

/// Begins a leave. The playback state is not touched: the queue outlives
/// the session.
pub fn leave(connected: bool) -> (step: LeaveStep)
    ensures
        step == leave_first(connected),
{
    if connected {
        LeaveStep::Disconnect
    } else {
        LeaveStep::Refuse(SessionError::NotConnected)
    }
}

/// Ends a leave: says that the session is gone, or passes on the transport's
/// account of why it is not.
pub fn leave_done(outcome: Result<(), String>) -> (notice: Notice)
    ensures
        match outcome {
            Ok(_) => notice is Left,
            Err(account) => notice matches Notice::LeaveFailed { detail } && detail@ == account@,
        },
{
    match outcome {
        Ok(_) => Notice::Left,
        Err(account) => Notice::LeaveFailed { detail: account },
    }
}

} // verus!
