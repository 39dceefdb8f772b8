//! The messages that the guild gets to read.

use crate::error::{SessionError, ValidationError};
use crate::text::{channel_mention, mention_text};
use vstd::prelude::*;

verus! {

/// A message for the people in the guild.
#[derive(Debug)]
pub enum Notice {
    /// The locator of a play request is missing or malformed.
    UrlInvalid,
    /// A track joined the queue.
    Added { uri: String },
    /// Playback ended and the queue was emptied.
    Stopped,
    /// The track that played is skipped.
    Skipping,
    /// The volume of a request is missing or out of range.
    VolumeInvalid,
    /// The volume changes; `percent` is the new volume as the caller
    /// rendered it.
    VolumeChanging { percent: String },
    /// The queue could not be shown.
    QueueUnavailable,
    /// A track could not be resolved.
    DownloadFailed { uri: String },
    /// A track begins to play.
    NowPlaying { title: String },
    /// The requester is in no voice channel.
    NotInChannel,
    /// The session could not be established.
    JoinFailed,
    /// The bot joins the voice channel of that number.
    Joining { channel: u64 },
    /// The session is gone.
    Left,
    /// There is no session to leave.
    NotConnected,
    /// The session could not be removed; `detail` is the transport's account.
    LeaveFailed { detail: String },
}

/// The sentence above the list of pending tracks.
pub open spec fn describe_current(current: Option<(Seq<char>, Seq<char>)>) -> Seq<char> {
    match current {
        Some((title, uri)) => "Current song: "@ + title + " ["@ + uri + "]"@,
        None => "No song currently playing!"@,
    }
}

impl Notice {
    /// The wording of each message.
    pub open spec fn spec_text(self) -> Seq<char> {
        match self {
            Notice::UrlInvalid => "Url invalid"@,
            Notice::Added { uri } => "Added song to queue: "@ + uri@,
            Notice::Stopped => "Stopped music and cleared the queue"@,
            Notice::Skipping => "Skipping song"@,
            Notice::VolumeInvalid => "Input an actual volume (0.0-100.0)"@,
            Notice::VolumeChanging { percent } => "Changing volume to "@ + percent@,
            Notice::QueueUnavailable => "Failed to retrieve queue"@,
            Notice::DownloadFailed { uri } => "Failed to download audio: "@ + uri@,
            Notice::NowPlaying { title } => "Now Playing: "@ + title@,
            Notice::NotInChannel => "You must be in a voice channel"@,
            Notice::JoinFailed => "Failed to join channel"@,
            Notice::Joining { channel } => "Joining channel "@ + mention_text(channel),
            Notice::Left => "Left voice channel"@,
            Notice::NotConnected => "Not in a voice channel"@,
            Notice::LeaveFailed { detail } => "Failed to leave voice channel: "@ + detail@,
        }
    }

    /// The message as text.
    pub fn text(&self) -> (r: String)
        ensures
            r@ == self.spec_text(),
    {
        match self {
            Notice::UrlInvalid => String::from_str("Url invalid"),
            Notice::Added { uri } => String::from_str("Added song to queue: ").concat(uri.as_str()),
            Notice::Stopped => String::from_str("Stopped music and cleared the queue"),
            Notice::Skipping => String::from_str("Skipping song"),
            Notice::VolumeInvalid => String::from_str("Input an actual volume (0.0-100.0)"),
            Notice::VolumeChanging { percent } => String::from_str("Changing volume to ").concat(
                percent.as_str(),
            ),
            Notice::QueueUnavailable => String::from_str("Failed to retrieve queue"),
            Notice::DownloadFailed { uri } => String::from_str("Failed to download audio: ").concat(
                uri.as_str(),
            ),
            Notice::NowPlaying { title } => String::from_str("Now Playing: ").concat(
                title.as_str(),
            ),
            Notice::NotInChannel => String::from_str("You must be in a voice channel"),
            Notice::JoinFailed => String::from_str("Failed to join channel"),
            Notice::Joining { channel } => String::from_str("Joining channel ").concat(
                channel_mention(*channel).as_str(),
            ),
            Notice::Left => String::from_str("Left voice channel"),
            Notice::NotConnected => String::from_str("Not in a voice channel"),
            Notice::LeaveFailed { detail } => String::from_str(
                "Failed to leave voice channel: ",
            ).concat(detail.as_str()),
        }
    }

    /// The message that answers a refused input.
    pub fn of_validation(error: ValidationError) -> (r: Notice)
        ensures
            r == match error {
                ValidationError::MalformedUri => Notice::UrlInvalid,
                ValidationError::VolumeOutOfRange => Notice::VolumeInvalid,
            },
    {
        match error {
            ValidationError::MalformedUri => Notice::UrlInvalid,
            ValidationError::VolumeOutOfRange => Notice::VolumeInvalid,
        }
    }

    /// The message that answers a refused summon or leave.
    pub fn of_session(error: SessionError) -> (r: Notice)
        ensures
            r == match error {
                SessionError::NotInChannel => Notice::NotInChannel,
                SessionError::NotConnected => Notice::NotConnected,
                SessionError::ConnectFailed => Notice::JoinFailed,
            },
    {
        match error {
            SessionError::NotInChannel => Notice::NotInChannel,
            SessionError::NotConnected => Notice::NotConnected,
            SessionError::ConnectFailed => Notice::JoinFailed,
        }
    }
}

} // verus!
