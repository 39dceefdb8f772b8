use jank_bot::error::{SessionError, ValidationError};
use jank_bot::notice::Notice;

#[test]
fn notices_without_detail_have_fixed_wording() {
    assert_eq!(Notice::UrlInvalid.text(), "Url invalid");
    assert_eq!(Notice::Stopped.text(), "Stopped music and cleared the queue");
    assert_eq!(Notice::Skipping.text(), "Skipping song");
    assert_eq!(Notice::VolumeInvalid.text(), "Input an actual volume (0.0-100.0)");
    assert_eq!(Notice::QueueUnavailable.text(), "Failed to retrieve queue");
    assert_eq!(Notice::NotInChannel.text(), "You must be in a voice channel");
    assert_eq!(Notice::JoinFailed.text(), "Failed to join channel");
    assert_eq!(Notice::Left.text(), "Left voice channel");
    assert_eq!(Notice::NotConnected.text(), "Not in a voice channel");
}

#[test]
fn notices_with_detail_end_in_it() {
    assert_eq!(
        Notice::Added { uri: "http://a".to_string() }.text(),
        "Added song to queue: http://a"
    );
    assert_eq!(
        Notice::VolumeChanging { percent: "42.5".to_string() }.text(),
        "Changing volume to 42.5"
    );
    assert_eq!(
        Notice::DownloadFailed { uri: "http://bad".to_string() }.text(),
        "Failed to download audio: http://bad"
    );
    assert_eq!(Notice::NowPlaying { title: "Song".to_string() }.text(), "Now Playing: Song");
    assert_eq!(Notice::Joining { channel: 40 }.text(), "Joining channel <#40>");
    assert_eq!(
        Notice::LeaveFailed { detail: "NoCall".to_string() }.text(),
        "Failed to leave voice channel: NoCall"
    );
    assert_eq!(Notice::Added { uri: String::new() }.text(), "Added song to queue: ");
}

#[test]
fn every_validation_error_has_its_notice() {
    assert!(matches!(Notice::of_validation(ValidationError::MalformedUri), Notice::UrlInvalid));
    assert!(matches!(
        Notice::of_validation(ValidationError::VolumeOutOfRange),
        Notice::VolumeInvalid
    ));
}

#[test]
fn every_session_error_has_its_notice() {
    assert!(matches!(Notice::of_session(SessionError::NotInChannel), Notice::NotInChannel));
    assert!(matches!(Notice::of_session(SessionError::NotConnected), Notice::NotConnected));
    assert!(matches!(Notice::of_session(SessionError::ConnectFailed), Notice::JoinFailed));
}

#[test]
fn joining_notice_mentions_the_channel_by_its_number() {
    assert_eq!(Notice::Joining { channel: 0 }.text(), "Joining channel <#0>");
    assert_eq!(Notice::Joining { channel: 7 }.text(), "Joining channel <#7>");
    assert_eq!(
        Notice::Joining { channel: 381870129706958858 }.text(),
        "Joining channel <#381870129706958858>"
    );
    assert_eq!(
        Notice::Joining { channel: u64::MAX }.text(),
        "Joining channel <#18446744073709551615>"
    );
}
