use empress::snapshot::{MediaInfo, SessionReading, TrackMetadata};
use empress::status::PlayerStatus;

fn full_metadata() -> TrackMetadata {
    TrackMetadata {
        title: Some("Blue in Green".to_string()),
        artists: Some(vec!["Miles Davis".to_string(), "Bill Evans".to_string()]),
        album: Some("Kind of Blue".to_string()),
        art_url: Some("file:///tmp/cover.png".to_string()),
        length: Some(337_000_000),
    }
}

#[test]
fn idle_snapshot_has_the_idle_title_and_nothing_else() {
    let info = MediaInfo::idle();
    assert_eq!(info.title, "No media playing");
    assert_eq!(info.artist, "");
    assert_eq!(info.album, "");
    assert_eq!(info.art_url, None);
    assert_eq!(info.status, PlayerStatus::Stopped);
    assert_eq!(info.position, None);
    assert_eq!(info.length, None);
}

#[test]
fn default_snapshot_is_the_idle_one() {
    assert_eq!(MediaInfo::default(), MediaInfo::idle());
    assert_eq!(PlayerStatus::default(), PlayerStatus::Stopped);
}

#[test]
fn reading_with_everything_maps_field_by_field() {
    let reading = SessionReading {
        metadata: Some(full_metadata()),
        status: Some(PlayerStatus::Playing),
        position: Some(12_000_000),
    };
    let info = MediaInfo::from_reading(&reading);
    assert_eq!(
        info,
        MediaInfo {
            title: "Blue in Green".to_string(),
            artist: "Miles Davis".to_string(),
            album: "Kind of Blue".to_string(),
            art_url: Some("file:///tmp/cover.png".to_string()),
            status: PlayerStatus::Playing,
            position: Some(12_000_000),
            length: Some(337_000_000),
        }
    );
}

#[test]
fn missing_fields_fall_back_one_by_one() {
    let reading = SessionReading {
        metadata: Some(TrackMetadata {
            title: None,
            artists: None,
            album: None,
            art_url: None,
            length: None,
        }),
        status: None,
        position: None,
    };
    let info = MediaInfo::from_reading(&reading);
    assert_eq!(info.title, "Unknown");
    assert_eq!(info.artist, "Unknown Artist");
    assert_eq!(info.album, "");
    assert_eq!(info.art_url, None);
    assert_eq!(info.status, PlayerStatus::Stopped);
    assert_eq!(info.position, None);
    assert_eq!(info.length, None);
}

#[test]
fn one_missing_field_leaves_the_others_alone() {
    let mut metadata = full_metadata();
    metadata.title = None;
    let reading = SessionReading {
        metadata: Some(metadata),
        status: Some(PlayerStatus::Paused),
        position: Some(5),
    };
    let info = MediaInfo::from_reading(&reading);
    assert_eq!(info.title, "Unknown");
    assert_eq!(info.artist, "Miles Davis");
    assert_eq!(info.album, "Kind of Blue");
    assert_eq!(info.status, PlayerStatus::Paused);
    assert_eq!(info.length, Some(337_000_000));
}

#[test]
fn empty_artist_list_counts_as_unknown_artist() {
    let mut metadata = full_metadata();
    metadata.artists = Some(Vec::new());
    let reading = SessionReading { metadata: Some(metadata), status: None, position: None };
    assert_eq!(MediaInfo::from_reading(&reading).artist, "Unknown Artist");
}

#[test]
fn reading_without_metadata_keeps_status_and_position() {
    let reading = SessionReading {
        metadata: None,
        status: Some(PlayerStatus::Playing),
        position: Some(77),
    };
    let info = MediaInfo::from_reading(&reading);
    assert_eq!(info.title, "Unknown");
    assert_eq!(info.artist, "Unknown Artist");
    assert_eq!(info.album, "");
    assert_eq!(info.art_url, None);
    assert_eq!(info.status, PlayerStatus::Playing);
    assert_eq!(info.position, Some(77));
    assert_eq!(info.length, None);
}

#[test]
fn reading_that_answers_nothing_is_not_the_idle_snapshot() {
    let reading = SessionReading { metadata: None, status: None, position: None };
    let info = MediaInfo::from_reading(&reading);
    assert_eq!(
        info,
        MediaInfo {
            title: "Unknown".to_string(),
            artist: "Unknown Artist".to_string(),
            album: String::new(),
            art_url: None,
            status: PlayerStatus::Stopped,
            position: None,
            length: None,
        }
    );
    assert_ne!(info, MediaInfo::idle());
    assert_eq!(MediaInfo::poll(Some(reading)), info);
}

#[test]
fn idle_title_comes_only_without_a_session() {
    assert_eq!(MediaInfo::poll(None).title, "No media playing");
    let reading = SessionReading {
        metadata: None,
        status: Some(PlayerStatus::Playing),
        position: Some(5),
    };
    let info = MediaInfo::poll(Some(reading));
    assert_eq!(info.title, "Unknown");
    assert_eq!(info.artist, "Unknown Artist");
    assert_eq!(info.status, PlayerStatus::Playing);
    assert_eq!(info.position, Some(5));
}

#[test]
fn poll_without_a_session_is_idle() {
    assert_eq!(MediaInfo::poll(None), MediaInfo::idle());
}

#[test]
fn poll_with_a_session_reads_it() {
    let reading = SessionReading {
        metadata: Some(full_metadata()),
        status: Some(PlayerStatus::Paused),
        position: None,
    };
    let expected = MediaInfo::from_reading(&reading);
    assert_eq!(MediaInfo::poll(Some(reading)), expected);
    assert_eq!(expected.title, "Blue in Green");
}

#[test]
fn clone_of_a_snapshot_is_equal_to_it() {
    let reading = SessionReading {
        metadata: Some(full_metadata()),
        status: Some(PlayerStatus::Playing),
        position: Some(1),
    };
    let info = MediaInfo::from_reading(&reading);
    assert_eq!(info.clone(), info);
}
