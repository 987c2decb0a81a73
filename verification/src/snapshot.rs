//! Point-in-time reads of a media session.
//!
//! A [`SessionReading`] holds what a session answered when it was queried, field by field, with
//! `None` wherever the query failed or the field was missing. [`MediaInfo`] is the snapshot made
//! from it: every field filled in, ready to be shown. Durations are microseconds.
//!
//! The idle snapshot stands for "no session at all". A session that is there but answers
//! nothing is shown with the defaults of its fields instead.

use vstd::prelude::*;
use crate::status::PlayerStatus;
use crate::text::{opt_chars, list_chars, copy_opt_text};

verus! {

/// One immutable read of what a session is playing.
#[derive(Debug, PartialEq, Eq)]
pub struct MediaInfo {
    pub title: String,
    pub artist: String,
    pub album: String,
    pub art_url: Option<String>,
    pub status: PlayerStatus,
    pub position: Option<u64>,
    pub length: Option<u64>,
}

/// The mathematical value of a [`MediaInfo`].
pub struct MediaInfoView {
    pub title: Seq<char>,
    pub artist: Seq<char>,
    pub album: Seq<char>,
    pub art_url: Option<Seq<char>>,
    pub status: PlayerStatus,
    pub position: Option<u64>,
    pub length: Option<u64>,
}

impl View for MediaInfo {
    type V = MediaInfoView;

    open spec fn view(&self) -> MediaInfoView {
        MediaInfoView {
            title: self.title@,
            artist: self.artist@,
            album: self.album@,
            art_url: opt_chars(self.art_url),
            status: self.status,
            position: self.position,
            length: self.length,
        }
    }
}

/// The metadata of the current track, as far as the session gave it.
#[derive(Debug, PartialEq, Eq)]
pub struct TrackMetadata {
    pub title: Option<String>,
    pub artists: Option<Vec<String>>,
    pub album: Option<String>,
    pub art_url: Option<String>,
    pub length: Option<u64>,
}

/// The mathematical value of a [`TrackMetadata`].
pub struct TrackMetadataView {
    pub title: Option<Seq<char>>,
    pub artists: Option<Seq<Seq<char>>>,
    pub album: Option<Seq<char>>,
    pub art_url: Option<Seq<char>>,
    pub length: Option<u64>,
}

impl View for TrackMetadata {
    type V = TrackMetadataView;

    open spec fn view(&self) -> TrackMetadataView {
        TrackMetadataView {
            title: opt_chars(self.title),
            artists: match self.artists {
                Some(names) => Some(list_chars(names@)),
                None => None,
            },
            album: opt_chars(self.album),
            art_url: opt_chars(self.art_url),
            length: self.length,
        }
    }
}

/// What a bound session answered to one round of queries.
#[derive(Debug, PartialEq, Eq)]
pub struct SessionReading {
    pub metadata: Option<TrackMetadata>,
    pub status: Option<PlayerStatus>,
    pub position: Option<u64>,
}

/// The mathematical value of a [`SessionReading`].
pub struct SessionReadingView {
    pub metadata: Option<TrackMetadataView>,
    pub status: Option<PlayerStatus>,
    pub position: Option<u64>,
}

impl View for SessionReading {
    type V = SessionReadingView;

    open spec fn view(&self) -> SessionReadingView {
        SessionReadingView {
            metadata: match self.metadata {
                Some(m) => Some(m@),
                None => None,
            },
            status: self.status,
            position: self.position,
        }
    }
}

/// The snapshot shown while no session can be resolved.
pub open spec fn idle_snapshot() -> MediaInfoView {
    MediaInfoView {
        title: "No media playing"@,
        artist: Seq::empty(),
        album: Seq::empty(),
        art_url: None,
        status: PlayerStatus::Stopped,
        position: None,
        length: None,
    }
}

/// The title shown for a reading: the track's own, and `Unknown` where the metadata lacks
/// one or could not be read at all.
pub open spec fn title_of(metadata: Option<TrackMetadataView>) -> Seq<char> {
    match metadata {
        Some(m) => match m.title {
            Some(t) => t,
            None => "Unknown"@,
        },
        None => "Unknown"@,
    }
}

/// The artist shown for a reading: the first listed one, and `Unknown Artist` where the
/// metadata lists none or could not be read at all.
pub open spec fn artist_of(metadata: Option<TrackMetadataView>) -> Seq<char> {
    match metadata {
        Some(m) => match m.artists {
            Some(names) => if names.len() > 0 {
                names[0]
            } else {
                "Unknown Artist"@
            },
            None => "Unknown Artist"@,
        },
        None => "Unknown Artist"@,
    }
}

/// The album shown for a reading: the track's own, or nothing.
pub open spec fn album_of(metadata: Option<TrackMetadataView>) -> Seq<char> {
    match metadata {
        Some(m) => match m.album {
            Some(a) => a,
            None => Seq::empty(),
        },
        None => Seq::empty(),
    }
}

/// The snapshot that a reading maps to. Each field falls back on its own default; none makes
/// the whole snapshot fail, not even metadata that could not be read at all. The session is
/// resolved, so the idle texts are never shown for it.
pub open spec fn snapshot_of(reading: SessionReadingView) -> MediaInfoView {
    MediaInfoView {
        title: title_of(reading.metadata),
        artist: artist_of(reading.metadata),
        album: album_of(reading.metadata),
        art_url: match reading.metadata {
            Some(m) => m.art_url,
            None => None,
        },
        status: match reading.status {
            Some(s) => s,
            None => PlayerStatus::Stopped,
        },
        position: reading.position,
        length: match reading.metadata {
            Some(m) => m.length,
            None => None,
        },
    }
}

/// The snapshot that one poll produces: that of the reading where a session was resolved,
/// the idle one where none was.
pub open spec fn polled(reading: Option<SessionReadingView>) -> MediaInfoView {
    match reading {
        Some(r) => snapshot_of(r),
        None => idle_snapshot(),
    }
}

impl MediaInfo {
    /// The snapshot shown while no session can be resolved.
    pub fn idle() -> (info: MediaInfo)
        ensures
            info@ == idle_snapshot(),
    {
        MediaInfo {
            title: "No media playing".to_owned(),
            artist: String::new(),
            album: String::new(),
            art_url: None,
            status: PlayerStatus::Stopped,
            position: None,
            length: None,
        }
    }

    /// Maps what a session answered into a snapshot, field by field.
    pub fn from_reading(reading: &SessionReading) -> (info: MediaInfo)
        ensures
            info@ == snapshot_of(reading@),
    {
        let status = match reading.status {
            Some(s) => s,
            None => PlayerStatus::Stopped,
        };
        match &reading.metadata {
            Some(m) => {
                let title = match &m.title {
                    Some(t) => t.clone(),
                    None => "Unknown".to_owned(),
                };
                let artist = match &m.artists {
                    Some(names) => if names.len() > 0 {
                        names[0].clone()
                    } else {
                        "Unknown Artist".to_owned()
                    },
                    None => "Unknown Artist".to_owned(),
                };
                let album = match &m.album {
                    Some(a) => a.clone(),
                    None => String::new(),
                };
                MediaInfo {
                    title,
                    artist,
                    album,
                    art_url: copy_opt_text(&m.art_url),
                    status,
                    position: reading.position,
                    length: m.length,
                }
            },
            None => MediaInfo {
                title: "Unknown".to_owned(),
                artist: "Unknown Artist".to_owned(),
                album: String::new(),
                art_url: None,
                status,
                position: reading.position,
                length: None,
            },
        }
    }

    /// The snapshot of one poll tick: read from the session if one was resolved, idle if not.
    pub fn poll(reading: Option<SessionReading>) -> (info: MediaInfo)
        ensures
            info@ == polled(
                match reading {
                    Some(r) => Some(r@),
                    None => None,
                },
            ),
    {
        match reading {
            Some(r) => MediaInfo::from_reading(&r),
            None => MediaInfo::idle(),
        }
    }
}

/// A session whose metadata could not be read is still shown as a session: with the default
/// title and artist, no album, art or length, and the state and position that it gave.
pub proof fn unreadable_metadata_gets_the_defaults(
    status: Option<PlayerStatus>,
    position: Option<u64>,
)
    ensures
        ({
            let shown = snapshot_of(SessionReadingView { metadata: None, status, position });
            &&& shown.title == "Unknown"@
            &&& shown.artist == "Unknown Artist"@
            &&& shown.album == Seq::<char>::empty()
            &&& shown.art_url is None
            &&& shown.length is None
            &&& shown.position == position
            &&& status matches Some(s) ==> shown.status == s
            &&& status is None ==> shown.status == PlayerStatus::Stopped
        }),
{
}

/// Every field of a snapshot falls back on its own: a field that the metadata lacks gets its
/// default, and the fields that are there are shown as they are.
pub proof fn fields_fall_back_one_by_one(reading: SessionReadingView)
    requires
        reading.metadata is Some,
    ensures
        ({
            let m = reading.metadata->0;
            let shown = snapshot_of(reading);
            &&& m.title matches Some(t) ==> shown.title == t
            &&& m.title is None ==> shown.title == "Unknown"@
            &&& (m.artists matches Some(names) && names.len() > 0) ==> shown.artist
                == m.artists->0[0]
            &&& (m.artists is None || m.artists->0.len() == 0) ==> shown.artist
                == "Unknown Artist"@
            &&& m.album matches Some(a) ==> shown.album == a
            &&& m.album is None ==> shown.album == Seq::<char>::empty()
            &&& shown.art_url == m.art_url
            &&& shown.length == m.length
            &&& shown.position == reading.position
        }),
{
}

impl Default for MediaInfo {
    fn default() -> (info: MediaInfo)
        ensures
            info@ == idle_snapshot(),
    {
        MediaInfo::idle()
    }
}

impl Clone for MediaInfo {
    fn clone(&self) -> (copy: MediaInfo)
        ensures
            copy@ == self@,
    {
        MediaInfo {
            title: self.title.clone(),
            artist: self.artist.clone(),
            album: self.album.clone(),
            art_url: copy_opt_text(&self.art_url),
            status: self.status,
            position: self.position,
            length: self.length,
        }
    }
}

} // verus!
