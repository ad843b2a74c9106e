//! Plain-value snapshots of the platform's media-session state, as the dump
//! reads them: every field the printers render, and nothing else. The
//! surrounding binary fills these in from the host API; a field group whose
//! fetch failed is handed over as absent and its printer is skipped without
//! disturbing the others.

use crate::enums::InvalidEnumValue;
use vstd::prelude::*;

verus! {

/// What the dump reads of a thumbnail: the declared content type and byte
/// size of its opened stream. The bytes themselves are never consumed.
#[derive(Debug)]
pub struct ThumbnailSnapshot {
    pub content_type: String,
    pub size: u64,
}

/// The media-properties snapshot: metadata of the current track.
#[derive(Debug)]
pub struct MediaPropertiesSnapshot {
    pub album_artist: String,
    pub album_title: String,
    pub album_track_count: i32,
    pub artist: String,
    pub genres: Vec<String>,
    /// Raw playback-type integer as the platform reports it.
    pub playback_type: i32,
    pub subtitle: String,
    pub thumbnail: ThumbnailSnapshot,
    pub title: String,
    pub track_number: i32,
}

/// The fifteen transport-control capability flags; none is optional.
#[derive(Clone, Copy, Debug, PartialEq, Eq, Structural)]
pub struct PlaybackControlsSnapshot {
    pub is_channel_down_enabled: bool,
    pub is_channel_up_enabled: bool,
    pub is_fast_forward_enabled: bool,
    pub is_next_enabled: bool,
    pub is_pause_enabled: bool,
    pub is_playback_position_enabled: bool,
    pub is_playback_rate_enabled: bool,
    pub is_play_enabled: bool,
    pub is_play_pause_toggle_enabled: bool,
    pub is_previous_enabled: bool,
    pub is_record_enabled: bool,
    pub is_repeat_enabled: bool,
    pub is_rewind_enabled: bool,
    pub is_shuffle_enabled: bool,
    pub is_stop_enabled: bool,
}

/// The playback-info snapshot. Each field is read independently from the
/// platform and may be absent; an absent field suppresses only its own line.
/// The playback rate is held as a signed count of hundredths, matching the
/// two-decimal-place rendering.
#[derive(Clone, Copy, Debug)]
pub struct PlaybackInfoSnapshot {
    pub auto_repeat_mode: Option<i32>,
    pub controls: Option<PlaybackControlsSnapshot>,
    pub is_shuffle_active: Option<bool>,
    pub playback_rate_hundredths: Option<i64>,
    pub playback_status: Option<i32>,
    pub playback_type: Option<i32>,
}

/// The timeline snapshot: the four seek and extent durations and the current
/// position as nanosecond counts, and the last-updated timestamp as the
/// platform's raw absolute-time integer.
#[derive(Clone, Copy, Debug)]
pub struct TimelineSnapshot {
    pub start_time_nanos: u128,
    pub end_time_nanos: u128,
    pub max_seek_time_nanos: u128,
    pub min_seek_time_nanos: u128,
    pub position_nanos: u128,
    pub last_updated_time: i64,
}

/// Everything one run of the dump reads of the current session. An absent
/// snapshot stands for a fetch that failed or is unsupported; its printer is
/// skipped while the others still run.
#[derive(Debug)]
pub struct SessionSnapshot {
    pub app_user_model_id: String,
    pub media: Option<MediaPropertiesSnapshot>,
    pub playback: Option<PlaybackInfoSnapshot>,
    pub timeline: Option<TimelineSnapshot>,
}

/// Why a whole dump fails: no current session at all, or an enumeration
/// integer outside its known domain.
#[derive(Clone, Copy, Debug, PartialEq, Eq, Structural)]
pub enum DumpError {
    NoCurrentSession,
    InvalidEnum(InvalidEnumValue),
}

/// The media snapshot's playback-type integer lies in its known domain.
pub open spec fn media_valid(m: MediaPropertiesSnapshot) -> bool {
    0 <= m.playback_type <= 3
}

/// Every enumeration integer the playback-info snapshot carries lies in its
/// known domain.
pub open spec fn playback_info_valid(p: PlaybackInfoSnapshot) -> bool {
    &&& (p.auto_repeat_mode matches Some(v) ==> 0 <= v <= 2)
    &&& (p.playback_status matches Some(v) ==> 0 <= v <= 5)
    &&& (p.playback_type matches Some(v) ==> 0 <= v <= 3)
}

/// Every enumeration integer anywhere in the session snapshot lies in its
/// known domain.
pub open spec fn session_valid(s: SessionSnapshot) -> bool {
    &&& (s.media matches Some(m) ==> media_valid(m))
    &&& (s.playback matches Some(p) ==> playback_info_valid(p))
}

} // verus!
