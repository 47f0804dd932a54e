//! Enumerations and small records shared by requests and replies.
use vstd::prelude::*;

verus! {

/// How the queue repeats. On the wire it is the integer of `to_i8`.
#[derive(Debug, Clone, Copy, PartialEq, Eq, Structural)]
pub enum RepeatMode {
    Unknown,
    Off,
    All,
    One,
}

/// The wire integer of each repeat mode.
pub open spec fn repeat_mode_code(m: RepeatMode) -> int {
    match m {
        RepeatMode::Unknown => -1,
        RepeatMode::Off => 0,
        RepeatMode::All => 1,
        RepeatMode::One => 2,
    }
}

impl RepeatMode {
    /// The wire integer of this mode.
    pub fn to_i8(&self) -> (v: i8)
        ensures
            v == repeat_mode_code(*self),
            *self == RepeatMode::Unknown ==> v == -1,
            *self == RepeatMode::Off ==> v == 0,
            *self == RepeatMode::All ==> v == 1,
            *self == RepeatMode::One ==> v == 2,
    {
        match self {
            RepeatMode::Unknown => -1,
            RepeatMode::Off => 0,
            RepeatMode::All => 1,
            RepeatMode::One => 2,
        }
    }

    /// The mode that a wire integer stands for, if any.
    pub fn from_i8(v: i8) -> (m: Option<RepeatMode>)
        ensures
            m matches Some(mode) ==> repeat_mode_code(mode) == v,
            m is None <==> !(-1 <= v <= 2),
            v == -1 ==> m == Some(RepeatMode::Unknown),
            v == 0 ==> m == Some(RepeatMode::Off),
            v == 1 ==> m == Some(RepeatMode::All),
            v == 2 ==> m == Some(RepeatMode::One),
    {
        if v == -1 {
            Some(RepeatMode::Unknown)
        } else if v == 0 {
            Some(RepeatMode::Off)
        } else if v == 1 {
            Some(RepeatMode::All)
        } else if v == 2 {
            Some(RepeatMode::One)
        } else {
            None
        }
    }
}

impl Default for RepeatMode {
    /// Repeating is off unless the server says otherwise.
    fn default() -> (m: Self)
        ensures
            m == RepeatMode::Off,
    {
        RepeatMode::Off
    }
}

/// Whether the player plays. On the wire it is the integer of `to_i8`.
#[derive(Debug, Clone, Copy, PartialEq, Eq, Structural)]
pub enum TrackState {
    Unknown,
    Paused,
    Playing,
    Buffering,
}

/// The wire integer of each track state.
pub open spec fn track_state_code(s: TrackState) -> int {
    match s {
        TrackState::Unknown => -1,
        TrackState::Paused => 0,
        TrackState::Playing => 1,
        TrackState::Buffering => 2,
    }
}

impl TrackState {
    /// The wire integer of this state.
    pub fn to_i8(&self) -> (v: i8)
        ensures
            v == track_state_code(*self),
            *self == TrackState::Unknown ==> v == -1,
            *self == TrackState::Paused ==> v == 0,
            *self == TrackState::Playing ==> v == 1,
            *self == TrackState::Buffering ==> v == 2,
    {
        match self {
            TrackState::Unknown => -1,
            TrackState::Paused => 0,
            TrackState::Playing => 1,
            TrackState::Buffering => 2,
        }
    }

    /// The state that a wire integer stands for, if any.
    pub fn from_i8(v: i8) -> (s: Option<TrackState>)
        ensures
            s matches Some(st) ==> track_state_code(st) == v,
            s is None <==> !(-1 <= v <= 2),
            v == -1 ==> s == Some(TrackState::Unknown),
            v == 0 ==> s == Some(TrackState::Paused),
            v == 1 ==> s == Some(TrackState::Playing),
            v == 2 ==> s == Some(TrackState::Buffering),
    {
        if v == -1 {
            Some(TrackState::Unknown)
        } else if v == 0 {
            Some(TrackState::Paused)
        } else if v == 1 {
            Some(TrackState::Playing)
        } else if v == 2 {
            Some(TrackState::Buffering)
        } else {
            None
        }
    }
}

impl Default for TrackState {
    /// A player is taken as paused until the server says otherwise.
    fn default() -> (s: Self)
        ensures
            s == TrackState::Paused,
    {
        TrackState::Paused
    }
}

/// The user's rating of a video. On the wire it is the integer of `to_i8`.
#[derive(Debug, Clone, Copy, PartialEq, Eq, Structural)]
pub enum LikeStatus {
    Unknown,
    Displike,
    Indifferent,
    Like,
}

/// The wire integer of each like status.
pub open spec fn like_status_code(s: LikeStatus) -> int {
    match s {
        LikeStatus::Unknown => -1,
        LikeStatus::Displike => 0,
        LikeStatus::Indifferent => 1,
        LikeStatus::Like => 2,
    }
}

impl LikeStatus {
    /// The wire integer of this status.
    pub fn to_i8(&self) -> (v: i8)
        ensures
            v == like_status_code(*self),
            *self == LikeStatus::Unknown ==> v == -1,
            *self == LikeStatus::Displike ==> v == 0,
            *self == LikeStatus::Indifferent ==> v == 1,
            *self == LikeStatus::Like ==> v == 2,
    {
        match self {
            LikeStatus::Unknown => -1,
            LikeStatus::Displike => 0,
            LikeStatus::Indifferent => 1,
            LikeStatus::Like => 2,
        }
    }

    /// The status that a wire integer stands for, if any.
    pub fn from_i8(v: i8) -> (s: Option<LikeStatus>)
        ensures
            s matches Some(st) ==> like_status_code(st) == v,
            s is None <==> !(-1 <= v <= 2),
            v == -1 ==> s == Some(LikeStatus::Unknown),
            v == 0 ==> s == Some(LikeStatus::Displike),
            v == 1 ==> s == Some(LikeStatus::Indifferent),
            v == 2 ==> s == Some(LikeStatus::Like),
    {
        if v == -1 {
            Some(LikeStatus::Unknown)
        } else if v == 0 {
            Some(LikeStatus::Displike)
        } else if v == 1 {
            Some(LikeStatus::Indifferent)
        } else if v == 2 {
            Some(LikeStatus::Like)
        } else {
            None
        }
    }
}

impl Default for LikeStatus {
    /// A video is unrated until the server says otherwise.
    fn default() -> (s: Self)
        ensures
            s == LikeStatus::Indifferent,
    {
        LikeStatus::Indifferent
    }
}

/// The kind of a video. On the wire it is the integer of `to_i8`.
#[derive(Debug, Clone, Copy, PartialEq, Eq, Structural)]
pub enum VideoType {
    Unknown,
    Audio,
    Video,
    Uploaded,
    Podcast,
}

/// The wire integer of each video type.
pub open spec fn video_type_code(t: VideoType) -> int {
    match t {
        VideoType::Unknown => -1,
        VideoType::Audio => 0,
        VideoType::Video => 1,
        VideoType::Uploaded => 2,
        VideoType::Podcast => 3,
    }
}

impl VideoType {
    /// The wire integer of this type.
    pub fn to_i8(&self) -> (v: i8)
        ensures
            v == video_type_code(*self),
            *self == VideoType::Unknown ==> v == -1,
            *self == VideoType::Audio ==> v == 0,
            *self == VideoType::Video ==> v == 1,
            *self == VideoType::Uploaded ==> v == 2,
            *self == VideoType::Podcast ==> v == 3,
    {
        match self {
            VideoType::Unknown => -1,
            VideoType::Audio => 0,
            VideoType::Video => 1,
            VideoType::Uploaded => 2,
            VideoType::Podcast => 3,
        }
    }

    /// The type that a wire integer stands for, if any.
    pub fn from_i8(v: i8) -> (t: Option<VideoType>)
        ensures
            t matches Some(ty) ==> video_type_code(ty) == v,
            t is None <==> !(-1 <= v <= 3),
            v == -1 ==> t == Some(VideoType::Unknown),
            v == 0 ==> t == Some(VideoType::Audio),
            v == 1 ==> t == Some(VideoType::Video),
            v == 2 ==> t == Some(VideoType::Uploaded),
            v == 3 ==> t == Some(VideoType::Podcast),
    {
        if v == -1 {
            Some(VideoType::Unknown)
        } else if v == 0 {
            Some(VideoType::Audio)
        } else if v == 1 {
            Some(VideoType::Video)
        } else if v == 2 {
            Some(VideoType::Uploaded)
        } else if v == 3 {
            Some(VideoType::Podcast)
        } else {
            None
        }
    }
}

/// The wire integers are those of the companion API: repeat mode
/// unknown -1, none 0, all 1, one 2; track state unknown -1, paused 0,
/// playing 1, buffering 2; like status unknown -1, dislike 0, indifferent 1,
/// like 2; video type unknown -1, audio 0, video 1, uploaded 2, podcast 3.
pub proof fn lemma_wire_code_values()
    ensures
        repeat_mode_code(RepeatMode::Unknown) == -1,
        repeat_mode_code(RepeatMode::Off) == 0,
        repeat_mode_code(RepeatMode::All) == 1,
        repeat_mode_code(RepeatMode::One) == 2,
        track_state_code(TrackState::Unknown) == -1,
        track_state_code(TrackState::Paused) == 0,
        track_state_code(TrackState::Playing) == 1,
        track_state_code(TrackState::Buffering) == 2,
        like_status_code(LikeStatus::Unknown) == -1,
        like_status_code(LikeStatus::Displike) == 0,
        like_status_code(LikeStatus::Indifferent) == 1,
        like_status_code(LikeStatus::Like) == 2,
        video_type_code(VideoType::Unknown) == -1,
        video_type_code(VideoType::Audio) == 0,
        video_type_code(VideoType::Video) == 1,
        video_type_code(VideoType::Uploaded) == 2,
        video_type_code(VideoType::Podcast) == 3,
{
}

/// The wire integers of each enumeration name their values one for one:
/// reading back the integer of a value gives that value.
pub proof fn lemma_wire_codes_roundtrip(r: RepeatMode, t: TrackState, l: LikeStatus, v: VideoType)
    ensures
        forall|m: RepeatMode| repeat_mode_code(m) == repeat_mode_code(r) ==> m == r,
        forall|s: TrackState| track_state_code(s) == track_state_code(t) ==> s == t,
        forall|s: LikeStatus| like_status_code(s) == like_status_code(l) ==> s == l,
        forall|s: VideoType| video_type_code(s) == video_type_code(v) ==> s == v,
{
}

/// A picture of a video at one size.
#[derive(Debug, Clone)]
pub struct Thumbnail {
    pub url: String,
    pub width: u32,
    pub height: u32,
}

} // verus!
