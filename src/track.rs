//! Track identifiers and the protocol's textual enumerations.
use vstd::prelude::*;
use vstd::string::StringSliceAdditionalSpecFns;
use vstd::utf8::is_ascii_chars;

use crate::errors::{ErrorKind, Result};
use crate::text::{lowercase_of, same_text, to_lowercase};

verus! {

/// Whether `c` may appear inside an element of a bus object path.
pub open spec fn is_path_element_char(c: char) -> bool {
    ('0' <= c <= '9') || ('A' <= c <= 'Z') || ('a' <= c <= 'z') || c == '_'
}

/// The bus object-path grammar: a `/`, then elements of `[A-Za-z0-9_]`
/// separated by single slashes, with no trailing slash unless the path is `/`.
pub open spec fn is_object_path(s: Seq<char>) -> bool {
    &&& s.len() > 0
    &&& s[0] == '/'
    &&& forall|i: int| 0 < i < s.len() ==> s[i] == '/' || is_path_element_char(#[trigger] s[i])
    &&& forall|i: int| 0 <= i < s.len() - 1 && #[trigger] s[i] == '/' ==> s[i + 1] != '/'
    &&& s.len() > 1 ==> s[s.len() - 1] != '/'
}

/// Checks `s` against the bus object-path grammar.
pub fn is_valid_object_path(s: &str) -> (r: bool)
    ensures
        r == is_object_path(s@),
{
    if !s.is_ascii() {
        return false;
    }
    let b = s.as_bytes();
    proof {
        vstd::string::is_ascii_spec_bytes(s);
    }
    let n = b.len();
    assert(n == s@.len());
    if n == 0 || b[0] != 47u8 {
        return false;
    }
    let mut i: usize = 1;
    while i < n
        invariant
            n == b@.len(),
            n == s@.len(),
            1 <= i <= n,
            b@ == s.spec_bytes(),
            s.spec_bytes() =~= Seq::new(s@.len(), |k: int| s@[k] as u8),
            is_ascii_chars(s@),
            s@[0] == '/',
            forall|k: int| 0 < k < i ==> s@[k] == '/' || is_path_element_char(#[trigger] s@[k]),
            forall|k: int| 0 <= k < i - 1 && #[trigger] s@[k] == '/' ==> s@[k + 1] != '/',
        decreases n - i,
    {
        let c = b[i];
        if c == 47u8 {
            if b[i - 1] == 47u8 {
                return false;
            }
        } else if !((48u8 <= c && c <= 57u8) || (65u8 <= c && c <= 90u8) || (97u8 <= c && c
            <= 122u8) || c == 95u8) {
            return false;
        }
        i = i + 1;
    }
    if n > 1 && b[n - 1] == 47u8 {
        return false;
    }
    true
}

/// The reserved path that stands for "no track".
pub open spec fn no_track_path() -> Seq<char> {
    "/org/mpris/MediaPlayer2/TrackList/NoTrack"@
}

/// Whether `r` is the build error for `ty` made from `text`.
pub open spec fn is_build_error<T>(r: Result<T>, ty: Seq<char>, text: Seq<char>) -> bool {
    r matches Err(ErrorKind::TypeBuildError(t, x)) && t@ == ty && x@ == text
}

/// Unique track identifier: always a valid bus object path.
///
/// The path `/org/mpris/MediaPlayer2/TrackList/NoTrack` stands for "no track".
#[derive(Debug)]
pub struct TrackId {
    track_id: String,
}

impl View for TrackId {
    type V = Seq<char>;

    closed spec fn view(&self) -> Seq<char> {
        self.track_id@
    }
}

impl TrackId {
    #[verifier::type_invariant]
    closed spec fn inv(&self) -> bool {
        is_object_path(self.track_id@)
    }

    /// Creates a track id from its path; fails with a build error unless the
    /// text is a valid object path.
    pub fn from_str(track_id: &str) -> (r: Result<TrackId>)
        ensures
            r is Ok <==> is_object_path(track_id@),
            r matches Ok(t) ==> t@ == track_id@,
            r is Err ==> is_build_error(r, "TrackId"@, track_id@),
    {
        if is_valid_object_path(track_id) {
            Ok(TrackId { track_id: track_id.to_owned() })
        } else {
            Err(ErrorKind::TypeBuildError("TrackId", track_id.to_owned()))
        }
    }

    /// The path of this track id.
    pub fn as_str(&self) -> (r: &str)
        ensures
            r@ == self@,
            is_object_path(r@),
    {
        proof {
            use_type_invariant(self);
        }
        self.track_id.as_str()
    }

    /// Checks if this is no track.
    pub fn is_no_track(&self) -> (r: bool)
        ensures
            r == (self@ == no_track_path()),
    {
        same_text(self.track_id.as_str(), "/org/mpris/MediaPlayer2/TrackList/NoTrack")
    }
}

impl Clone for TrackId {
    fn clone(&self) -> (r: TrackId)
        ensures
            r@ == self@,
    {
        proof {
            use_type_invariant(self);
        }
        TrackId { track_id: self.track_id.clone() }
    }
}

impl PartialEq for TrackId {
    fn eq(&self, other: &TrackId) -> bool {
        self.track_id == other.track_id
    }
}

impl vstd::std_specs::cmp::PartialEqSpecImpl for TrackId {
    open spec fn obeys_eq_spec() -> bool {
        true
    }

    open spec fn eq_spec(&self, other: &TrackId) -> bool {
        self@ == other@
    }
}

/// A playback state.
#[derive(Debug, Clone, Copy, PartialEq, Eq, Structural)]
pub enum PlaybackStatus {
    /// A track is currently playing.
    Playing,
    /// A track is currently paused.
    Paused,
    /// There is no track currently playing.
    Stopped,
}

/// The playback state that a lower-case tag names, if any.
pub open spec fn playback_status_named(s: Seq<char>) -> Option<PlaybackStatus> {
    if s == "playing"@ {
        Some(PlaybackStatus::Playing)
    } else if s == "paused"@ {
        Some(PlaybackStatus::Paused)
    } else if s == "stopped"@ {
        Some(PlaybackStatus::Stopped)
    } else {
        None
    }
}

/// The tag that the protocol uses for a playback state.
pub open spec fn playback_status_tag(p: PlaybackStatus) -> Seq<char> {
    match p {
        PlaybackStatus::Playing => "Playing"@,
        PlaybackStatus::Paused => "Paused"@,
        PlaybackStatus::Stopped => "Stopped"@,
    }
}

impl PlaybackStatus {
    /// Reads an already lower-cased tag.
    pub fn from_lowercase(s: &str) -> (r: Option<PlaybackStatus>)
        ensures
            r == playback_status_named(s@),
    {
        if same_text(s, "playing") {
            Some(PlaybackStatus::Playing)
        } else if same_text(s, "paused") {
            Some(PlaybackStatus::Paused)
        } else if same_text(s, "stopped") {
            Some(PlaybackStatus::Stopped)
        } else {
            None
        }
    }

    /// Reads a tag in any letter case. The protocol's hints `forward-seek`,
    /// `reverse-seek` and `error` name no state and are refused like any
    /// other text.
    pub fn from_str(s: &str) -> (r: Result<PlaybackStatus>)
        ensures
            match playback_status_named(lowercase_of(s@)) {
                Some(p) => r == Ok::<PlaybackStatus, ErrorKind>(p),
                None => is_build_error(r, "PlaybackStatus"@, s@),
            },
    {
        let lower = to_lowercase(s);
        match PlaybackStatus::from_lowercase(lower.as_str()) {
            Some(p) => Ok(p),
            None => Err(ErrorKind::TypeBuildError("PlaybackStatus", s.to_owned())),
        }
    }

    /// The tag that the protocol uses for this state.
    pub fn as_str(&self) -> (r: &'static str)
        ensures
            r@ == playback_status_tag(*self),
    {
        match self {
            PlaybackStatus::Playing => "Playing",
            PlaybackStatus::Paused => "Paused",
            PlaybackStatus::Stopped => "Stopped",
        }
    }
}

/// A repeat / loop status.
#[derive(Debug, Clone, PartialEq, Eq, Structural)]
pub enum LoopStatus {
    /// The playback will stop when there are no more tracks to play (tag `None`).
    NoLoop,
    /// The current track will start again from the beginning once it has finished playing.
    Track,
    /// The playback loops through a list of tracks.
    Playlist,
}

/// The loop status that a lower-case tag names, if any.
pub open spec fn loop_status_named(s: Seq<char>) -> Option<LoopStatus> {
    if s == "none"@ {
        Some(LoopStatus::NoLoop)
    } else if s == "track"@ {
        Some(LoopStatus::Track)
    } else if s == "playlist"@ {
        Some(LoopStatus::Playlist)
    } else {
        None
    }
}

/// The tag that the protocol uses for a loop status.
pub open spec fn loop_status_tag(l: LoopStatus) -> Seq<char> {
    match l {
        LoopStatus::NoLoop => "None"@,
        LoopStatus::Track => "Track"@,
        LoopStatus::Playlist => "Playlist"@,
    }
}

impl LoopStatus {
    /// Reads an already lower-cased tag.
    pub fn from_lowercase(s: &str) -> (r: Option<LoopStatus>)
        ensures
            r == loop_status_named(s@),
    {
        if same_text(s, "none") {
            Some(LoopStatus::NoLoop)
        } else if same_text(s, "track") {
            Some(LoopStatus::Track)
        } else if same_text(s, "playlist") {
            Some(LoopStatus::Playlist)
        } else {
            None
        }
    }

    /// Reads a tag in any letter case.
    pub fn from_str(s: &str) -> (r: Result<LoopStatus>)
        ensures
            match loop_status_named(lowercase_of(s@)) {
                Some(l) => r == Ok::<LoopStatus, ErrorKind>(l),
                None => is_build_error(r, "LoopStatus"@, s@),
            },
    {
        let lower = to_lowercase(s);
        match LoopStatus::from_lowercase(lower.as_str()) {
            Some(l) => Ok(l),
            None => Err(ErrorKind::TypeBuildError("LoopStatus", s.to_owned())),
        }
    }

    /// The tag that the protocol uses for this status.
    pub fn as_str(&self) -> (r: &'static str)
        ensures
            r@ == loop_status_tag(*self),
    {
        match self {
            LoopStatus::NoLoop => "None",
            LoopStatus::Track => "Track",
            LoopStatus::Playlist => "Playlist",
        }
    }
}

impl AsRef<str> for TrackId {
    fn as_ref(&self) -> &str {
        self.track_id.as_str()
    }
}

impl std::str::FromStr for TrackId {
    type Err = ErrorKind;

    fn from_str(s: &str) -> Result<TrackId> {
        TrackId::from_str(s)
    }
}

impl std::str::FromStr for PlaybackStatus {
    type Err = ErrorKind;

    fn from_str(s: &str) -> Result<PlaybackStatus> {
        PlaybackStatus::from_str(s)
    }
}

impl std::str::FromStr for LoopStatus {
    type Err = ErrorKind;

    fn from_str(s: &str) -> Result<LoopStatus> {
        LoopStatus::from_str(s)
    }
}

} // verus!
