//! A typed, read-only view of one track's metadata.
use vstd::prelude::*;

use crate::errors::{ErrorKind, Result};
use crate::track::{is_build_error, is_object_path, TrackId};
use crate::value::{
    cast_error, double_of, is_cast_error, string_list_of, string_of, text_of, unsigned_of,
    WireValue,
};
use vstd::std_specs::cmp::PartialEqSpec;

verus! {

/// The value that a named map holds under `key`: a later entry shadows an
/// earlier one with the same key.
pub open spec fn lookup(entries: Seq<(String, WireValue)>, key: Seq<char>) -> Option<WireValue>
    decreases entries.len(),
{
    if entries.len() == 0 {
        None
    } else if entries.last().0@ == key {
        Some(entries.last().1)
    } else {
        lookup(entries.drop_last(), key)
    }
}

/// Finds the value that `entries` holds under `key`.
pub fn find<'a>(entries: &'a Vec<(String, WireValue)>, key: &str) -> (r: Option<&'a WireValue>)
    ensures
        match r {
            Some(v) => lookup(entries@, key@) == Some(*v),
            None => lookup(entries@, key@) is None,
        },
{
    let wanted = key.to_owned();
    let mut i: usize = entries.len();
    assert(entries@.subrange(0, i as int) =~= entries@);
    while i > 0
        invariant
            i <= entries@.len(),
            wanted@ == key@,
            lookup(entries@, key@) == lookup(entries@.subrange(0, i as int), key@),
        decreases i,
    {
        let ghost prefix = entries@.subrange(0, i as int);
        if entries[i - 1].0 == wanted {
            assert(prefix.last() == entries@[i - 1]);
            return Some(&entries[i - 1].1);
        }
        assert(prefix.drop_last() =~= entries@.subrange(0, i - 1));
        i = i - 1;
    }
    None
}

/// A point in time with the offset from UTC it was written in.
#[derive(Debug, Clone, Copy, PartialEq, Eq, Structural)]
pub struct Timestamp {
    /// Whole seconds since 1970-01-01T00:00:00Z.
    pub seconds: i64,
    /// Nanoseconds past `seconds`.
    pub nanoseconds: u32,
    /// The offset of the written local time from UTC, in seconds.
    pub offset_seconds: i32,
}

/// What chrono's RFC 3339 parser reads from a text: seconds since the epoch,
/// nanoseconds and UTC offset in seconds, or nothing when the text is not an
/// RFC 3339 date and time.
pub uninterp spec fn rfc3339_instant(s: Seq<char>) -> Option<(i64, u32, i32)>;

/// The timestamp that an RFC 3339 text denotes.
pub open spec fn timestamp_of(s: Seq<char>) -> Option<Timestamp> {
    match rfc3339_instant(s) {
        Some(p) => Some(Timestamp { seconds: p.0, nanoseconds: p.1, offset_seconds: p.2 }),
        None => None,
    }
}

/// Relies on chrono's `DateTime::parse_from_rfc3339`, with the instant read
/// back through `timestamp`, `timestamp_subsec_nanos` and the offset's
/// `local_minus_utc`: the result depends on the text alone.
#[verifier::external_body]
fn parse_rfc3339(s: &str) -> (r: Option<(i64, u32, i32)>)
    ensures
        r == rfc3339_instant(s@),
{
    match chrono::DateTime::parse_from_rfc3339(s) {
        Ok(t) => Some((t.timestamp(), t.timestamp_subsec_nanos(), t.offset().local_minus_utc())),
        Err(_) => None,
    }
}

impl Timestamp {
    /// Reads an RFC 3339 date and time.
    pub fn from_rfc3339(s: &str) -> (r: Option<Timestamp>)
        ensures
            r == timestamp_of(s@),
    {
        match parse_rfc3339(s) {
            Some(p) => Some(Timestamp { seconds: p.0, nanoseconds: p.1, offset_seconds: p.2 }),
            None => None,
        }
    }
}

/// A plain string field.
pub open spec fn field_string(f: Option<WireValue>) -> Option<String> {
    match f {
        Some(v) => string_of(v),
        None => None,
    }
}

/// A list-of-strings field.
pub open spec fn field_list(f: Option<WireValue>) -> Option<Seq<String>> {
    match f {
        Some(v) => string_list_of(v),
        None => None,
    }
}

/// A double field, as its bit pattern.
pub open spec fn field_double(f: Option<WireValue>) -> Option<u64> {
    match f {
        Some(v) => double_of(v),
        None => None,
    }
}

/// A counter field: an unsigned value cut to its low 32 bits.
pub open spec fn field_u32(f: Option<WireValue>) -> Option<u32> {
    match f {
        Some(v) => match unsigned_of(v) {
            Some(n) => Some((n % 0x1_0000_0000) as u32),
            None => None,
        },
        None => None,
    }
}

/// A date field: a plain string in RFC 3339 form.
pub open spec fn field_timestamp(f: Option<WireValue>) -> Option<Timestamp> {
    match f {
        Some(v) => match string_of(v) {
            Some(s) => timestamp_of(s@),
            None => None,
        },
        None => None,
    }
}

/// The contents of an optional list of strings.
pub open spec fn list_view(r: Option<Vec<String>>) -> Option<Seq<String>> {
    match r {
        Some(l) => Some(l@),
        None => None,
    }
}

/// What building metadata from `raw` gives: the track id is mandatory and
/// must be string-shaped and a valid object path; nothing else is checked.
pub open spec fn built_from(raw: Seq<(String, WireValue)>, r: Result<MetadataMap>) -> bool {
    match lookup(raw, "mpris:trackid"@) {
        None => r matches Err(ErrorKind::GeneralError(_)),
        Some(v) => match text_of(v) {
            None => is_cast_error(r, v, "&str"@),
            Some(t) => if is_object_path(t) {
                r matches Ok(m) && m.spec_trackid() == t && m.entries() == raw
            } else {
                is_build_error(r, "TrackId"@, t)
            },
        },
    }
}

/// The metadata of a track: a mandatory track id and a snapshot of the named
/// map of wire values it was built from.
#[derive(Debug)]
pub struct MetadataMap {
    trackid: TrackId,
    raw_map: Vec<(String, WireValue)>,
}

impl MetadataMap {
    #[verifier::type_invariant]
    closed spec fn inv(&self) -> bool {
        lookup(self.raw_map@, "mpris:trackid"@) matches Some(v) && text_of(v) == Some(
            self.trackid@,
        )
    }

    /// The path of the track id.
    pub closed spec fn spec_trackid(&self) -> Seq<char> {
        self.trackid@
    }

    /// The named map, in the order its entries were given.
    pub closed spec fn entries(&self) -> Seq<(String, WireValue)> {
        self.raw_map@
    }

    /// The value held under `key`.
    pub open spec fn field(&self, key: Seq<char>) -> Option<WireValue> {
        lookup(self.entries(), key)
    }

    /// Creates a `MetadataMap` from a map of names and values. Fails when
    /// `mpris:trackid` is absent, not string-shaped, or not an object path.
    pub fn from_map(raw_map: Vec<(String, WireValue)>) -> (r: Result<MetadataMap>)
        ensures
            built_from(raw_map@, r),
    {
        let trackid = match find(&raw_map, "mpris:trackid") {
            Some(v) => match v.as_str() {
                Some(s) => match TrackId::from_str(s) {
                    Ok(t) => t,
                    Err(e) => return Err(e),
                },
                None => return Err(cast_error(v, "&str")),
            },
            None => {
                return Err(
                    ErrorKind::GeneralError(
                        "Mandatory 'mpris:trackid' is not present. Could not construct MetadataMap.".to_owned(),
                    ),
                )
            },
        };
        Ok(MetadataMap { trackid, raw_map })
    }

    /// A unique identity for this track within the context of an MPRIS object.
    pub fn trackid(&self) -> (r: &TrackId)
        ensures
            r@ == self.spec_trackid(),
            self.field("mpris:trackid"@) matches Some(v) && text_of(v) == Some(r@),
    {
        proof {
            use_type_invariant(self);
        }
        &self.trackid
    }

    fn get_string(&self, key: &str) -> (r: Option<String>)
        ensures
            r == field_string(self.field(key@)),
    {
        match find(&self.raw_map, key) {
            Some(v) => v.as_string(),
            None => None,
        }
    }

    fn get_list(&self, key: &str) -> (r: Option<Vec<String>>)
        ensures
            list_view(r) == field_list(self.field(key@)),
    {
        match find(&self.raw_map, key) {
            Some(v) => v.as_string_list(),
            None => None,
        }
    }

    fn get_double(&self, key: &str) -> (r: Option<u64>)
        ensures
            r == field_double(self.field(key@)),
    {
        match find(&self.raw_map, key) {
            Some(v) => v.as_double_bits(),
            None => None,
        }
    }

    fn get_u32(&self, key: &str) -> (r: Option<u32>)
        ensures
            r == field_u32(self.field(key@)),
    {
        match find(&self.raw_map, key) {
            Some(v) => match v.as_u64() {
                Some(n) => Some((n % 0x1_0000_0000) as u32),
                None => None,
            },
            None => None,
        }
    }

    fn get_timestamp(&self, key: &str) -> (r: Option<Timestamp>)
        ensures
            r == field_timestamp(self.field(key@)),
    {
        match find(&self.raw_map, key) {
            Some(v) => match v.as_string() {
                Some(s) => Timestamp::from_rfc3339(s.as_str()),
                None => None,
            },
            None => None,
        }
    }

    /// The duration of the track in microseconds, as the bit pattern of a double.
    pub fn length(&self) -> (r: Option<u64>)
        ensures
            r == field_double(self.field("mpris:length"@)),
    {
        self.get_double("mpris:length")
    }

    /// The location of an image representing the track or album.
    pub fn art_url(&self) -> (r: Option<String>)
        ensures
            r == field_string(self.field("mpris:artUrl"@)),
    {
        self.get_string("mpris:artUrl")
    }

    /// The album name.
    pub fn album(&self) -> (r: Option<String>)
        ensures
            r == field_string(self.field("xesam:album"@)),
    {
        self.get_string("xesam:album")
    }

    /// The album artist(s).
    pub fn album_artist(&self) -> (r: Option<Vec<String>>)
        ensures
            list_view(r) == field_list(self.field("xesam:albumArtist"@)),
    {
        self.get_list("xesam:albumArtist")
    }

    /// The track artist(s).
    pub fn artist(&self) -> (r: Option<Vec<String>>)
        ensures
            list_view(r) == field_list(self.field("xesam:artist"@)),
    {
        self.get_list("xesam:artist")
    }

    /// The track lyrics.
    pub fn as_text(&self) -> (r: Option<String>)
        ensures
            r == field_string(self.field("xesam:asText"@)),
    {
        self.get_string("xesam:asText")
    }

    /// The speed of the music, in beats per minute.
    pub fn audio_bpm(&self) -> (r: Option<u32>)
        ensures
            r == field_u32(self.field("xesam:audioBPM"@)),
    {
        self.get_u32("xesam:audioBPM")
    }

    /// An automatically-generated rating in the range 0.0 to 1.0, as the bit pattern of a double.
    pub fn auto_rating(&self) -> (r: Option<u64>)
        ensures
            r == field_double(self.field("xesam:autoRating"@)),
    {
        self.get_double("xesam:autoRating")
    }

    /// A (list of) freeform comment(s).
    pub fn comment(&self) -> (r: Option<Vec<String>>)
        ensures
            list_view(r) == field_list(self.field("xesam:comment"@)),
    {
        self.get_list("xesam:comment")
    }

    /// The composer(s) of the track.
    pub fn composer(&self) -> (r: Option<Vec<String>>)
        ensures
            list_view(r) == field_list(self.field("xesam:composer"@)),
    {
        self.get_list("xesam:composer")
    }

    /// When the track was created. Usually only the year component will be useful.
    pub fn content_created(&self) -> (r: Option<Timestamp>)
        ensures
            r == field_timestamp(self.field("xesam:contentCreated"@)),
    {
        self.get_timestamp("xesam:contentCreated")
    }

    /// The disc number on the album that this track is from.
    pub fn disc_number(&self) -> (r: Option<u32>)
        ensures
            r == field_u32(self.field("xesam:discNumber"@)),
    {
        self.get_u32("xesam:discNumber")
    }

    /// When the track was first played.
    pub fn first_used(&self) -> (r: Option<Timestamp>)
        ensures
            r == field_timestamp(self.field("xesam:firstUsed"@)),
    {
        self.get_timestamp("xesam:firstUsed")
    }

    /// The genre(s) of the track.
    pub fn genre(&self) -> (r: Option<Vec<String>>)
        ensures
            list_view(r) == field_list(self.field("xesam:genre"@)),
    {
        self.get_list("xesam:genre")
    }

    /// When the track was last played.
    pub fn last_used(&self) -> (r: Option<Timestamp>)
        ensures
            r == field_timestamp(self.field("xesam:lastUsed"@)),
    {
        self.get_timestamp("xesam:lastUsed")
    }

    /// The lyricist(s) of the track.
    pub fn lyricist(&self) -> (r: Option<Vec<String>>)
        ensures
            list_view(r) == field_list(self.field("xesam:lyricist"@)),
    {
        self.get_list("xesam:lyricist")
    }

    /// The track title.
    pub fn title(&self) -> (r: Option<String>)
        ensures
            r == field_string(self.field("xesam:title"@)),
    {
        self.get_string("xesam:title")
    }

    /// The track number on the album disc.
    pub fn track_number(&self) -> (r: Option<u32>)
        ensures
            r == field_u32(self.field("xesam:trackNumber"@)),
    {
        self.get_u32("xesam:trackNumber")
    }

    /// The location of the media file.
    pub fn url(&self) -> (r: Option<String>)
        ensures
            r == field_string(self.field("xesam:url"@)),
    {
        self.get_string("xesam:url")
    }

    /// The number of times the track has been played.
    pub fn user_count(&self) -> (r: Option<u32>)
        ensures
            r == field_u32(self.field("xesam:userCount"@)),
    {
        self.get_u32("xesam:userCount")
    }

    /// A user-specified rating in the range 0.0 to 1.0, as the bit pattern of a double.
    pub fn user_rating(&self) -> (r: Option<u64>)
        ensures
            r == field_double(self.field("xesam:userRating"@)),
    {
        self.get_double("xesam:userRating")
    }
}

/// Building metadata fails exactly when the track id is missing or is not
/// string-shaped, for every map whose string-shaped track id is an object path.
pub proof fn lemma_from_map_fails_iff_trackid_unusable(
    raw: Seq<(String, WireValue)>,
    r: Result<MetadataMap>,
)
    requires
        built_from(raw, r),
        match lookup(raw, "mpris:trackid"@) {
            Some(v) => match text_of(v) {
                Some(t) => is_object_path(t),
                None => true,
            },
            None => true,
        },
    ensures
        r is Err <==> (lookup(raw, "mpris:trackid"@) is None || text_of(
            lookup(raw, "mpris:trackid"@)->0,
        ) is None),
{
}

impl PartialEq for MetadataMap {
    fn eq(&self, other: &MetadataMap) -> bool {
        self.trackid == other.trackid
    }
}

impl vstd::std_specs::cmp::PartialEqSpecImpl for MetadataMap {
    open spec fn obeys_eq_spec() -> bool {
        true
    }

    open spec fn eq_spec(&self, other: &MetadataMap) -> bool {
        self.spec_trackid() == other.spec_trackid()
    }
}

/// Equality of metadata is an equivalence relation that compares the track
/// ids alone: two maps with the same track id are equal whatever else they
/// hold.
pub proof fn lemma_metadata_eq_compares_trackid(a: MetadataMap, b: MetadataMap, c: MetadataMap)
    ensures
        a.eq_spec(&a),
        a.eq_spec(&b) == b.eq_spec(&a),
        a.eq_spec(&b) && b.eq_spec(&c) ==> a.eq_spec(&c),
        a.eq_spec(&b) <==> a.spec_trackid() == b.spec_trackid(),
{
}

} // verus!
