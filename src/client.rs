//! Decoding of property-change notifications and of the signals a player
//! emits.
use vstd::prelude::*;

use crate::errors::{ErrorKind, Result};
use crate::metadata::{built_from, lookup, MetadataMap};
use crate::text::{lowercase_of, same_text};
use crate::track::{
    is_build_error, is_object_path, loop_status_named, playback_status_named, LoopStatus,
    PlaybackStatus,
};
use crate::value::{
    bool_of, cast_error, debug_text, debug_text_of, double_of, int64_of, is_cast_error,
    string_list_of, string_of, text_of, variant_dict_of, WireValue,
};

verus! {

/// A property whose new value arrived in a change notification, already
/// decoded. Doubles are held as their IEEE-754 bit patterns.
#[derive(Debug, PartialEq)]
pub enum ChangedProperty {
    // root properties
    CanQuit(bool),
    Fullscreen(bool),
    CanSetFullscreen(bool),
    CanRaise(bool),
    HasTrackList(bool),
    Identity(String),
    DesktopEntry(String),
    SupportedUriSchemes(Vec<String>),
    SupportedMimeTypes(Vec<String>),
    // player properties
    PlaybackStatus(PlaybackStatus),
    LoopStatus(LoopStatus),
    Rate(u64),
    Shuffle(bool),
    Metadata(MetadataMap),
    Volume(u64),
    MinimumRate(u64),
    MaximumRate(u64),
    CanGoNext(bool),
    CanGoPrevious(bool),
    CanPlay(bool),
    CanPause(bool),
    CanSeek(bool),
    // track list properties
    Tracks,
    CanEditTracks(bool),
    /// A property this library does not model, with the rendering of its value.
    Other(String),
}

/// A boolean property decoded with `make`.
pub open spec fn bool_change(
    v: WireValue,
    r: Result<ChangedProperty>,
    make: spec_fn(bool) -> ChangedProperty,
) -> bool {
    match bool_of(v) {
        Some(b) => r == Ok::<ChangedProperty, ErrorKind>(make(b)),
        None => is_cast_error(r, v, "bool"@),
    }
}

/// A double property decoded with `make`.
pub open spec fn double_change(
    v: WireValue,
    r: Result<ChangedProperty>,
    make: spec_fn(u64) -> ChangedProperty,
) -> bool {
    match double_of(v) {
        Some(d) => r == Ok::<ChangedProperty, ErrorKind>(make(d)),
        None => is_cast_error(r, v, "f64"@),
    }
}

/// Whether metadata can be built from `entries`.
pub open spec fn metadata_builds(entries: Seq<(String, WireValue)>) -> bool {
    lookup(entries, "mpris:trackid"@) matches Some(x) && text_of(x) matches Some(t)
        && is_object_path(t)
}

/// What decoding the property `name` with value `v` gives.
pub open spec fn decodes_to(name: Seq<char>, v: WireValue, r: Result<ChangedProperty>) -> bool {
    if name == "CanQuit"@ {
        bool_change(v, r, |b: bool| ChangedProperty::CanQuit(b))
    } else if name == "Fullscreen"@ {
        bool_change(v, r, |b: bool| ChangedProperty::Fullscreen(b))
    } else if name == "CanSetFullscreen"@ {
        bool_change(v, r, |b: bool| ChangedProperty::CanSetFullscreen(b))
    } else if name == "CanRaise"@ {
        bool_change(v, r, |b: bool| ChangedProperty::CanRaise(b))
    } else if name == "HasTrackList"@ {
        bool_change(v, r, |b: bool| ChangedProperty::HasTrackList(b))
    } else if name == "Shuffle"@ {
        bool_change(v, r, |b: bool| ChangedProperty::Shuffle(b))
    } else if name == "CanGoNext"@ {
        bool_change(v, r, |b: bool| ChangedProperty::CanGoNext(b))
    } else if name == "CanGoPrevious"@ {
        bool_change(v, r, |b: bool| ChangedProperty::CanGoPrevious(b))
    } else if name == "CanPlay"@ {
        bool_change(v, r, |b: bool| ChangedProperty::CanPlay(b))
    } else if name == "CanPause"@ {
        bool_change(v, r, |b: bool| ChangedProperty::CanPause(b))
    } else if name == "CanSeek"@ {
        bool_change(v, r, |b: bool| ChangedProperty::CanSeek(b))
    } else if name == "CanEditTracks"@ {
        bool_change(v, r, |b: bool| ChangedProperty::CanEditTracks(b))
    } else if name == "Identity"@ {
        match text_of(v) {
            Some(t) => r matches Ok(ChangedProperty::Identity(s)) && s@ == t,
            None => is_cast_error(r, v, "&str"@),
        }
    } else if name == "DesktopEntry"@ {
        match text_of(v) {
            Some(t) => r matches Ok(ChangedProperty::DesktopEntry(s)) && s@ == t,
            None => is_cast_error(r, v, "&str"@),
        }
    } else if name == "SupportedUriSchemes"@ {
        match string_list_of(v) {
            Some(l) => r matches Ok(ChangedProperty::SupportedUriSchemes(x)) && x@ == l,
            None => is_cast_error(r, v, "Vec<String>"@),
        }
    } else if name == "SupportedMimeTypes"@ {
        match string_list_of(v) {
            Some(l) => r matches Ok(ChangedProperty::SupportedMimeTypes(x)) && x@ == l,
            None => is_cast_error(r, v, "Vec<String>"@),
        }
    } else if name == "PlaybackStatus"@ {
        match text_of(v) {
            Some(t) => match playback_status_named(lowercase_of(t)) {
                Some(x) => r == Ok::<ChangedProperty, ErrorKind>(ChangedProperty::PlaybackStatus(x)),
                None => is_build_error(r, "PlaybackStatus"@, t),
            },
            None => is_cast_error(r, v, "&str"@),
        }
    } else if name == "LoopStatus"@ {
        match text_of(v) {
            Some(t) => match loop_status_named(lowercase_of(t)) {
                Some(x) => r == Ok::<ChangedProperty, ErrorKind>(ChangedProperty::LoopStatus(x)),
                None => is_build_error(r, "LoopStatus"@, t),
            },
            None => is_cast_error(r, v, "&str"@),
        }
    } else if name == "Rate"@ {
        double_change(v, r, |d: u64| ChangedProperty::Rate(d))
    } else if name == "Volume"@ {
        double_change(v, r, |d: u64| ChangedProperty::Volume(d))
    } else if name == "MinimumRate"@ {
        double_change(v, r, |d: u64| ChangedProperty::MinimumRate(d))
    } else if name == "MaximumRate"@ {
        double_change(v, r, |d: u64| ChangedProperty::MaximumRate(d))
    } else if name == "Metadata"@ {
        match variant_dict_of(v) {
            Some(entries) => match r {
                Ok(ChangedProperty::Metadata(m)) => built_from(entries, Ok(m)),
                Ok(_) => false,
                Err(e) => built_from(entries, Err(e)),
            },
            None => is_cast_error(r, v, "HashMap"@),
        }
    } else if name == "Tracks"@ {
        r == Ok::<ChangedProperty, ErrorKind>(ChangedProperty::Tracks)
    } else {
        r matches Ok(ChangedProperty::Other(s)) && s@ == debug_text_of(v)
    }
}

/// Whether decoding the property `name` with value `v` succeeds.
pub open spec fn decode_ok(name: Seq<char>, v: WireValue) -> bool {
    if name == "CanQuit"@ {
        bool_of(v) is Some
    } else if name == "Fullscreen"@ {
        bool_of(v) is Some
    } else if name == "CanSetFullscreen"@ {
        bool_of(v) is Some
    } else if name == "CanRaise"@ {
        bool_of(v) is Some
    } else if name == "HasTrackList"@ {
        bool_of(v) is Some
    } else if name == "Shuffle"@ {
        bool_of(v) is Some
    } else if name == "CanGoNext"@ {
        bool_of(v) is Some
    } else if name == "CanGoPrevious"@ {
        bool_of(v) is Some
    } else if name == "CanPlay"@ {
        bool_of(v) is Some
    } else if name == "CanPause"@ {
        bool_of(v) is Some
    } else if name == "CanSeek"@ {
        bool_of(v) is Some
    } else if name == "CanEditTracks"@ {
        bool_of(v) is Some
    } else if name == "Identity"@ {
        text_of(v) is Some
    } else if name == "DesktopEntry"@ {
        text_of(v) is Some
    } else if name == "SupportedUriSchemes"@ {
        string_list_of(v) is Some
    } else if name == "SupportedMimeTypes"@ {
        string_list_of(v) is Some
    } else if name == "PlaybackStatus"@ {
        text_of(v) matches Some(t) && playback_status_named(lowercase_of(t)) is Some
    } else if name == "LoopStatus"@ {
        text_of(v) matches Some(t) && loop_status_named(lowercase_of(t)) is Some
    } else if name == "Rate"@ {
        double_of(v) is Some
    } else if name == "Volume"@ {
        double_of(v) is Some
    } else if name == "MinimumRate"@ {
        double_of(v) is Some
    } else if name == "MaximumRate"@ {
        double_of(v) is Some
    } else if name == "Metadata"@ {
        variant_dict_of(v) matches Some(entries) && metadata_builds(entries)
    } else if name == "Tracks"@ {
        true
    } else {
        true
    }
}

/// The properties that a list of changed entries decodes to, in order; an
/// entry that does not decode is left out.
pub open spec fn decodes_all(entries: Seq<(String, WireValue)>, out: Seq<ChangedProperty>) -> bool
    decreases entries.len(),
{
    if entries.len() == 0 {
        out.len() == 0
    } else {
        let e = entries.last();
        if decode_ok(e.0@, e.1) {
            out.len() > 0 && decodes_to(e.0@, e.1, Ok(out.last())) && decodes_all(
                entries.drop_last(),
                out.drop_last(),
            )
        } else {
            decodes_all(entries.drop_last(), out)
        }
    }
}

/// Whether `v` is a string-keyed map whose values are all variants.
pub fn is_variant_dict(v: &WireValue) -> (r: bool)
    ensures
        r == variant_dict_of(*v) is Some,
{
    match v {
        WireValue::Dict(items) => {
            let mut i: usize = 0;
            while i < items.len()
                invariant
                    *v == WireValue::Dict(*items),
                    i <= items@.len(),
                    forall|k: int| 0 <= k < i ==> #[trigger] items@[k].1 is Variant,
                decreases items@.len() - i,
            {
                match &items[i].1 {
                    WireValue::Variant(_) => {},
                    _ => {
                        assert(!(items@[i as int].1 is Variant));
                        return false;
                    },
                }
                i = i + 1;
            }
            true
        },
        _ => false,
    }
}

/// Takes each value of a string-keyed map of variants out of its variant.
pub fn variant_entries(v: WireValue) -> (r: Vec<(String, WireValue)>)
    requires
        variant_dict_of(v) is Some,
    ensures
        variant_dict_of(v) == Some(r@),
{
    match v {
        WireValue::Dict(items) => {
            let ghost all = items@;
            let mut rest = items;
            let mut out: Vec<(String, WireValue)> = Vec::new();
            while rest.len() > 0
                invariant
                    forall|k: int| 0 <= k < all.len() ==> #[trigger] all[k].1 is Variant,
                    out@.len() + rest@.len() == all.len(),
                    rest@ == all.subrange(out@.len() as int, all.len() as int),
                    forall|k: int|
                        0 <= k < out@.len() ==> #[trigger] out@[k] == (
                            all[k].0,
                            *(all[k].1->Variant_0),
                        ),
                decreases rest@.len(),
            {
                let ghost done = out@.len() as int;
                let (key, value) = rest.remove(0);
                assert(all[done] == (key, value));
                match value {
                    WireValue::Variant(inner) => out.push((key, *inner)),
                    _ => {
                        assert(all[done].1 is Variant);
                    },
                }
            }
            assert(out@ =~= all.map_values(
                |e: (String, WireValue)| (e.0, *(e.1->Variant_0)),
            ));
            out
        },
        _ => Vec::new(),
    }
}

impl ChangedProperty {
    /// Decodes one entry of a change notification: the property's name and
    /// the value taken out of its variant. Unknown names give `Other`, never
    /// an error.
    pub fn from_variant(name: &str, data: WireValue) -> (r: Result<ChangedProperty>)
        ensures
            decodes_to(name@, data, r),
            r is Ok <==> decode_ok(name@, data),
    {
        if same_text(name, "CanQuit") {
            match data.as_bool() {
                Some(b) => Ok(ChangedProperty::CanQuit(b)),
                None => Err(cast_error(&data, "bool")),
            }
        } else if same_text(name, "Fullscreen") {
            match data.as_bool() {
                Some(b) => Ok(ChangedProperty::Fullscreen(b)),
                None => Err(cast_error(&data, "bool")),
            }
        } else if same_text(name, "CanSetFullscreen") {
            match data.as_bool() {
                Some(b) => Ok(ChangedProperty::CanSetFullscreen(b)),
                None => Err(cast_error(&data, "bool")),
            }
        } else if same_text(name, "CanRaise") {
            match data.as_bool() {
                Some(b) => Ok(ChangedProperty::CanRaise(b)),
                None => Err(cast_error(&data, "bool")),
            }
        } else if same_text(name, "HasTrackList") {
            match data.as_bool() {
                Some(b) => Ok(ChangedProperty::HasTrackList(b)),
                None => Err(cast_error(&data, "bool")),
            }
        } else if same_text(name, "Shuffle") {
            match data.as_bool() {
                Some(b) => Ok(ChangedProperty::Shuffle(b)),
                None => Err(cast_error(&data, "bool")),
            }
        } else if same_text(name, "CanGoNext") {
            match data.as_bool() {
                Some(b) => Ok(ChangedProperty::CanGoNext(b)),
                None => Err(cast_error(&data, "bool")),
            }
        } else if same_text(name, "CanGoPrevious") {
            match data.as_bool() {
                Some(b) => Ok(ChangedProperty::CanGoPrevious(b)),
                None => Err(cast_error(&data, "bool")),
            }
        } else if same_text(name, "CanPlay") {
            match data.as_bool() {
                Some(b) => Ok(ChangedProperty::CanPlay(b)),
                None => Err(cast_error(&data, "bool")),
            }
        } else if same_text(name, "CanPause") {
            match data.as_bool() {
                Some(b) => Ok(ChangedProperty::CanPause(b)),
                None => Err(cast_error(&data, "bool")),
            }
        } else if same_text(name, "CanSeek") {
            match data.as_bool() {
                Some(b) => Ok(ChangedProperty::CanSeek(b)),
                None => Err(cast_error(&data, "bool")),
            }
        } else if same_text(name, "CanEditTracks") {
            match data.as_bool() {
                Some(b) => Ok(ChangedProperty::CanEditTracks(b)),
                None => Err(cast_error(&data, "bool")),
            }
        } else if same_text(name, "Identity") {
            match data.as_str() {
                Some(s) => Ok(ChangedProperty::Identity(s.to_owned())),
                None => Err(cast_error(&data, "&str")),
            }
        } else if same_text(name, "DesktopEntry") {
            match data.as_str() {
                Some(s) => Ok(ChangedProperty::DesktopEntry(s.to_owned())),
                None => Err(cast_error(&data, "&str")),
            }
        } else if same_text(name, "SupportedUriSchemes") {
            match data.as_string_list() {
                Some(l) => Ok(ChangedProperty::SupportedUriSchemes(l)),
                None => Err(cast_error(&data, "Vec<String>")),
            }
        } else if same_text(name, "SupportedMimeTypes") {
            match data.as_string_list() {
                Some(l) => Ok(ChangedProperty::SupportedMimeTypes(l)),
                None => Err(cast_error(&data, "Vec<String>")),
            }
        } else if same_text(name, "PlaybackStatus") {
            match data.as_str() {
                Some(s) => match PlaybackStatus::from_str(s) {
                    Ok(x) => Ok(ChangedProperty::PlaybackStatus(x)),
                    Err(e) => Err(e),
                },
                None => Err(cast_error(&data, "&str")),
            }
        } else if same_text(name, "LoopStatus") {
            match data.as_str() {
                Some(s) => match LoopStatus::from_str(s) {
                    Ok(x) => Ok(ChangedProperty::LoopStatus(x)),
                    Err(e) => Err(e),
                },
                None => Err(cast_error(&data, "&str")),
            }
        } else if same_text(name, "Rate") {
            match data.as_double_bits() {
                Some(d) => Ok(ChangedProperty::Rate(d)),
                None => Err(cast_error(&data, "f64")),
            }
        } else if same_text(name, "Volume") {
            match data.as_double_bits() {
                Some(d) => Ok(ChangedProperty::Volume(d)),
                None => Err(cast_error(&data, "f64")),
            }
        } else if same_text(name, "MinimumRate") {
            match data.as_double_bits() {
                Some(d) => Ok(ChangedProperty::MinimumRate(d)),
                None => Err(cast_error(&data, "f64")),
            }
        } else if same_text(name, "MaximumRate") {
            match data.as_double_bits() {
                Some(d) => Ok(ChangedProperty::MaximumRate(d)),
                None => Err(cast_error(&data, "f64")),
            }
        } else if same_text(name, "Metadata") {
            if !is_variant_dict(&data) {
                Err(cast_error(&data, "HashMap"))
            } else {
                let entries = variant_entries(data);
                match MetadataMap::from_map(entries) {
                    Ok(m) => Ok(ChangedProperty::Metadata(m)),
                    Err(e) => Err(e),
                }
            }
        } else if same_text(name, "Tracks") {
            Ok(ChangedProperty::Tracks)
        } else {
            Ok(ChangedProperty::Other(debug_text(&data)))
        }
    }
}

/// A signal emitted by an MPRIS player.
#[derive(PartialEq, Debug)]
pub enum MprisSignal {
    /// The track position changed in a way inconsistent with the playing
    /// state: the new position in microseconds.
    Seeked { position: i64 },
    /// Properties changed or were invalidated.
    PropertiesChanged {
        interface: String,
        changed_properties: Vec<ChangedProperty>,
        invalidated_properties: Vec<String>,
    },
}

/// The kind of a bus message.
#[derive(Debug, Clone, Copy, PartialEq, Eq, Structural)]
pub enum MessageType {
    MethodCall,
    MethodReturn,
    Error,
    Signal,
}

/// An inbound bus message: its kind, the headers that signal decoding reads,
/// and its positional payload.
#[derive(Debug)]
pub struct BusMessage {
    pub msg_type: MessageType,
    pub sender: Option<String>,
    pub path: Option<String>,
    pub interface: Option<String>,
    pub member: Option<String>,
    pub args: Vec<WireValue>,
}

/// The object path of every MPRIS player.
pub open spec fn root_path() -> Seq<char> {
    "/org/mpris/MediaPlayer2"@
}

/// Whether a header is present and reads `text`.
pub open spec fn header_is(h: Option<String>, text: Seq<char>) -> bool {
    h matches Some(s) && s@ == text
}

/// Whether `m` is a signal from the root path with the given interface and member.
pub open spec fn is_signal(m: BusMessage, interface: Seq<char>, member: Seq<char>) -> bool {
    &&& m.msg_type == MessageType::Signal
    &&& header_is(m.path, root_path())
    &&& header_is(m.interface, interface)
    &&& header_is(m.member, member)
}

/// Whether the payload of `m` reads as an interface name, a map of changed
/// values and a list of invalidated names.
pub open spec fn properties_payload(m: BusMessage) -> bool {
    &&& m.args@.len() >= 3
    &&& string_of(m.args@[0]) is Some
    &&& variant_dict_of(m.args@[1]) is Some
    &&& string_list_of(m.args@[2]) is Some
}

/// What decoding the message `m` gives: only the two known signals are kept.
pub open spec fn signal_decoded(m: BusMessage, r: Option<MprisSignal>) -> bool {
    if is_signal(m, "org.freedesktop.DBus.Properties"@, "PropertiesChanged"@) {
        if properties_payload(m) {
            r matches Some(
                MprisSignal::PropertiesChanged {
                    interface,
                    changed_properties,
                    invalidated_properties,
                },
            ) && interface == string_of(m.args@[0])->0 && invalidated_properties@ == string_list_of(
                m.args@[2],
            )->0 && decodes_all(variant_dict_of(m.args@[1])->0, changed_properties@)
        } else {
            r is None
        }
    } else if is_signal(m, "org.mpris.MediaPlayer2.Player"@, "Seeked"@) {
        if m.args@.len() >= 1 && int64_of(m.args@[0]) is Some {
            r == Some(MprisSignal::Seeked { position: int64_of(m.args@[0])->0 })
        } else {
            r is None
        }
    } else {
        r is None
    }
}

/// Whether a header is present and reads `text`.
fn header_matches(h: &Option<String>, text: &str) -> (r: bool)
    ensures
        r == header_is(*h, text@),
{
    match h {
        Some(s) => same_text(s.as_str(), text),
        None => false,
    }
}

/// Decodes every entry of a change notification, in order, leaving out the
/// entries that do not decode.
pub fn decode_changes(entries: Vec<(String, WireValue)>) -> (r: Vec<ChangedProperty>)
    ensures
        decodes_all(entries@, r@),
{
    let ghost all = entries@;
    let mut rest = entries;
    let mut out: Vec<ChangedProperty> = Vec::new();
    let mut done: usize = 0;
    assert(all.len() == rest.len());
    while rest.len() > 0
        invariant
            all.len() <= usize::MAX,
            done + rest@.len() == all.len(),
            rest@ == all.subrange(done as int, all.len() as int),
            decodes_all(all.subrange(0, done as int), out@),
        decreases rest@.len(),
    {
        let (name, value) = rest.remove(0);
        assert(all[done as int] == (name, value));
        let ghost before = out@;
        let ghost prefix = all.subrange(0, done + 1);
        assert(prefix.drop_last() =~= all.subrange(0, done as int));
        assert(prefix.last() == (name, value));
        match ChangedProperty::from_variant(name.as_str(), value) {
            Ok(p) => {
                out.push(p);
                assert(out@.drop_last() =~= before);
            },
            Err(_) => {},
        }
        done = done + 1;
    }
    assert(all.subrange(0, done as int) =~= all);
    out
}

impl MprisSignal {
    /// Builds a signal from a bus message; messages other than the two known
    /// signals, or with a payload of another shape, give `None`.
    pub fn from_message(msg: BusMessage) -> (r: Option<MprisSignal>)
        ensures
            signal_decoded(msg, r),
    {
        let ghost m = msg;
        let is_sig = msg.msg_type == MessageType::Signal;
        if is_sig && header_matches(&msg.path, "/org/mpris/MediaPlayer2") && header_matches(
            &msg.interface,
            "org.freedesktop.DBus.Properties",
        ) && header_matches(&msg.member, "PropertiesChanged") {
            let mut args = msg.args;
            if args.len() < 3 {
                return None;
            }
            let interface = match args[0].as_string() {
                Some(s) => s,
                None => return None,
            };
            let invalidated_properties = match args[2].as_string_list() {
                Some(l) => l,
                None => return None,
            };
            if !is_variant_dict(&args[1]) {
                return None;
            }
            let dict = args.remove(1);
            let changed_properties = decode_changes(variant_entries(dict));
            Some(MprisSignal::PropertiesChanged { interface, changed_properties, invalidated_properties })
        } else if is_sig && header_matches(&msg.path, "/org/mpris/MediaPlayer2") && header_matches(
            &msg.interface,
            "org.mpris.MediaPlayer2.Player",
        ) && header_matches(&msg.member, "Seeked") {
            if msg.args.len() < 1 {
                return None;
            }
            match &msg.args[0] {
                WireValue::Int64(p) => Some(MprisSignal::Seeked { position: *p }),
                _ => None,
            }
        } else {
            None
        }
    }
}

} // verus!
