//! The decisions of a session with one player: which bus name to address,
//! which signals to accept, and how bus replies and failures become results.
//! Sending and receiving is the caller's part.
use vstd::prelude::*;
use vstd::string::{StrSliceExecFns, StringExecFns};

use crate::client::{signal_decoded, BusMessage, MprisSignal};
use crate::errors::{match_dbus_err, name_contains, ErrorKind, Result, TransportError};
use crate::text::{same_text, seq_contains, seq_starts_with, text_contains};
use crate::value::{bool_of, WireValue};

verus! {

/// The prefix of every MPRIS player's bus name.
pub open spec fn player_bus_prefix() -> Seq<char> {
    "org.mpris.MediaPlayer2."@
}

/// The name that a bus error carries when a name has no owner.
pub open spec fn service_unknown_name() -> Seq<char> {
    "org.freedesktop.DBus.Error.ServiceUnknown"@
}

/// The part of an error name that marks a property the target does not have.
pub open spec fn unknown_property_name() -> Seq<char> {
    "DBus.Error.UnknownProperty"@
}

/// Whether a bus error says that the addressed name has no owner: its name,
/// or its message, mentions the service-unknown error.
pub open spec fn is_service_unknown(e: TransportError) -> bool {
    name_contains(e, service_unknown_name()) || (e.message matches Some(m) && seq_contains(
        m@,
        service_unknown_name(),
    ))
}

/// Whether a bus error says that the property does not exist.
pub open spec fn is_unknown_property(e: TransportError) -> bool {
    name_contains(e, unknown_property_name())
}

/// The bus name of the player `player_name`.
pub fn bus_name_for(player_name: &str) -> (r: String)
    ensures
        r@ == player_bus_prefix() + player_name@,
{
    let mut name = "org.mpris.MediaPlayer2.".to_owned();
    name.append(player_name);
    name
}

/// The subscriptions a session registers when it opens, so that no signal
/// is missed before the first pull: property changes, and the root, player,
/// track list and playlists interfaces, all on the player's object path.
pub fn match_rules() -> (r: Vec<&'static str>)
    ensures
        r@.len() == 5,
        r@[0]@
            == "path='/org/mpris/MediaPlayer2',interface='org.freedesktop.DBus.Properties',member='PropertiesChanged'"@,
        r@[1]@ == "path='/org/mpris/MediaPlayer2',interface='org.mpris.MediaPlayer2'"@,
        r@[2]@ == "path='/org/mpris/MediaPlayer2',interface='org.mpris.MediaPlayer2.Player'"@,
        r@[3]@ == "path='/org/mpris/MediaPlayer2',interface='org.mpris.MediaPlayer2.TrackList'"@,
        r@[4]@ == "path='/org/mpris/MediaPlayer2',interface='org.mpris.MediaPlayer2.Playlists'"@,
{
    let mut r: Vec<&'static str> = Vec::new();
    r.push(
        "path='/org/mpris/MediaPlayer2',interface='org.freedesktop.DBus.Properties',member='PropertiesChanged'",
    );
    r.push("path='/org/mpris/MediaPlayer2',interface='org.mpris.MediaPlayer2'");
    r.push("path='/org/mpris/MediaPlayer2',interface='org.mpris.MediaPlayer2.Player'");
    r.push("path='/org/mpris/MediaPlayer2',interface='org.mpris.MediaPlayer2.TrackList'");
    r.push("path='/org/mpris/MediaPlayer2',interface='org.mpris.MediaPlayer2.Playlists'");
    r
}

/// The outcome of looking up the owner of `bus_name`: a failed lookup means
/// that the player is not running.
pub fn resolve_owner(bus_name: &str, reply: core::result::Result<String, TransportError>) -> (r:
    Result<String>)
    ensures
        match reply {
            Ok(owner) => r == Ok::<String, ErrorKind>(owner),
            Err(_) => r matches Err(ErrorKind::ServiceUnknown(n)) && n@ == bus_name@,
        },
{
    match reply {
        Ok(owner) => Ok(owner),
        Err(_) => Err(ErrorKind::ServiceUnknown(bus_name.to_owned())),
    }
}

/// Whether a bus error says that the addressed name has no owner.
pub fn service_unknown(e: &TransportError) -> (r: bool)
    ensures
        r == is_service_unknown(*e),
{
    if match_dbus_err(e, "org.freedesktop.DBus.Error.ServiceUnknown") {
        return true;
    }
    match &e.message {
        Some(m) => text_contains(m.as_str(), "org.freedesktop.DBus.Error.ServiceUnknown"),
        None => false,
    }
}

/// The outcome of a method call on `bus_name` that returns nothing.
pub fn method_call_outcome(bus_name: &str, reply: core::result::Result<(), TransportError>) -> (r:
    Result<()>)
    ensures
        match reply {
            Ok(_) => r is Ok,
            Err(e) => if is_service_unknown(e) {
                r matches Err(ErrorKind::ServiceUnknown(n)) && n@ == bus_name@
            } else {
                r == Err::<(), ErrorKind>(ErrorKind::DBus(e))
            },
        },
{
    match reply {
        Ok(_) => Ok(()),
        Err(e) => if service_unknown(&e) {
            Err(ErrorKind::ServiceUnknown(bus_name.to_owned()))
        } else {
            Err(ErrorKind::DBus(e))
        },
    }
}

/// What reading an optional property gives for a bus reply.
pub open spec fn optional_read(reply: core::result::Result<WireValue, TransportError>) -> Result<
    Option<WireValue>,
> {
    match reply {
        Ok(v) => Ok(Some(v)),
        Err(e) => if is_unknown_property(e) {
            Ok(None)
        } else {
            Err(ErrorKind::DBus(e))
        },
    }
}

/// The outcome of reading an optional property: a property the player does
/// not have reads as absent.
pub fn optional_property_outcome(reply: core::result::Result<WireValue, TransportError>) -> (r:
    Result<Option<WireValue>>)
    ensures
        r == optional_read(reply),
{
    match reply {
        Ok(v) => Ok(Some(v)),
        Err(e) => if match_dbus_err(&e, "DBus.Error.UnknownProperty") {
            Ok(None)
        } else {
            Err(ErrorKind::DBus(e))
        },
    }
}

/// What writing the property `member` at `path` gives for a bus reply.
pub open spec fn property_written(
    path: Seq<char>,
    member: Seq<char>,
    reply: core::result::Result<(), TransportError>,
    r: Result<()>,
) -> bool {
    match reply {
        Ok(_) => r is Ok,
        Err(e) => if is_unknown_property(e) {
            r matches Err(ErrorKind::AccessedAbsentOptionalProperty(p, m)) && p@ == path && m@
                == member
        } else {
            r == Err::<(), ErrorKind>(ErrorKind::DBus(e))
        },
    }
}

/// The outcome of writing the property `member` at `path`: a property the
/// player does not have is reported as such.
pub fn set_property_outcome(
    path: &str,
    member: &str,
    reply: core::result::Result<(), TransportError>,
) -> (r: Result<()>)
    ensures
        property_written(path@, member@, reply, r),
{
    match reply {
        Ok(_) => Ok(()),
        Err(e) => if match_dbus_err(&e, "DBus.Error.UnknownProperty") {
            Err(ErrorKind::AccessedAbsentOptionalProperty(path.to_owned(), member.to_owned()))
        } else {
            Err(ErrorKind::DBus(e))
        },
    }
}

/// A property the player does not have reads as absent, never as an error,
/// and writing it reports the absent property.
pub proof fn lemma_absent_property_reads_none_and_write_reports_it(
    path: Seq<char>,
    member: Seq<char>,
    e: TransportError,
    written: Result<()>,
)
    requires
        is_unknown_property(e),
        property_written(path, member, Err(e), written),
    ensures
        optional_read(Err(e)) == Ok::<Option<WireValue>, ErrorKind>(None),
        written matches Err(ErrorKind::AccessedAbsentOptionalProperty(p, m)) && p@ == path && m@
            == member,
{
}

/// A boolean property read: any other shape is an error.
pub fn expect_bool(reply: Result<WireValue>) -> (r: Result<bool>)
    ensures
        match reply {
            Ok(v) => match bool_of(v) {
                Some(b) => r == Ok::<bool, ErrorKind>(b),
                None => r matches Err(ErrorKind::GeneralError(_)),
            },
            Err(e) => r == Err::<bool, ErrorKind>(e),
        },
{
    match reply {
        Ok(v) => match v.as_bool() {
            Some(b) => Ok(b),
            None => Err(ErrorKind::GeneralError("Could not get property: unexpected type".to_owned())),
        },
        Err(e) => Err(e),
    }
}

/// An optional boolean property read: absence stays absence, any other
/// shape is an error.
pub fn expect_optional_bool(reply: Result<Option<WireValue>>) -> (r: Result<Option<bool>>)
    ensures
        match reply {
            Ok(Some(v)) => match bool_of(v) {
                Some(b) => r == Ok::<Option<bool>, ErrorKind>(Some(b)),
                None => r matches Err(ErrorKind::GeneralError(_)),
            },
            Ok(None) => r == Ok::<Option<bool>, ErrorKind>(None),
            Err(e) => r == Err::<Option<bool>, ErrorKind>(e),
        },
{
    match reply {
        Ok(Some(v)) => match v.as_bool() {
            Some(b) => Ok(Some(b)),
            None => Err(ErrorKind::GeneralError("Could not get property: unexpected type".to_owned())),
        },
        Ok(None) => Ok(None),
        Err(e) => Err(e),
    }
}

/// The player names among a list of bus names: those that start with the
/// MPRIS prefix, with the prefix taken off, in order.
pub open spec fn player_names_of(buses: Seq<String>) -> Seq<Seq<char>>
    decreases buses.len(),
{
    if buses.len() == 0 {
        Seq::empty()
    } else {
        let rest = player_names_of(buses.drop_last());
        let b = buses.last()@;
        if seq_starts_with(b, player_bus_prefix()) {
            rest.push(b.subrange(player_bus_prefix().len() as int, b.len() as int))
        } else {
            rest
        }
    }
}

/// The player names among the bus names `buses`.
pub fn player_names(buses: &Vec<String>) -> (r: Vec<String>)
    ensures
        r@.map_values(|s: String| s@) == player_names_of(buses@),
{
    let prefix = "org.mpris.MediaPlayer2.";
    proof {
        reveal_strlit("org.mpris.MediaPlayer2.");
    }
    let mut out: Vec<String> = Vec::new();
    let mut i: usize = 0;
    while i < buses.len()
        invariant
            i <= buses@.len(),
            prefix@ == player_bus_prefix(),
            prefix@.len() == 23,
            out@.map_values(|s: String| s@) == player_names_of(buses@.subrange(0, i as int)),
        decreases buses@.len() - i,
    {
        let b = buses[i].as_str();
        let n = b.unicode_len();
        let ghost before = out@;
        assert(buses@.subrange(0, i + 1).drop_last() =~= buses@.subrange(0, i as int));
        if n >= 23 && same_text(b.substring_char(0, 23), prefix) {
            out.push(b.substring_char(23, n).to_owned());
            assert(out@.map_values(|s: String| s@) =~= before.map_values(|s: String| s@).push(
                b@.subrange(23, n as int),
            ));
        }
        i = i + 1;
    }
    assert(buses@.subrange(0, i as int) =~= buses@);
    out
}

/// The addresses of the player a session talks to: its well-known bus name
/// and the unique name that owned it when the session opened.
#[derive(Debug, Clone)]
pub struct PlayerBus {
    pub bus_name: String,
    pub unique_bus_name: String,
}

/// Whether a message sender is one of the player's two addresses.
pub open spec fn sender_is_player(bus: PlayerBus, sender: Option<String>) -> bool {
    sender matches Some(s) && (s@ == bus.bus_name@ || s@ == bus.unique_bus_name@)
}

impl PlayerBus {
    /// The addresses of `player_name`, whose bus name is currently owned by
    /// `unique_bus_name`.
    pub fn new(player_name: &str, unique_bus_name: String) -> (r: PlayerBus)
        ensures
            r.bus_name@ == player_bus_prefix() + player_name@,
            r.unique_bus_name == unique_bus_name,
    {
        PlayerBus { bus_name: bus_name_for(player_name), unique_bus_name }
    }

    /// Whether a message from `sender` comes from this player.
    pub fn accepts_sender(&self, sender: &Option<String>) -> (r: bool)
        ensures
            r == sender_is_player(*self, *sender),
    {
        match sender {
            Some(s) => same_text(s.as_str(), self.bus_name.as_str()) || same_text(
                s.as_str(),
                self.unique_bus_name.as_str(),
            ),
            None => false,
        }
    }

    /// The signal that an inbound message carries, if it comes from this
    /// player and is one of the known signals.
    pub fn signal(&self, msg: BusMessage) -> (r: Option<MprisSignal>)
        ensures
            sender_is_player(*self, msg.sender) ==> signal_decoded(msg, r),
            !sender_is_player(*self, msg.sender) ==> r is None,
    {
        if self.accepts_sender(&msg.sender) {
            MprisSignal::from_message(msg)
        } else {
            None
        }
    }
}

} // verus!
