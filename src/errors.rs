//! The errors reported by this library.
use vstd::prelude::*;

use crate::text::{seq_contains, text_contains};

verus! {

/// A failure reported by the message bus itself: the error's name (such as
/// `org.freedesktop.DBus.Error.ServiceUnknown`) and its human-readable
/// message, each when the bus supplied one.
#[derive(Debug, Clone, PartialEq, Eq)]
pub struct TransportError {
    pub name: Option<String>,
    pub message: Option<String>,
}

/// Everything that can go wrong in this library.
#[derive(Debug, Clone, PartialEq)]
pub enum ErrorKind {
    /// A bus failure that no other kind describes, passed on as the bus reported it.
    DBus(TransportError),
    /// A condition without a dedicated kind, with a description.
    GeneralError(String),
    /// A property write addressed a property that the player does not implement:
    /// object path and property name.
    AccessedAbsentOptionalProperty(String, String),
    /// A text did not name any value of a type: the type and the text.
    TypeBuildError(&'static str, String),
    /// A wire value did not have the expected shape: its rendering and the
    /// intended type.
    TypeCastError(String, &'static str),
    /// The player's bus name has no owner: the player is not running.
    ServiceUnknown(String),
}

/// The result type of this library.
pub type Result<T> = core::result::Result<T, ErrorKind>;

/// Whether the bus error carries a name and that name contains `pattern`.
pub open spec fn name_contains(err: TransportError, pattern: Seq<char>) -> bool {
    match err.name {
        Some(n) => seq_contains(n@, pattern),
        None => false,
    }
}

/// Returns `true` if `err`'s name contains `match_err_name`; an error without a
/// name matches nothing.
pub fn match_dbus_err(err: &TransportError, match_err_name: &str) -> (r: bool)
    ensures
        r == name_contains(*err, match_err_name@),
{
    match &err.name {
        Some(n) => text_contains(n.as_str(), match_err_name),
        None => false,
    }
}

} // verus!
