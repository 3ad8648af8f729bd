use mpris::{
    BusMessage, ChangedProperty, ErrorKind, LoopStatus, MessageType, MprisSignal, PlaybackStatus,
    PlayerBus, WireValue,
};

fn s(text: &str) -> WireValue {
    WireValue::Str(text.to_string())
}

fn var(v: WireValue) -> WireValue {
    WireValue::Variant(Box::new(v))
}

fn signal(interface: &str, member: &str, args: Vec<WireValue>) -> BusMessage {
    BusMessage {
        msg_type: MessageType::Signal,
        sender: Some(":1.42".to_string()),
        path: Some("/org/mpris/MediaPlayer2".to_string()),
        interface: Some(interface.to_string()),
        member: Some(member.to_string()),
        args,
    }
}

fn properties_changed(changed: Vec<(String, WireValue)>, invalidated: Vec<WireValue>) -> BusMessage {
    signal(
        "org.freedesktop.DBus.Properties",
        "PropertiesChanged",
        vec![s("org.mpris.MediaPlayer2.Player"), WireValue::Dict(changed), WireValue::Array(invalidated)],
    )
}

#[test]
fn decode_can_quit() {
    assert_eq!(
        ChangedProperty::from_variant("CanQuit", WireValue::Bool(true)).unwrap(),
        ChangedProperty::CanQuit(true)
    );
}

#[test]
fn decode_unrecognized_gives_other() {
    match ChangedProperty::from_variant("Unrecognized", WireValue::Bool(true)) {
        Ok(ChangedProperty::Other(text)) => assert_eq!(text, "Bool(true)"),
        other => panic!("unexpected: {:?}", other),
    }
}

#[test]
fn decode_wrong_type_is_cast_error() {
    match ChangedProperty::from_variant("Shuffle", s("yes")) {
        Err(ErrorKind::TypeCastError(from, to)) => {
            assert_eq!(from, "Str(\"yes\")");
            assert_eq!(to, "bool");
        }
        other => panic!("unexpected: {:?}", other),
    }
    assert!(matches!(
        ChangedProperty::from_variant("Volume", WireValue::Int32(1)),
        Err(ErrorKind::TypeCastError(_, "f64"))
    ));
}

#[test]
fn decode_typed_properties() {
    assert_eq!(
        ChangedProperty::from_variant("Identity", s("VLC")).unwrap(),
        ChangedProperty::Identity("VLC".to_string())
    );
    assert_eq!(
        ChangedProperty::from_variant("DesktopEntry", var(s("vlc"))).unwrap(),
        ChangedProperty::DesktopEntry("vlc".to_string())
    );
    assert_eq!(
        ChangedProperty::from_variant("SupportedMimeTypes", WireValue::Array(vec![s("audio/ogg")]))
            .unwrap(),
        ChangedProperty::SupportedMimeTypes(vec!["audio/ogg".to_string()])
    );
    assert_eq!(
        ChangedProperty::from_variant("PlaybackStatus", s("Paused")).unwrap(),
        ChangedProperty::PlaybackStatus(PlaybackStatus::Paused)
    );
    assert_eq!(
        ChangedProperty::from_variant("LoopStatus", s("Playlist")).unwrap(),
        ChangedProperty::LoopStatus(LoopStatus::Playlist)
    );
    assert_eq!(
        ChangedProperty::from_variant("Rate", WireValue::Double(1.5f64.to_bits())).unwrap(),
        ChangedProperty::Rate(1.5f64.to_bits())
    );
    assert_eq!(
        ChangedProperty::from_variant("Tracks", WireValue::Array(Vec::new())).unwrap(),
        ChangedProperty::Tracks
    );
    assert_eq!(
        ChangedProperty::from_variant("CanEditTracks", WireValue::Bool(false)).unwrap(),
        ChangedProperty::CanEditTracks(false)
    );
}

#[test]
fn decode_bad_playback_status_is_build_error() {
    assert!(matches!(
        ChangedProperty::from_variant("PlaybackStatus", s("forward-seek")),
        Err(ErrorKind::TypeBuildError("PlaybackStatus", _))
    ));
}

#[test]
fn decode_metadata() {
    let dict = WireValue::Dict(vec![
        ("mpris:trackid".to_string(), var(WireValue::ObjectPath("/t/1".to_string()))),
        ("xesam:title".to_string(), var(s("song"))),
    ]);
    match ChangedProperty::from_variant("Metadata", dict) {
        Ok(ChangedProperty::Metadata(m)) => {
            assert_eq!(m.trackid().as_str(), "/t/1");
            assert_eq!(m.title(), Some("song".to_string()));
        }
        other => panic!("unexpected: {:?}", other),
    }
}

#[test]
fn decode_metadata_without_trackid_fails() {
    let dict = WireValue::Dict(vec![("xesam:title".to_string(), var(s("song")))]);
    assert!(matches!(
        ChangedProperty::from_variant("Metadata", dict),
        Err(ErrorKind::GeneralError(_))
    ));
    let not_variants = WireValue::Dict(vec![("mpris:trackid".to_string(), s("/t"))]);
    assert!(matches!(
        ChangedProperty::from_variant("Metadata", not_variants),
        Err(ErrorKind::TypeCastError(_, "HashMap"))
    ));
}

#[test]
fn properties_changed_with_shuffle() {
    let msg = properties_changed(vec![("Shuffle".to_string(), var(WireValue::Bool(true)))], Vec::new());
    assert_eq!(
        MprisSignal::from_message(msg),
        Some(MprisSignal::PropertiesChanged {
            interface: "org.mpris.MediaPlayer2.Player".to_string(),
            changed_properties: vec![ChangedProperty::Shuffle(true)],
            invalidated_properties: Vec::new(),
        })
    );
}

#[test]
fn properties_changed_drops_entries_that_do_not_decode() {
    let msg = properties_changed(
        vec![
            ("CanPlay".to_string(), var(WireValue::Bool(true))),
            ("Volume".to_string(), var(s("loud"))),
            ("Novel".to_string(), var(WireValue::Int32(3))),
        ],
        vec![s("Metadata")],
    );
    assert_eq!(
        MprisSignal::from_message(msg),
        Some(MprisSignal::PropertiesChanged {
            interface: "org.mpris.MediaPlayer2.Player".to_string(),
            changed_properties: vec![
                ChangedProperty::CanPlay(true),
                ChangedProperty::Other("Int32(3)".to_string()),
            ],
            invalidated_properties: vec!["Metadata".to_string()],
        })
    );
}

#[test]
fn properties_changed_with_bad_payload_is_dropped() {
    let msg = signal("org.freedesktop.DBus.Properties", "PropertiesChanged", vec![s("x")]);
    assert_eq!(MprisSignal::from_message(msg), None);
    let msg = signal(
        "org.freedesktop.DBus.Properties",
        "PropertiesChanged",
        vec![s("x"), WireValue::Dict(vec![("Shuffle".to_string(), WireValue::Bool(true))]), WireValue::Array(Vec::new())],
    );
    assert_eq!(MprisSignal::from_message(msg), None);
}

#[test]
fn seeked_signal() {
    let msg = signal("org.mpris.MediaPlayer2.Player", "Seeked", vec![WireValue::Int64(1_000_000)]);
    assert_eq!(MprisSignal::from_message(msg), Some(MprisSignal::Seeked { position: 1_000_000 }));
    let msg = signal("org.mpris.MediaPlayer2.Player", "Seeked", vec![WireValue::UInt64(5)]);
    assert_eq!(MprisSignal::from_message(msg), None);
}

#[test]
fn unknown_signals_and_other_kinds_are_dropped() {
    let msg = signal("org.mpris.MediaPlayer2.Player", "TrackAdded", vec![WireValue::Int64(1)]);
    assert_eq!(MprisSignal::from_message(msg), None);
    let mut msg = signal("org.mpris.MediaPlayer2.Player", "Seeked", vec![WireValue::Int64(1)]);
    msg.msg_type = MessageType::MethodCall;
    assert_eq!(MprisSignal::from_message(msg), None);
    let mut msg = signal("org.mpris.MediaPlayer2.Player", "Seeked", vec![WireValue::Int64(1)]);
    msg.path = Some("/elsewhere".to_string());
    assert_eq!(MprisSignal::from_message(msg), None);
}

#[test]
fn player_bus_filters_senders() {
    let bus = PlayerBus::new("vlc", ":1.42".to_string());
    assert_eq!(bus.bus_name, "org.mpris.MediaPlayer2.vlc");
    let msg = signal("org.mpris.MediaPlayer2.Player", "Seeked", vec![WireValue::Int64(7)]);
    assert_eq!(bus.signal(msg), Some(MprisSignal::Seeked { position: 7 }));
    let mut msg = signal("org.mpris.MediaPlayer2.Player", "Seeked", vec![WireValue::Int64(7)]);
    msg.sender = Some("org.mpris.MediaPlayer2.vlc".to_string());
    assert_eq!(bus.signal(msg), Some(MprisSignal::Seeked { position: 7 }));
    let mut msg = signal("org.mpris.MediaPlayer2.Player", "Seeked", vec![WireValue::Int64(7)]);
    msg.sender = Some(":1.99".to_string());
    assert_eq!(bus.signal(msg), None);
    let mut msg = signal("org.mpris.MediaPlayer2.Player", "Seeked", vec![WireValue::Int64(7)]);
    msg.sender = None;
    assert_eq!(bus.signal(msg), None);
}
