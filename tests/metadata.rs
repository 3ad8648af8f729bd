use chrono::DateTime;
use mpris::{ErrorKind, MetadataMap, Timestamp, TrackId, WireValue};

fn s(text: &str) -> WireValue {
    WireValue::Str(text.to_string())
}

fn strings(items: &[&str]) -> WireValue {
    WireValue::Array(items.iter().map(|t| s(t)).collect())
}

fn double(x: f64) -> WireValue {
    WireValue::Double(x.to_bits())
}

fn entry(key: &str, value: WireValue) -> (String, WireValue) {
    (key.to_string(), value)
}

fn instant(text: &str) -> Timestamp {
    let t = DateTime::parse_from_rfc3339(text).unwrap();
    Timestamp {
        seconds: t.timestamp(),
        nanoseconds: t.timestamp_subsec_nanos(),
        offset_seconds: t.offset().local_minus_utc(),
    }
}

#[test]
#[allow(non_snake_case)]
fn test_MetadataMap() {
    let mut example_map: Vec<(String, WireValue)> = Vec::with_capacity(22);
    example_map.push(entry("mpris:trackid", s("/foo/bar/baz")));
    example_map.push(entry("mpris:length", double(23 as f64)));
    example_map.push(entry("mpris:artUrl", s("/example/dir/art.png")));
    example_map.push(entry("xesam:album", s("example album")));
    example_map.push(entry("xesam:albumArtist", strings(&["example album artist"])));
    example_map.push(entry("xesam:artist", strings(&["example artist"])));
    example_map.push(entry("xesam:asText", s("example text")));
    example_map.push(entry("xesam:audioBPM", WireValue::UInt32(23)));
    example_map.push(entry("xesam:autoRating", double(0.31415)));
    example_map.push(entry("xesam:comment", strings(&["example comment"])));
    example_map.push(entry("xesam:composer", strings(&["example composer"])));
    example_map.push(entry("xesam:contentCreated", s("2007-04-29T14:35:51+02:00")));
    example_map.push(entry("xesam:discNumber", WireValue::UInt32(42)));
    example_map.push(entry("xesam:firstUsed", s("2008-04-29T14:35:51+02:00")));
    example_map.push(entry("xesam:genre", strings(&["example genre"])));
    example_map.push(entry("xesam:lastUsed", s("2009-04-29T14:35:51+02:00")));
    example_map.push(entry("xesam:lyricist", strings(&["example lyricist"])));
    example_map.push(entry("xesam:title", s("example title")));
    example_map.push(entry("xesam:trackNumber", WireValue::UInt32(23)));
    example_map.push(entry("xesam:url", s("/example/dir/url.mp3")));
    example_map.push(entry("xesam:userCount", WireValue::UInt32(42)));
    example_map.push(entry("xesam:userRating", double(0.31415)));

    let mmap = MetadataMap::from_map(example_map).unwrap();
    assert_eq!(mmap.trackid(), &TrackId::from_str("/foo/bar/baz").unwrap());

    assert_eq!(mmap.length().map(f64::from_bits), Some(23 as f64));
    assert_eq!(mmap.art_url(), Some("/example/dir/art.png".to_string()));
    assert_eq!(mmap.album(), Some("example album".to_string()));
    assert_eq!(mmap.album_artist(), Some(vec!["example album artist".to_string()]));
    assert_eq!(mmap.artist(), Some(vec!["example artist".to_string()]));
    assert_eq!(mmap.as_text(), Some("example text".to_string()));
    assert_eq!(mmap.audio_bpm(), Some(23));
    assert_eq!(mmap.auto_rating().map(f64::from_bits), Some(0.31415));
    assert_eq!(mmap.comment(), Some(vec!["example comment".to_string()]));
    assert_eq!(mmap.composer(), Some(vec!["example composer".to_string()]));
    assert_eq!(mmap.content_created(), Some(instant("2007-04-29T14:35:51+02:00")));
    assert_eq!(mmap.disc_number(), Some(42));
    assert_eq!(mmap.first_used(), Some(instant("2008-04-29T14:35:51+02:00")));
    assert_eq!(mmap.genre(), Some(vec!["example genre".to_string()]));
    assert_eq!(mmap.last_used(), Some(instant("2009-04-29T14:35:51+02:00")));
    assert_eq!(mmap.lyricist(), Some(vec!["example lyricist".to_string()]));
    assert_eq!(mmap.title(), Some("example title".to_string()));
    assert_eq!(mmap.track_number(), Some(23));
    assert_eq!(mmap.url(), Some("/example/dir/url.mp3".to_string()));
    assert_eq!(mmap.user_count(), Some(42));
    assert_eq!(mmap.user_rating().map(f64::from_bits), Some(0.31415));
}

#[test]
fn content_created_is_the_written_instant() {
    let m = MetadataMap::from_map(vec![
        entry("mpris:trackid", s("/t")),
        entry("xesam:contentCreated", s("2007-04-29T14:35:51+02:00")),
    ])
    .unwrap();
    // 2007-04-29T12:35:51Z
    assert_eq!(
        m.content_created(),
        Some(Timestamp { seconds: 1177850151, nanoseconds: 0, offset_seconds: 7200 })
    );
}

#[test]
fn malformed_date_reads_as_absent() {
    let m = MetadataMap::from_map(vec![
        entry("mpris:trackid", s("/t")),
        entry("xesam:firstUsed", s("yesterday")),
        entry("xesam:lastUsed", WireValue::Int32(7)),
    ])
    .unwrap();
    assert_eq!(m.first_used(), None);
    assert_eq!(m.last_used(), None);
}

#[test]
fn from_map_without_trackid_fails() {
    let r = MetadataMap::from_map(vec![entry("xesam:title", s("t"))]);
    assert!(matches!(r, Err(ErrorKind::GeneralError(_))));
    let r = MetadataMap::from_map(Vec::new());
    assert!(matches!(r, Err(ErrorKind::GeneralError(_))));
}

#[test]
fn from_map_with_non_string_trackid_fails_with_cast_error() {
    let r = MetadataMap::from_map(vec![entry("mpris:trackid", WireValue::Int32(5))]);
    match r {
        Err(ErrorKind::TypeCastError(_, to)) => assert_eq!(to, "&str"),
        other => panic!("unexpected: {:?}", other),
    }
}

#[test]
fn from_map_with_invalid_path_fails_with_build_error() {
    let r = MetadataMap::from_map(vec![entry("mpris:trackid", s("foo"))]);
    match r {
        Err(ErrorKind::TypeBuildError(ty, text)) => {
            assert_eq!(ty, "TrackId");
            assert_eq!(text, "foo");
        }
        other => panic!("unexpected: {:?}", other),
    }
}

#[test]
fn from_map_accepts_object_path_and_variant_trackid() {
    let m = MetadataMap::from_map(vec![entry("mpris:trackid", WireValue::ObjectPath("/a/b".to_string()))])
        .unwrap();
    assert_eq!(m.trackid().as_str(), "/a/b");
    let m = MetadataMap::from_map(vec![entry(
        "mpris:trackid",
        WireValue::Variant(Box::new(s("/c"))),
    )])
    .unwrap();
    assert_eq!(m.trackid().as_str(), "/c");
}

#[test]
fn later_entry_shadows_earlier_one() {
    let m = MetadataMap::from_map(vec![
        entry("mpris:trackid", s("/first")),
        entry("xesam:title", s("old")),
        entry("mpris:trackid", s("/second")),
        entry("xesam:title", s("new")),
    ])
    .unwrap();
    assert_eq!(m.trackid().as_str(), "/second");
    assert_eq!(m.title(), Some("new".to_string()));
}

#[test]
fn wrongly_typed_optional_fields_read_as_absent() {
    let m = MetadataMap::from_map(vec![
        entry("mpris:trackid", s("/t")),
        entry("xesam:title", WireValue::ObjectPath("/not/a/title".to_string())),
        entry("xesam:artist", WireValue::Array(vec![s("a"), WireValue::Int32(1)])),
        entry("xesam:userCount", WireValue::Int32(3)),
        entry("mpris:length", WireValue::Int64(10)),
    ])
    .unwrap();
    assert_eq!(m.title(), None);
    assert_eq!(m.artist(), None);
    assert_eq!(m.user_count(), None);
    assert_eq!(m.length(), None);
    assert_eq!(m.album(), None);
}

#[test]
fn counters_accept_unsigned_and_boolean_values() {
    let m = MetadataMap::from_map(vec![
        entry("mpris:trackid", s("/t")),
        entry("xesam:userCount", WireValue::Byte(7)),
        entry("xesam:discNumber", WireValue::Bool(true)),
        entry("xesam:trackNumber", WireValue::UInt64(0x1_0000_0005)),
    ])
    .unwrap();
    assert_eq!(m.user_count(), Some(7));
    assert_eq!(m.disc_number(), Some(1));
    assert_eq!(m.track_number(), Some(5));
}

#[test]
fn metadata_equality_compares_trackids_only() {
    let a = MetadataMap::from_map(vec![entry("mpris:trackid", s("/same")), entry("xesam:title", s("a"))])
        .unwrap();
    let b = MetadataMap::from_map(vec![entry("mpris:trackid", s("/same")), entry("xesam:genre", strings(&["g"]))])
        .unwrap();
    let c = MetadataMap::from_map(vec![entry("mpris:trackid", s("/other")), entry("xesam:title", s("a"))])
        .unwrap();
    assert!(a == a);
    assert!(a == b);
    assert!(b == a);
    assert!(a != c);
}

#[test]
fn timestamp_reads_rfc3339_only() {
    assert_eq!(
        Timestamp::from_rfc3339("1970-01-01T00:00:01.5Z"),
        Some(Timestamp { seconds: 1, nanoseconds: 500_000_000, offset_seconds: 0 })
    );
    assert_eq!(Timestamp::from_rfc3339("not a date"), None);
}
