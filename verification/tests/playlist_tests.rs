use m3u8_download::parsing::Segment;
use m3u8_download::pathutil::basename;
use m3u8_download::playlist::M3U8MediaPlaylist;
use m3u8_download::resolver::{ResolveOutcome, ResolverState, resolve_step};

const KEYED: &str = "#EXTM3U\n#EXT-X-VERSION:3\n#EXT-X-TARGETDURATION:10\n#EXT-X-KEY:METHOD=AES-128,URI=\"keys/k.bin\",IV=0x9c7db8778570d29fa2ab5a2b5a0dce71\n#EXTINF:10,\nseg/001.ts\n#EXT-X-ENDLIST\n";

fn seg(uri: &str, key_uri: Option<&str>) -> Segment {
    Segment { uri: String::from(uri), key_uri: key_uri.map(String::from) }
}

#[test]
fn rewrite_round_trip_keeps_order_and_cuts_to_basenames() {
    let media = M3U8MediaPlaylist::new(
        vec![seg("seg/001.ts", None), seg("http://cdn/seg/002.ts", None)],
        String::from("sum"),
    );
    let local = media.localized_segments();
    assert_eq!(local.len(), 2);
    assert_eq!(local[0].uri, "001.ts");
    assert_eq!(local[1].uri, "002.ts");
    assert!(local[0].key_uri.is_none());
    assert!(local[1].key_uri.is_none());
}

#[test]
fn rewrite_cuts_key_references_too() {
    let media = M3U8MediaPlaylist::new(
        vec![seg("seg/001.ts", Some("keys/k.bin"))],
        String::from("sum"),
    );
    let local = media.localized_segments();
    assert_eq!(local[0].uri, "001.ts");
    assert_eq!(local[0].key_uri.as_deref(), Some("k.bin"));
}

#[test]
fn key_of_parsed_playlist_is_resolved_against_base() {
    let state = ResolverState::new(String::from("http://example.com/stream/index.m3u8"));
    match resolve_step(state, KEYED.as_bytes()).unwrap() {
        ResolveOutcome::Resolved(media) => {
            assert_eq!(media.key().as_deref(), Some("http://example.com/stream/keys/k.bin"));
            assert_eq!(media.content_sum(), "486eaa2e63248fdf7ba3fb5358ad3ba8");
        }
        ResolveOutcome::Redirect(_) => panic!("media playlist must resolve"),
    }
}

#[test]
fn format_url_joins_relative_and_keeps_absolute() {
    let mut media = M3U8MediaPlaylist::new(Vec::new(), String::from("sum"));
    assert_eq!(media.format_url("seg/001.ts"), "seg/001.ts");
    media.set_base_url(String::from("http://example.com/a/index.m3u8"));
    assert_eq!(media.format_url("seg/001.ts"), "http://example.com/a/seg/001.ts");
    assert_eq!(media.format_url("http://cdn/x.ts"), "http://cdn/x.ts");
    assert_eq!(media.format_url("../up.ts"), "http://example.com/up.ts");
}

#[test]
fn key_is_none_without_segments_or_reference() {
    let empty = M3U8MediaPlaylist::new(Vec::new(), String::from("sum"));
    assert!(empty.key().is_none());
    let plain = M3U8MediaPlaylist::new(vec![seg("a.ts", None)], String::from("sum"));
    assert!(plain.key().is_none());
}

#[test]
fn basename_takes_the_part_after_the_last_slash() {
    assert_eq!(basename("seg/001.ts"), "001.ts");
    assert_eq!(basename("http://cdn/a/b/c.ts"), "c.ts");
    assert_eq!(basename("plain.ts"), "plain.ts");
    assert_eq!(basename("trailing/"), "");
    assert_eq!(basename(""), "");
}
