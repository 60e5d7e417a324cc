use m3u8_download::DownloadError;
use m3u8_download::hashing::content_checksum;
use m3u8_download::parsing::Variant;
use m3u8_download::resolver::{MAX_REDIRECTS, ResolveOutcome, ResolverState, resolve_step, select_variant};

const MEDIA: &str = "#EXTM3U\n#EXT-X-VERSION:3\n#EXT-X-TARGETDURATION:10\n#EXTINF:10,\nseg/001.ts\n#EXTINF:10,\nhttp://cdn/seg/002.ts\n#EXT-X-ENDLIST\n";

const MASTER: &str = "#EXTM3U\n#EXT-X-STREAM-INF:BANDWIDTH=1000,RESOLUTION=1280x720\na.m3u8\n#EXT-X-STREAM-INF:BANDWIDTH=500,RESOLUTION=1920x1080\nb.m3u8\n#EXT-X-STREAM-INF:BANDWIDTH=2000,RESOLUTION=1920x1080\nc.m3u8\n";

#[test]
fn media_playlist_resolves_with_checksum_and_base() {
    let state = ResolverState::new(String::from("http://example.com/stream/index.m3u8"));
    let out = resolve_step(state, MEDIA.as_bytes()).unwrap();
    match out {
        ResolveOutcome::Resolved(media) => {
            assert_eq!(media.content_sum(), "8b03fae6a3d8ceb48df853ff5d5df2a9");
            let segs = media.segments();
            assert_eq!(segs.len(), 2);
            assert_eq!(segs[0], "http://example.com/stream/seg/001.ts");
            assert_eq!(segs[1], "http://cdn/seg/002.ts");
            assert!(media.key().is_none());
        }
        ResolveOutcome::Redirect(_) => panic!("media playlist must resolve"),
    }
}

#[test]
fn master_playlist_redirects_to_highest_resolution_then_bandwidth() {
    let state = ResolverState::new(String::from("http://example.com/stream/master.m3u8"));
    let out = resolve_step(state, MASTER.as_bytes()).unwrap();
    match out {
        ResolveOutcome::Redirect(next) => {
            assert_eq!(next.url, "http://example.com/stream/c.m3u8");
            assert_eq!(next.hops, 1);
        }
        ResolveOutcome::Resolved(_) => panic!("master playlist must redirect"),
    }
}

#[test]
fn malformed_bytes_are_a_parse_error() {
    let state = ResolverState::new(String::from("http://example.com/x.m3u8"));
    let r = resolve_step(state, b"not a playlist");
    assert_eq!(r.unwrap_err(), DownloadError::ParseError);
}

#[test]
fn redirect_depth_is_bounded() {
    let state = ResolverState { url: String::from("http://example.com/master.m3u8"), hops: MAX_REDIRECTS };
    let r = resolve_step(state, MASTER.as_bytes());
    assert_eq!(r.unwrap_err(), DownloadError::ResolutionError);
}

#[test]
fn select_variant_prefers_resolution_then_bandwidth() {
    let vs = vec![
        Variant { uri: String::from("a.m3u8"), bandwidth: 1000, resolution: Some((1280, 720)) },
        Variant { uri: String::from("b.m3u8"), bandwidth: 500, resolution: Some((1920, 1080)) },
        Variant { uri: String::from("c.m3u8"), bandwidth: 2000, resolution: Some((1920, 1080)) },
    ];
    assert_eq!(select_variant(&vs), Some(2));
}

#[test]
fn select_variant_falls_back_to_bandwidth_without_full_resolutions() {
    let vs = vec![
        Variant { uri: String::from("a.m3u8"), bandwidth: 9000, resolution: None },
        Variant { uri: String::from("b.m3u8"), bandwidth: 500, resolution: Some((3840, 2160)) },
    ];
    assert_eq!(select_variant(&vs), Some(0));
}

#[test]
fn select_variant_handles_the_largest_resolutions() {
    let vs = vec![
        Variant { uri: String::from("a.m3u8"), bandwidth: 1, resolution: Some((u64::MAX, u64::MAX)) },
        Variant { uri: String::from("b.m3u8"), bandwidth: 99, resolution: Some((1, 1)) },
    ];
    assert_eq!(select_variant(&vs), Some(0));
    // equal resolutions and bandwidths: the later candidate wins the tie
    let tied = vec![
        Variant { uri: String::from("a.m3u8"), bandwidth: 7, resolution: Some((2, 2)) },
        Variant { uri: String::from("b.m3u8"), bandwidth: 7, resolution: Some((4, 1)) },
    ];
    assert_eq!(select_variant(&tied), Some(1));
}

#[test]
fn select_variant_of_nothing_is_none() {
    let vs: Vec<Variant> = Vec::new();
    assert!(select_variant(&vs).is_none());
}

#[test]
fn checksum_is_the_md5_hex_digest() {
    assert_eq!(content_checksum(b"abc"), "900150983cd24fb0d6963f7d28e17f72");
    assert_eq!(content_checksum(b""), "d41d8cd98f00b204e9800998ecf8427e");
}
