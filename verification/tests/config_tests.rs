use m3u8_download::DownloadError;
use m3u8_download::builder::DownloaderBuilder;
use m3u8_download::cache::{DownloadRecord, cache_is_valid};
use m3u8_download::strutil::parse_key_val;
use m3u8_download::video::VideoUtil;

#[test]
fn builder_gathers_and_defaults() {
    let cfg = DownloaderBuilder::new("http://example.com")
        .header("User-Agent", "curl/7.54.0")
        .max_download_concurrency(4)
        .into_config()
        .unwrap();
    // the target comes back normalized, so the URL really went through parsing
    assert_eq!(cfg.target, "http://example.com/");
    assert_eq!(cfg.save_dir, ".");
    assert_eq!(cfg.index_name, "index.m3u8");
    assert_eq!(cfg.max_download_concurrency, 4);
    assert_eq!(cfg.headers.len(), 1);
    assert_eq!(cfg.headers[0].0, "User-Agent");
    assert_eq!(cfg.headers[0].1, "curl/7.54.0");
}

#[test]
fn builder_rejects_an_invalid_target() {
    let r = DownloaderBuilder::new("not a url").save_dir("out").into_config();
    assert_eq!(r.unwrap_err(), DownloadError::ResolutionError);
}

#[test]
fn builder_replaces_a_repeated_header_key() {
    let cfg = DownloaderBuilder::new("http://example.com")
        .header("Referer", "http://a/")
        .header("Cookie", "x=1")
        .header("Referer", "http://b/")
        .save_dir("out")
        .into_config()
        .unwrap();
    assert_eq!(cfg.save_dir, "out");
    assert_eq!(cfg.headers.len(), 2);
    assert_eq!(cfg.headers[0].0, "Referer");
    assert_eq!(cfg.headers[0].1, "http://b/");
    assert_eq!(cfg.headers[1].0, "Cookie");
}

#[test]
fn parse_key_val_splits_at_the_first_separator() {
    let (k, v) = parse_key_val("User-Agent: curl/7.54.0").unwrap();
    assert_eq!(k, "User-Agent");
    assert_eq!(v, "curl/7.54.0");
    let (k2, v2) = parse_key_val("a: b: c").unwrap();
    assert_eq!(k2, "a");
    assert_eq!(v2, "b: c");
    assert!(parse_key_val("no separator").is_err());
}

#[test]
fn cache_validates_only_a_matching_checksum() {
    let rec = DownloadRecord::new(
        String::from("http://example.com/"),
        vec![(String::from("User-Agent"), String::from("curl"))],
        String::from("8b03fae6a3d8ceb48df853ff5d5df2a9"),
    );
    assert!(cache_is_valid(&Some(rec), "8b03fae6a3d8ceb48df853ff5d5df2a9"));
    let other = DownloadRecord::new(
        String::from("http://example.com/"),
        Vec::new(),
        String::from("0000"),
    );
    assert!(!cache_is_valid(&Some(other), "8b03fae6a3d8ceb48df853ff5d5df2a9"));
    assert!(!cache_is_valid(&None, "8b03fae6a3d8ceb48df853ff5d5df2a9"));
}

#[test]
fn video_util_splits_the_index_path() {
    let v = VideoUtil::from_index("out/index.m3u8").unwrap();
    assert_eq!(v.index_dir(), "out");
    assert_eq!(v.index_file(), "index.m3u8");
    assert!(!v.verbose());

    let flat = VideoUtil::from_index("index.m3u8").unwrap();
    assert_eq!(flat.index_dir(), ".");
    assert_eq!(flat.index_file(), "index.m3u8");

    let r = VideoUtil::from_index("out/");
    assert_eq!(r.unwrap_err(), DownloadError::IOError);
}

#[test]
fn video_util_verbose_and_removal_targets() {
    let mut v = VideoUtil::from_index("out/index.m3u8").unwrap();
    v.enable_verbose();
    assert!(v.verbose());
    assert_eq!(v.removal_target("seg.ts"), "out/seg.ts");
    assert_eq!(v.removal_target("/abs/seg.ts"), "/abs/seg.ts");
}
