//! The parsed shape of a playlist, and the trusted parse call.
//!
//! Parsing manifest bytes is the m3u8 crate's work and is treated as a black
//! box: its result is named by an uninterpreted function, and only what the
//! downloader's logic reads of it — variant URIs, bandwidths, resolutions,
//! segment URIs and key references — is carried in the library's own types.

use vstd::prelude::*;

verus! {

/// One quality option of a master playlist, as the resolver reads it.
#[derive(Debug)]
pub struct Variant {
    /// The variant's media-playlist URI, possibly relative.
    pub uri: String,
    /// The declared bandwidth.
    pub bandwidth: u64,
    /// The declared resolution as (width, height), when one is declared.
    pub resolution: Option<(u64, u64)>,
}

/// The mathematical value of a `Variant`.
pub struct VariantView {
    pub uri: Seq<char>,
    pub bandwidth: u64,
    pub resolution: Option<(u64, u64)>,
}

impl View for Variant {
    type V = VariantView;

    open spec fn view(&self) -> VariantView {
        VariantView { uri: self.uri@, bandwidth: self.bandwidth, resolution: self.resolution }
    }
}

/// One media segment, as the downloader and rewriter read it.
#[derive(Debug)]
pub struct Segment {
    /// The segment's URI, possibly relative.
    pub uri: String,
    /// The URI of the segment's encryption key, when it references one.
    pub key_uri: Option<String>,
}

/// The mathematical value of a `Segment`.
pub struct SegmentView {
    pub uri: Seq<char>,
    pub key_uri: Option<Seq<char>>,
}

impl View for Segment {
    type V = SegmentView;

    open spec fn view(&self) -> SegmentView {
        SegmentView { uri: self.uri@, key_uri: self.key_uri.deep_view() }
    }
}

/// The values of a sequence of variants.
pub open spec fn variant_views(vs: Seq<Variant>) -> Seq<VariantView> {
    vs.map_values(|v: Variant| v@)
}

/// The values of a sequence of segments.
pub open spec fn segment_views(sgs: Seq<Segment>) -> Seq<SegmentView> {
    sgs.map_values(|sg: Segment| sg@)
}

/// What parsing yields: a master playlist's variants, or a media playlist's
/// segments.
#[derive(Debug)]
pub enum Parsed {
    Master(Vec<Variant>),
    Media(Vec<Segment>),
}

/// The mathematical value of a `Parsed`.
pub enum ParsedView {
    Master(Seq<VariantView>),
    Media(Seq<SegmentView>),
}

impl View for Parsed {
    type V = ParsedView;

    open spec fn view(&self) -> ParsedView {
        match self {
            Parsed::Master(vs) => ParsedView::Master(variant_views(vs@)),
            Parsed::Media(sgs) => ParsedView::Media(segment_views(sgs@)),
        }
    }
}

/// What the m3u8 crate parses `bytes` into, when they are a well-formed
/// playlist: a function of the bytes alone.
pub uninterp spec fn parse_playlist_of(bytes: Seq<u8>) -> Option<ParsedView>;

/// Relies on m3u8_rs::parse_playlist_res: the parse depends on the bytes
/// alone, and distinguishes master from media playlists.
#[verifier::external_body]
pub(crate) fn parse_playlist(bytes: &[u8]) -> (r: Option<Parsed>)
    ensures
        (r is Some) == (parse_playlist_of(bytes@) is Some),
        r is Some ==> parse_playlist_of(bytes@) == Some(r.unwrap()@),
{
    let to_var = |v: m3u8_rs::VariantStream| Variant {
        uri: v.uri,
        bandwidth: v.bandwidth,
        resolution: v.resolution.map(|r| (r.width, r.height)),
    };
    let to_seg = |s: m3u8_rs::MediaSegment| Segment { uri: s.uri, key_uri: s.key.and_then(|k| k.uri) };
    match m3u8_rs::parse_playlist_res(bytes) {
        Ok(m3u8_rs::Playlist::MasterPlaylist(m)) => Some(Parsed::Master(m.variants.into_iter().map(to_var).collect())),
        Ok(m3u8_rs::Playlist::MediaPlaylist(m)) => Some(Parsed::Media(m.segments.into_iter().map(to_seg).collect())),
        Err(_) => None,
    }
}

} // verus!
