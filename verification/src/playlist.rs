//! The resolved media playlist: the terminal state of playlist resolution.
//!
//! It holds the effective base URL (set once, after the last redirect), the
//! parsed segment descriptors, and the content checksum of the raw playlist
//! bytes, and it computes the downloader's resource URLs and the rewritten
//! local references.

use vstd::prelude::*;
use crate::parsing::{Segment, SegmentView, segment_views};
use crate::pathutil::{basename, basename_of};
use crate::urlutil::{resolve_uri, resolved_uri_of};

verus! {

/// The mathematical value of an `M3U8MediaPlaylist`.
pub struct MediaPlaylistView {
    pub base_url: Option<Seq<char>>,
    pub segments: Seq<SegmentView>,
    pub content_sum: Seq<char>,
}

/// A concrete (non-master) playlist, its base URL and its content checksum.
#[derive(Debug)]
pub struct M3U8MediaPlaylist {
    base_url: Option<String>,
    segments: Vec<Segment>,
    content_sum: String,
}

impl View for M3U8MediaPlaylist {
    type V = MediaPlaylistView;

    closed spec fn view(&self) -> MediaPlaylistView {
        MediaPlaylistView {
            base_url: self.base_url.deep_view(),
            segments: segment_views(self.segments@),
            content_sum: self.content_sum@,
        }
    }
}

/// A segment's local rewriting: its URI and key reference cut to basenames.
pub open spec fn localized_segment_of(sg: SegmentView) -> SegmentView {
    SegmentView {
        uri: basename_of(sg.uri),
        key_uri: match sg.key_uri {
            Some(k) => Some(basename_of(k)),
            None => None,
        },
    }
}

/// The local rewriting of a whole segment list, in order.
pub open spec fn localized_of(sgs: Seq<SegmentView>) -> Seq<SegmentView> {
    sgs.map_values(|sg: SegmentView| localized_segment_of(sg))
}

/// The rewriting keeps the segment count and order, and replaces every
/// segment URI and every key URI by its basename, touching nothing else.
pub proof fn lemma_rewrite_round_trip(sgs: Seq<SegmentView>)
    ensures
        localized_of(sgs).len() == sgs.len(),
        forall|i: int| 0 <= i < sgs.len() ==> #[trigger] localized_of(sgs)[i].uri
            == basename_of(sgs[i].uri),
        forall|i: int| 0 <= i < sgs.len() ==> ((#[trigger] localized_of(sgs)[i].key_uri) is Some
            <==> sgs[i].key_uri is Some),
        forall|i: int| 0 <= i < sgs.len() ==> ((#[trigger] sgs[i].key_uri) matches Some(orig)
            ==> localized_of(sgs)[i].key_uri == Some(basename_of(orig))),
{
    assert forall|i: int| 0 <= i < sgs.len() implies #[trigger] localized_of(sgs)[i]
        == localized_segment_of(sgs[i]) by {
    }
}

impl M3U8MediaPlaylist {
    /// A freshly resolved playlist: no base URL yet, the given segments and
    /// checksum.
    pub fn new(segments: Vec<Segment>, sum: String) -> (r: Self)
        ensures
            r@.base_url is None,
            r@.segments == segment_views(segments@),
            r@.content_sum == sum@,
    {
        M3U8MediaPlaylist { base_url: None, segments, content_sum: sum }
    }

    /// The checksum of the raw playlist bytes this playlist was parsed from.
    pub fn content_sum(&self) -> (r: &str)
        ensures
            r@ == self@.content_sum,
    {
        self.content_sum.as_str()
    }

    /// Records the final, post-redirect URL as the base for relative
    /// references; everything else is kept.
    pub fn set_base_url(&mut self, base_url: String)
        ensures
            final(self)@.base_url == Some(base_url@),
            final(self)@.segments == old(self)@.segments,
            final(self)@.content_sum == old(self)@.content_sum,
    {
        self.base_url = Some(base_url);
    }

    /// Resolves a candidate URI against this playlist's base URL,
    /// best-effort: absolute HTTP(S) URIs and unresolvable ones pass through.
    pub fn format_url(&self, uri: &str) -> (r: String)
        ensures
            r@ == resolved_uri_of(self@.base_url, uri@),
    {
        resolve_uri(&self.base_url, uri)
    }

    /// Every segment's fetch URL, in playlist order.
    pub fn segments(&self) -> (r: Vec<String>)
        ensures
            r@.len() == self@.segments.len(),
            forall|i: int| 0 <= i < r@.len() ==> (#[trigger] r@[i])@ == resolved_uri_of(
                self@.base_url,
                self@.segments[i].uri,
            ),
    {
        let mut r: Vec<String> = Vec::new();
        let mut i: usize = 0;
        while i < self.segments.len()
            invariant
                0 <= i <= self.segments@.len(),
                r@.len() == i,
                forall|j: int| 0 <= j < i ==> (#[trigger] r@[j])@ == resolved_uri_of(
                    self@.base_url,
                    self@.segments[j].uri,
                ),
            decreases self.segments@.len() - i,
        {
            let resolved = resolve_uri(&self.base_url, self.segments[i].uri.as_str());
            r.push(resolved);
            i += 1;
        }
        r
    }

    /// The encryption key's fetch URL: the first segment's key reference,
    /// resolved, when the playlist has one.
    pub fn key(&self) -> (r: Option<String>)
        ensures
            match r {
                Some(k) => self@.segments.len() > 0 && self@.segments[0].key_uri is Some
                    && k@ == resolved_uri_of(self@.base_url, self@.segments[0].key_uri.unwrap()),
                None => self@.segments.len() == 0 || self@.segments[0].key_uri is None,
            },
    {
        if self.segments.len() == 0 {
            return None;
        }
        match &self.segments[0].key_uri {
            Some(k) => Some(resolve_uri(&self.base_url, k.as_str())),
            None => None,
        }
    }

    /// The segments rewritten for local playback: every segment URI and key
    /// URI replaced by its basename, order and count kept.  The caller writes
    /// these back into the manifest it serializes.
    pub fn localized_segments(&self) -> (r: Vec<Segment>)
        ensures
            segment_views(r@) == localized_of(self@.segments),
    {
        let mut r: Vec<Segment> = Vec::new();
        let mut i: usize = 0;
        while i < self.segments.len()
            invariant
                0 <= i <= self.segments@.len(),
                r@.len() == i,
                forall|j: int| 0 <= j < i ==> #[trigger] segment_views(r@)[j]
                    == localized_segment_of(segment_views(self.segments@)[j]),
            decreases self.segments@.len() - i,
        {
            let sg = &self.segments[i];
            let key_uri = match &sg.key_uri {
                Some(k) => Some(basename(k.as_str())),
                None => None,
            };
            let localized = Segment { uri: basename(sg.uri.as_str()), key_uri };
            proof {
                let sv = segment_views(self.segments@)[i as int];
                assert(sv == self.segments@[i as int]@);
                assert(localized@.uri == basename_of(sv.uri));
                if sg.key_uri is Some {
                    assert(localized@.key_uri == Some(basename_of(sv.key_uri.unwrap())));
                } else {
                    assert(localized@.key_uri is None);
                }
                assert(localized@ == localized_segment_of(sv));
            }
            let ghost r0 = r@;
            let ghost lv = localized@;
            r.push(localized);
            proof {
                assert forall|j: int| 0 <= j < i + 1 implies #[trigger] segment_views(r@)[j]
                    == localized_segment_of(segment_views(self.segments@)[j]) by {
                    assert(segment_views(r@)[j] == r@[j]@);
                    if j < i {
                        assert(r@[j] == r0[j]);
                        assert(segment_views(r0)[j] == r0[j]@);
                    } else {
                        assert(r@[j]@ == lv);
                    }
                }
            }
            i += 1;
        }
        proof {
            assert(segment_views(r@) =~= localized_of(self@.segments));
        }
        r
    }
}

} // verus!
