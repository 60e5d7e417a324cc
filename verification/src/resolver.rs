//! Playlist resolution: from a starting URL to a concrete media playlist.
//!
//! Each step parses fetched bytes.  A master playlist redirects to its best
//! variant — greatest resolution (pixel count) when every candidate declares
//! one, greatest declared bandwidth otherwise, later candidates winning ties
//! — with the redirect chain bounded.  A media playlist is terminal: its raw
//! bytes are checksummed and the fetch URL becomes the base URL.

use vstd::prelude::*;
use crate::DownloadError;
use crate::hashing::{content_checksum, md5_hex_of};
use crate::parsing::{
    Parsed, ParsedView, Variant, VariantView, parse_playlist, parse_playlist_of, variant_views,
};
use crate::playlist::M3U8MediaPlaylist;
use crate::urlutil::{join_url, url_join_of};

verus! {

/// The bound on master-playlist redirects before resolution fails.
pub const MAX_REDIRECTS: u32 = 30;

/// Whether every candidate declares a resolution.
pub open spec fn all_have_resolution(vs: Seq<VariantView>) -> bool {
    forall|i: int| 0 <= i < vs.len() ==> (#[trigger] vs[i]).resolution is Some
}

/// A variant's pixel count; zero with no declared resolution.
pub open spec fn pixels_of(v: VariantView) -> int {
    match v.resolution {
        Some(wh) => wh.0 as int * wh.1 as int,
        None => 0,
    }
}

/// The selection preorder: by pixel count, ties by bandwidth, when every
/// candidate declares a resolution; by declared bandwidth alone otherwise.
pub open spec fn variant_le(a: VariantView, b: VariantView, by_res: bool) -> bool {
    if by_res {
        pixels_of(a) < pixels_of(b) || (pixels_of(a) == pixels_of(b) && a.bandwidth <= b.bandwidth)
    } else {
        a.bandwidth <= b.bandwidth
    }
}

/// The preorder is total.
pub proof fn lemma_variant_le_total(a: VariantView, b: VariantView, by_res: bool)
    ensures
        variant_le(a, b, by_res) || variant_le(b, a, by_res),
{
}

/// The preorder is transitive.
pub proof fn lemma_variant_le_trans(a: VariantView, b: VariantView, c: VariantView, by_res: bool)
    requires
        variant_le(a, b, by_res),
        variant_le(b, c, by_res),
    ensures
        variant_le(a, c, by_res),
{
}

/// The index the resolver selects: the last maximal candidate under the
/// selection preorder.
pub open spec fn best_variant_index(vs: Seq<VariantView>, by_res: bool) -> int
    decreases vs.len(),
{
    if vs.len() <= 1 {
        0
    } else {
        let b = best_variant_index(vs.drop_last(), by_res);
        if variant_le(vs[b], vs.last(), by_res) {
            vs.len() - 1
        } else {
            b
        }
    }
}

/// The selected index is in range.
pub proof fn lemma_best_variant_index_in_range(vs: Seq<VariantView>, by_res: bool)
    requires
        vs.len() > 0,
    ensures
        0 <= best_variant_index(vs, by_res) < vs.len(),
    decreases vs.len(),
{
    if vs.len() > 1 {
        lemma_best_variant_index_in_range(vs.drop_last(), by_res);
    }
}

/// Selection determinism: the selected variant is greater-or-equal to every
/// candidate, and strictly greater than every later one — so the greatest
/// resolution wins when all declare one, bandwidth breaks resolution ties,
/// and the whole choice is a function of the candidate list.
pub proof fn lemma_selection_is_greatest(vs: Seq<VariantView>, by_res: bool)
    requires
        vs.len() > 0,
    ensures
        0 <= best_variant_index(vs, by_res) < vs.len(),
        forall|j: int| 0 <= j < vs.len() ==> variant_le(
            #[trigger] vs[j],
            vs[best_variant_index(vs, by_res)],
            by_res,
        ),
        forall|j: int| best_variant_index(vs, by_res) < j < vs.len() ==> !variant_le(
            vs[best_variant_index(vs, by_res)],
            #[trigger] vs[j],
            by_res,
        ),
    decreases vs.len(),
{
    lemma_best_variant_index_in_range(vs, by_res);
    if vs.len() > 1 {
        let pre = vs.drop_last();
        let bp = best_variant_index(pre, by_res);
        let b = best_variant_index(vs, by_res);
        lemma_selection_is_greatest(pre, by_res);
        assert forall|j: int| 0 <= j < vs.len() implies variant_le(
            #[trigger] vs[j],
            vs[b],
            by_res,
        ) by {
            if j < vs.len() - 1 {
                assert(pre[j] == vs[j]);
                assert(variant_le(pre[j], pre[bp], by_res));
                if b == vs.len() - 1 {
                    lemma_variant_le_trans(vs[j], vs[bp], vs.last(), by_res);
                }
            } else {
                if b == vs.len() - 1 {
                } else {
                    lemma_variant_le_total(vs[bp], vs.last(), by_res);
                }
            }
        }
        assert forall|j: int| b < j < vs.len() implies !variant_le(
            vs[b],
            #[trigger] vs[j],
            by_res,
        ) by {
            if j < vs.len() - 1 {
                assert(pre[j] == vs[j]);
            }
        }
    }
}

/// Whether every candidate declares a resolution.
fn all_resolutions(vs: &Vec<Variant>) -> (r: bool)
    ensures
        r == all_have_resolution(variant_views(vs@)),
{
    let mut i: usize = 0;
    while i < vs.len()
        invariant
            0 <= i <= vs@.len(),
            forall|j: int| 0 <= j < i ==> (#[trigger] variant_views(vs@)[j]).resolution is Some,
        decreases vs@.len() - i,
    {
        proof {
            assert(variant_views(vs@)[i as int] == vs@[i as int]@);
        }
        if vs[i].resolution.is_none() {
            return false;
        }
        i += 1;
    }
    true
}

/// A variant's pixel count, wide enough that it cannot overflow.
fn pixels(v: &Variant) -> (r: u128)
    ensures
        r as int == pixels_of(v@),
{
    match v.resolution {
        Some((w, h)) => {
            proof {
                assert((w as int) * (h as int) <= (u64::MAX as int) * (u64::MAX as int)
                    && 0 <= (w as int) * (h as int)) by (nonlinear_arith)
                    requires
                        0 <= w as int <= u64::MAX as int,
                        0 <= h as int <= u64::MAX as int,
                ;
            }
            (w as u128) * (h as u128)
        },
        None => 0,
    }
}

/// The selection preorder, decided.
fn variant_le_exec(a: &Variant, b: &Variant, by_res: bool) -> (r: bool)
    ensures
        r == variant_le(a@, b@, by_res),
{
    if by_res {
        let pa = pixels(a);
        let pb = pixels(b);
        pa < pb || (pa == pb && a.bandwidth <= b.bandwidth)
    } else {
        a.bandwidth <= b.bandwidth
    }
}

/// Selects the variant to follow: the last maximal candidate — greatest
/// resolution first when every candidate declares one, greatest bandwidth
/// otherwise.  `None` exactly on an empty candidate list.
pub fn select_variant(vs: &Vec<Variant>) -> (r: Option<usize>)
    ensures
        (r is Some) == (vs@.len() > 0),
        r matches Some(b) ==> b < vs@.len() && b as int == best_variant_index(
            variant_views(vs@),
            all_have_resolution(variant_views(vs@)),
        ),
{
    if vs.len() == 0 {
        return None;
    }
    let by_res = all_resolutions(vs);
    let ghost views = variant_views(vs@);
    let mut best: usize = 0;
    let mut i: usize = 1;
    while i < vs.len()
        invariant
            1 <= i <= vs@.len(),
            best < i,
            views == variant_views(vs@),
            by_res == all_have_resolution(views),
            best as int == best_variant_index(views.subrange(0, i as int), by_res),
        decreases vs@.len() - i,
    {
        let take = variant_le_exec(&vs[best], &vs[i], by_res);
        proof {
            let prev = views.subrange(0, i as int);
            let cur = views.subrange(0, i + 1 as int);
            assert(cur.drop_last() =~= prev);
            assert(cur.last() == views[i as int]);
            assert(views[i as int] == vs@[i as int]@);
            assert(views[best as int] == vs@[best as int]@);
            assert(prev[best as int] == views[best as int]);
            lemma_best_variant_index_in_range(cur, by_res);
            assert(best_variant_index(cur, by_res) == if take {
                cur.len() - 1
            } else {
                best as int
            });
        }
        if take {
            best = i;
        }
        i += 1;
    }
    proof {
        assert(views.subrange(0, vs@.len() as int) =~= views);
    }
    Some(best)
}

/// Where resolution stands: the URL to fetch next, and how many redirects
/// it took to get there.
#[derive(Debug)]
pub struct ResolverState {
    /// The URL whose bytes the next step will examine.
    pub url: String,
    /// How many master-playlist redirects have been followed.
    pub hops: u32,
}

impl ResolverState {
    /// Resolution starts at the target URL with no redirects followed.
    pub fn new(url: String) -> (r: Self)
        ensures
            r.url@ == url@,
            r.hops == 0,
    {
        ResolverState { url, hops: 0 }
    }
}

/// What one resolution step decides: follow a redirect, or stop at a concrete
/// media playlist.
#[derive(Debug)]
pub enum ResolveOutcome {
    /// A master playlist pointed at this next state.
    Redirect(ResolverState),
    /// A media playlist was reached.
    Resolved(M3U8MediaPlaylist),
}

/// One step of playlist resolution on the bytes fetched from `state.url`.
///
/// Malformed bytes fail with `ParseError`.  A master playlist with no
/// variants, an unresolvable chosen URI, or a chain past `MAX_REDIRECTS`
/// fails with `ResolutionError`; otherwise it redirects to the selected
/// variant's URI joined against the current URL.  A media playlist resolves:
/// the returned playlist carries the fetched bytes' checksum, the current URL
/// as base, and the parsed segments.
pub fn resolve_step(state: ResolverState, bytes: &[u8]) -> (r: Result<
    ResolveOutcome,
    DownloadError,
>)
    ensures
        parse_playlist_of(bytes@) is None ==> r == Err::<ResolveOutcome, DownloadError>(
            DownloadError::ParseError,
        ),
        parse_playlist_of(bytes@) matches Some(ParsedView::Master(vs)) ==> (if vs.len() == 0
            || state.hops >= MAX_REDIRECTS {
            r == Err::<ResolveOutcome, DownloadError>(DownloadError::ResolutionError)
        } else {
            match url_join_of(state.url@, vs[best_variant_index(vs, all_have_resolution(vs))].uri) {
                Some(next) => r matches Ok(ResolveOutcome::Redirect(st)) && st.url@ == next
                    && st.hops == state.hops + 1,
                None => r == Err::<ResolveOutcome, DownloadError>(DownloadError::ResolutionError),
            }
        }),
        parse_playlist_of(bytes@) matches Some(ParsedView::Media(sgs)) ==> (r matches Ok(
            ResolveOutcome::Resolved(m),
        ) && m@.base_url == Some(state.url@) && m@.segments == sgs && m@.content_sum == md5_hex_of(
            bytes@,
        )),
{
    match parse_playlist(bytes) {
        None => Err(DownloadError::ParseError),
        Some(Parsed::Master(variants)) => {
            if variants.len() == 0 {
                return Err(DownloadError::ResolutionError);
            }
            if state.hops >= MAX_REDIRECTS {
                return Err(DownloadError::ResolutionError);
            }
            match select_variant(&variants) {
                None => Err(DownloadError::ResolutionError),
                Some(b) => {
                    proof {
                        assert(variant_views(variants@)[b as int] == variants@[b as int]@);
                    }
                    match join_url(state.url.as_str(), variants[b].uri.as_str()) {
                        Some(next) => Ok(ResolveOutcome::Redirect(
                            ResolverState { url: next, hops: state.hops + 1 },
                        )),
                        None => Err(DownloadError::ResolutionError),
                    }
                },
            }
        },
        Some(Parsed::Media(segments)) => {
            let sum = content_checksum(bytes);
            let mut media = M3U8MediaPlaylist::new(segments, sum);
            media.set_base_url(state.url);
            Ok(ResolveOutcome::Resolved(media))
        },
    }
}

} // verus!
