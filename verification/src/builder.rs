//! Downloader configuration, accumulated builder-style.
//!
//! The builder carries either the configuration gathered so far or the first
//! error it ran into; every setter keeps an error as it is, and the final
//! conversion into a runnable configuration surfaces it.

use vstd::prelude::*;
use vstd::string::{StrSliceExecFns, StringExecFns};
use crate::DownloadError;
use crate::strutil::str_eq;
use crate::urlutil::{normalize_url, url_norm_of};

verus! {

/// The configuration a builder gathers.
#[derive(Debug)]
pub struct BuilderPart {
    /// The normalized target URL.
    pub target: String,
    /// Where the download lands; the current directory when unset.
    pub save_dir: Option<String>,
    /// The local manifest's file name.
    pub index_name: String,
    /// The headers sent with every request, in insertion order.
    pub headers: Vec<(String, String)>,
    /// How many segment fetches may be in flight at once.
    pub max_download_concurrency: usize,
}

/// A ready-to-run configuration: `BuilderPart` with the directory defaulted.
#[derive(Debug)]
pub struct DownloadConfig {
    pub target: String,
    pub save_dir: String,
    pub index_name: String,
    pub headers: Vec<(String, String)>,
    pub max_download_concurrency: usize,
}

/// The header list as pairs of character sequences.
pub open spec fn headers_view(hs: Seq<(String, String)>) -> Seq<(Seq<char>, Seq<char>)> {
    hs.map_values(|p: (String, String)| (p.0@, p.1@))
}

/// Inserting a header: the first pair with this key is replaced in place;
/// with no such pair the new one is appended.
pub open spec fn headers_upsert(
    hs: Seq<(Seq<char>, Seq<char>)>,
    k: Seq<char>,
    v: Seq<char>,
) -> Seq<(Seq<char>, Seq<char>)>
    decreases hs.len(),
{
    if hs.len() == 0 {
        seq![(k, v)]
    } else if hs[0].0 == k {
        seq![(k, v)] + hs.subrange(1, hs.len() as int)
    } else {
        seq![hs[0]] + headers_upsert(hs.subrange(1, hs.len() as int), k, v)
    }
}

/// When the first pair keyed `k` stands at `j`, upserting updates it there.
pub proof fn lemma_upsert_at(hs: Seq<(Seq<char>, Seq<char>)>, k: Seq<char>, v: Seq<char>, j: int)
    requires
        0 <= j < hs.len(),
        hs[j].0 == k,
        forall|i: int| 0 <= i < j ==> (#[trigger] hs[i]).0 != k,
    ensures
        headers_upsert(hs, k, v) == hs.update(j, (k, v)),
    decreases j,
{
    let t = hs.subrange(1, hs.len() as int);
    if j == 0 {
        assert(seq![(k, v)] + t =~= hs.update(0, (k, v)));
    } else {
        assert(t[j - 1].0 == k);
        assert forall|i: int| 0 <= i < j - 1 implies (#[trigger] t[i]).0 != k by {
            assert(t[i] == hs[i + 1]);
        }
        lemma_upsert_at(t, k, v, j - 1);
        assert(seq![hs[0]] + t.update(j - 1, (k, v)) =~= hs.update(j, (k, v)));
    }
}

/// With no pair keyed `k`, upserting appends.
pub proof fn lemma_upsert_none(hs: Seq<(Seq<char>, Seq<char>)>, k: Seq<char>, v: Seq<char>)
    requires
        forall|i: int| 0 <= i < hs.len() ==> (#[trigger] hs[i]).0 != k,
    ensures
        headers_upsert(hs, k, v) == hs.push((k, v)),
    decreases hs.len(),
{
    let t = hs.subrange(1, hs.len() as int);
    if hs.len() == 0 {
        assert(seq![(k, v)] =~= hs.push((k, v)));
    } else {
        assert forall|i: int| 0 <= i < t.len() implies (#[trigger] t[i]).0 != k by {
            assert(t[i] == hs[i + 1]);
        }
        lemma_upsert_none(t, k, v);
        assert(seq![hs[0]] + t.push((k, v)) =~= hs.push((k, v)));
    }
}

/// The downloader's builder: the configuration so far, or the first error.
#[derive(Debug)]
pub struct DownloaderBuilder {
    pub inner: Result<BuilderPart, DownloadError>,
}

/// The local manifest's default file name.
pub fn index_file_name() -> (r: String)
    ensures
        r@ == "index.m3u8"@,
{
    String::from_str("index.m3u8")
}

impl DownloaderBuilder {
    /// Starts a build for `target`.  The URL is normalized up front; one that
    /// does not parse puts the builder into its error state.
    pub fn new(target: &str) -> (r: Self)
        ensures
            match url_norm_of(target@) {
                Some(t) => r.inner matches Ok(p) && p.target@ == t && p.save_dir is None
                    && p.index_name@ == "index.m3u8"@ && p.headers@.len() == 0
                    && p.max_download_concurrency == 10,
                None => r.inner == Err::<BuilderPart, DownloadError>(
                    DownloadError::ResolutionError,
                ),
            },
    {
        match normalize_url(target) {
            Some(t) => DownloaderBuilder {
                inner: Ok(
                    BuilderPart {
                        target: t,
                        save_dir: None,
                        index_name: index_file_name(),
                        headers: Vec::new(),
                        max_download_concurrency: 10,
                    },
                ),
            },
            None => DownloaderBuilder { inner: Err(DownloadError::ResolutionError) },
        }
    }

    /// Sets a header: replaces the first pair with this key, appends
    /// otherwise.  An errored builder is passed through unchanged.
    pub fn header(self, key: &str, val: &str) -> (r: Self)
        ensures
            match self.inner {
                Ok(p) => r.inner matches Ok(q) && q.target == p.target && q.save_dir == p.save_dir
                    && q.index_name == p.index_name && q.max_download_concurrency
                    == p.max_download_concurrency && headers_view(q.headers@) == headers_upsert(
                    headers_view(p.headers@),
                    key@,
                    val@,
                ),
                Err(e) => r.inner == Err::<BuilderPart, DownloadError>(e),
            },
    {
        match self.inner {
            Ok(mut p) => {
                let ghost p0 = p;
                let ghost hv = headers_view(p.headers@);
                let mut j: usize = 0;
                while j < p.headers.len()
                    invariant
                        self.inner == Ok::<BuilderPart, DownloadError>(p0),
                        0 <= j <= p.headers@.len(),
                        p.target == p0.target,
                        p.save_dir == p0.save_dir,
                        p.index_name == p0.index_name,
                        p.max_download_concurrency == p0.max_download_concurrency,
                        hv == headers_view(p.headers@),
                        hv == headers_view(p0.headers@),
                        forall|i: int| 0 <= i < j ==> (#[trigger] hv[i]).0 != key@,
                    decreases p.headers@.len() - j,
                {
                    proof {
                        assert(hv[j as int] == (p.headers@[j as int].0@, p.headers@[j as int].1@));
                    }
                    if str_eq(p.headers[j].0.as_str(), key) {
                        proof {
                            lemma_upsert_at(hv, key@, val@, j as int);
                        }
                        p.headers[j] = (key.to_owned(), val.to_owned());
                        proof {
                            assert(headers_view(p.headers@) =~= hv.update(
                                j as int,
                                (key@, val@),
                            ));
                        }
                        return DownloaderBuilder { inner: Ok(p) };
                    }
                    j += 1;
                }
                proof {
                    lemma_upsert_none(hv, key@, val@);
                }
                p.headers.push((key.to_owned(), val.to_owned()));
                proof {
                    assert(headers_view(p.headers@) =~= hv.push((key@, val@)));
                }
                DownloaderBuilder { inner: Ok(p) }
            },
            Err(e) => DownloaderBuilder { inner: Err(e) },
        }
    }

    /// Sets the destination directory.  An errored builder is passed through.
    pub fn save_dir(self, dir: &str) -> (r: Self)
        ensures
            match self.inner {
                Ok(p) => r.inner matches Ok(q) && q.target == p.target && (q.save_dir matches Some(
                    d,
                ) && d@ == dir@) && q.index_name == p.index_name && q.headers == p.headers
                    && q.max_download_concurrency == p.max_download_concurrency,
                Err(e) => r.inner == Err::<BuilderPart, DownloadError>(e),
            },
    {
        match self.inner {
            Ok(mut p) => {
                p.save_dir = Some(dir.to_owned());
                DownloaderBuilder { inner: Ok(p) }
            },
            Err(e) => DownloaderBuilder { inner: Err(e) },
        }
    }

    /// Sets the concurrency bound.  An errored builder is passed through.
    pub fn max_download_concurrency(self, max: usize) -> (r: Self)
        ensures
            match self.inner {
                Ok(p) => r.inner matches Ok(q) && q.target == p.target && q.save_dir == p.save_dir
                    && q.index_name == p.index_name && q.headers == p.headers
                    && q.max_download_concurrency == max,
                Err(e) => r.inner == Err::<BuilderPart, DownloadError>(e),
            },
    {
        match self.inner {
            Ok(mut p) => {
                p.max_download_concurrency = max;
                DownloaderBuilder { inner: Ok(p) }
            },
            Err(e) => DownloaderBuilder { inner: Err(e) },
        }
    }

    /// Surfaces the gathered configuration, defaulting the destination to the
    /// current directory, or the first error the builder ran into.
    pub fn into_config(self) -> (r: Result<DownloadConfig, DownloadError>)
        ensures
            match self.inner {
                Ok(p) => r matches Ok(c) && c.target == p.target && c.index_name == p.index_name
                    && c.headers == p.headers && c.max_download_concurrency
                    == p.max_download_concurrency && c.save_dir@ == (match p.save_dir {
                    Some(d) => d@,
                    None => "."@,
                }),
                Err(e) => r == Err::<DownloadConfig, DownloadError>(e),
            },
    {
        match self.inner {
            Ok(p) => {
                let save_dir = match p.save_dir {
                    Some(d) => d,
                    None => String::from_str("."),
                };
                Ok(
                    DownloadConfig {
                        target: p.target,
                        save_dir,
                        index_name: p.index_name,
                        headers: p.headers,
                        max_download_concurrency: p.max_download_concurrency,
                    },
                )
            },
            Err(e) => Err(e),
        }
    }
}

} // verus!
