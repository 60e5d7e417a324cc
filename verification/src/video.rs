//! Locating the downloaded index and the files around it.
//!
//! The external muxer and player are run by the caller; this type holds the
//! verified path arithmetic: splitting the index path into directory and file
//! name, and computing which path a segment reference removes to.

use vstd::prelude::*;
use vstd::string::{StrSliceExecFns, StringExecFns};
use crate::DownloadError;
use crate::pathutil::{basename_of, lemma_basename_no_slash, lemma_basename_split};

verus! {

/// Whether `s` holds a '/' anywhere.
pub open spec fn has_slash(s: Seq<char>) -> bool {
    exists|i: int| 0 <= i < s.len() && s[i] == '/'
}

/// The directory part of a path: the prefix before the last '/', or "."
/// when it has none.
pub open spec fn dirname_of(s: Seq<char>) -> Seq<char> {
    if has_slash(s) {
        s.subrange(0, s.len() - basename_of(s).len() - 1)
    } else {
        "."@
    }
}

/// Where a segment reference is removed from: an absolute path as it stands,
/// anything else under the index directory.
pub open spec fn removal_target_of(dir: Seq<char>, name: Seq<char>) -> Seq<char> {
    if name.len() > 0 && name[0] == '/' {
        name
    } else {
        dir + seq!['/'] + name
    }
}

/// The mathematical value of a `VideoUtil`.
pub struct VideoUtilView {
    pub verbos: bool,
    pub index_dir: Seq<char>,
    pub index_file: Seq<char>,
}

/// The local manifest's place on disk, split into directory and file name.
#[derive(Debug)]
pub struct VideoUtil {
    verbos: bool,
    index_dir: String,
    index_file: String,
}

impl View for VideoUtil {
    type V = VideoUtilView;

    closed spec fn view(&self) -> VideoUtilView {
        VideoUtilView {
            verbos: self.verbos,
            index_dir: self.index_dir@,
            index_file: self.index_file@,
        }
    }
}

impl VideoUtil {
    /// Splits the index path at its last '/': the prefix is the working
    /// directory ("." when there is no '/'), the suffix the file name.
    /// Fails exactly when the file-name part is empty.
    pub fn from_index(index: &str) -> (r: Result<VideoUtil, DownloadError>)
        ensures
            (r is Ok) == (basename_of(index@).len() > 0),
            r matches Ok(v) ==> v@.index_dir == dirname_of(index@) && v@.index_file
                == basename_of(index@) && !v@.verbos,
            r is Err ==> r == Err::<VideoUtil, DownloadError>(DownloadError::IOError),
    {
        let n = index.unicode_len();
        let mut cut: usize = 0;
        let mut i: usize = 0;
        while i < n
            invariant
                n == index@.len(),
                0 <= cut <= i <= n,
                forall|m: int| cut <= m < i ==> index@[m] != '/',
                cut > 0 ==> index@[cut - 1] == '/',
            decreases n - i,
        {
            if index.get_char(i) == '/' {
                cut = i + 1;
            }
            i += 1;
        }
        if cut == n {
            proof {
                if cut == 0 {
                    lemma_basename_no_slash(index@);
                } else {
                    lemma_basename_split(index@, cut - 1);
                }
            }
            return Err(DownloadError::IOError);
        }
        let file = index.substring_char(cut, n).to_owned();
        let dir = if cut == 0 {
            proof {
                lemma_basename_no_slash(index@);
            }
            String::from_str(".")
        } else {
            proof {
                lemma_basename_split(index@, cut - 1);
                assert(has_slash(index@)) by {
                    assert(0 <= cut - 1 < index@.len() && index@[cut - 1] == '/');
                }
            }
            index.substring_char(0, cut - 1).to_owned()
        };
        Ok(VideoUtil { verbos: false, index_dir: dir, index_file: file })
    }

    /// Switches the external tools to verbose output; nothing else changes.
    pub fn enable_verbose(&mut self)
        ensures
            final(self)@.verbos,
            final(self)@.index_dir == old(self)@.index_dir,
            final(self)@.index_file == old(self)@.index_file,
    {
        self.verbos = true;
    }

    /// Whether verbose output was requested.
    pub fn verbose(&self) -> (r: bool)
        ensures
            r == self@.verbos,
    {
        self.verbos
    }

    /// The directory the index file stands in.
    pub fn index_dir(&self) -> (r: &str)
        ensures
            r@ == self@.index_dir,
    {
        self.index_dir.as_str()
    }

    /// The index file's name inside its directory.
    pub fn index_file(&self) -> (r: &str)
        ensures
            r@ == self@.index_file,
    {
        self.index_file.as_str()
    }

    /// The path a segment reference is removed from when the segments are
    /// cleaned up after a merge.
    pub fn removal_target(&self, name: &str) -> (r: String)
        ensures
            r@ == removal_target_of(self@.index_dir, name@),
    {
        if name.unicode_len() > 0 && name.get_char(0) == '/' {
            return name.to_owned();
        }
        let mut r = self.index_dir.clone();
        r.append("/");
        r.append(name);
        proof {
            reveal_strlit("/");
            assert("/"@ =~= seq!['/']);
        }
        r
    }
}

} // verus!
