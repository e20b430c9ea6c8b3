//! Path resolution: from the segments of a URL's path to a path in the file
//! system, through the symbolic links on the way.
//!
//! Reading a link is the caller's part. After each segment that counts, the
//! caller reads the path as a link for as long as it is one, and reports each
//! target with `follow`.

use crate::model::Segment;
use crate::outside::{joined_path, path_join};
use vstd::prelude::*;

verus! {

/// What a request's path resolved to.
#[derive(Clone, Debug, PartialEq, Eq)]
pub struct RequestPath {
    /// The path in the file system.
    pub path: String,
    /// Whether a symbolic link was followed on the way.
    pub followed_symlink: bool,
    /// Whether a segment could not be decoded.
    pub decode_error: bool,
}

/// What a `RequestPath` holds.
pub struct RequestPathView {
    pub path: Seq<char>,
    pub followed_symlink: bool,
    pub decode_error: bool,
}

impl View for RequestPath {
    type V = RequestPathView;

    open spec fn view(&self) -> RequestPathView {
        RequestPathView {
            path: self.path@,
            followed_symlink: self.followed_symlink,
            decode_error: self.decode_error,
        }
    }
}

impl DeepView for RequestPath {
    type V = RequestPathView;

    open spec fn deep_view(&self) -> RequestPathView {
        self@
    }
}

impl RequestPathView {
    /// The resolution after one more segment: an empty segment changes
    /// nothing, a segment that decodes is appended to the path, and one that
    /// does not is recorded as an error that stays.
    pub open spec fn append(self, segment: Segment) -> RequestPathView {
        if segment.raw@.len() == 0 {
            self
        } else {
            match segment.decoded {
                Some(d) => RequestPathView { path: joined_path(self.path, d@), ..self },
                None => RequestPathView { decode_error: true, ..self },
            }
        }
    }

    /// The resolution after the path was found to be a link to `target`.
    pub open spec fn follow(self, target: Seq<char>) -> RequestPathView {
        RequestPathView { path: target, followed_symlink: true, ..self }
    }

    /// The resolution after each of `targets` was followed in turn.
    pub open spec fn follow_all(self, targets: Seq<String>) -> RequestPathView
        decreases targets.len(),
    {
        if targets.len() == 0 {
            self
        } else {
            self.follow_all(targets.drop_last()).follow(targets.last()@)
        }
    }

    /// The resolution after the first `n` of `segments`, where `links[k]`
    /// holds the targets of the links that were followed after segment `k`.
    /// Links are looked for only after a segment that is not empty.
    pub open spec fn walk(self, segments: Seq<Segment>, links: Seq<Vec<String>>, n: nat) -> RequestPathView
        decreases n,
    {
        if n == 0 {
            self
        } else {
            let k = (n - 1) as int;
            let before = self.walk(segments, links, (n - 1) as nat);
            if segments[k].raw@.len() == 0 || k >= links.len() {
                before.append(segments[k])
            } else {
                before.append(segments[k]).follow_all(links[k]@)
            }
        }
    }
}

impl RequestPath {
    /// Where resolution starts: at `root`, with no link followed and no
    /// error.
    pub fn start(root: &str) -> (p: RequestPath)
        ensures
            p@ == (RequestPathView { path: root@, followed_symlink: false, decode_error: false }),
    {
        RequestPath { path: root.to_owned(), followed_symlink: false, decode_error: false }
    }

    /// Takes in the next segment of the URL's path. Returns whether the
    /// segment counts: after one that does, the path is to be read as a link.
    pub fn append(&mut self, segment: &Segment) -> (counts: bool)
        ensures
            final(self)@ == old(self)@.append(*segment),
            counts == (segment.raw@.len() != 0),
    {
        if segment.raw.as_str().unicode_len() == 0 {
            return false;
        }
        match &segment.decoded {
            Some(d) => {
                self.path = path_join(self.path.as_str(), d.as_str());
            },
            None => {
                self.decode_error = true;
            },
        }
        true
    }

    /// Takes in that the path is a symbolic link to `target`.
    pub fn follow(&mut self, target: String)
        ensures
            final(self)@ == old(self)@.follow(target@),
    {
        self.path = target;
        self.followed_symlink = true;
    }
}

} // verus!
