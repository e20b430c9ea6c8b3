//! Directories: answered with their index file where index files are looked
//! for and one is there, else with a listing.

use crate::listing::{is_listing_of, listing_fields, listing_keeps_validity, listing_order, write_listing_fields, DirEntry};
use crate::model::{
    Body, BodyView, FileInfo, FileTime, Header, HeaderView, Page, PageView, Request, Response, ResponseView,
    Step, StepView, Template,
};
use crate::ops::HttpHandler;
use crate::outside::{
    is_usable_extension, joined_path, path_join, path_with_extension, usable_extension, with_extension,
};
use crate::status::Status;
use vstd::prelude::*;

verus! {

/// The path of the index file of a directory under an extension. There is
/// none under an extension that holds a path separator.
pub open spec fn index_path(dir: Seq<char>, extension: Seq<char>) -> Option<Seq<char>> {
    if usable_extension(extension) {
        Some(path_with_extension(joined_path(dir, "index"@), extension))
    } else {
        None
    }
}

/// The path of the index file of a directory under an extension.
pub fn index_path_of(dir: &str, extension: &str) -> (r: Option<String>)
    ensures
        r.deep_view() == index_path(dir@, extension@),
{
    if is_usable_extension(extension) {
        Some(with_extension(path_join(dir, "index").as_str(), extension))
    } else {
        None
    }
}

/// The first place from `from` on, and before `limit`, at which a file was
/// found.
pub open spec fn first_found(found: Seq<Option<FileInfo>>, limit: int, from: int) -> Option<int>
    decreases limit - from,
{
    if from >= limit || from < 0 || from >= found.len() {
        None
    } else if found[from].is_some() {
        Some(from)
    } else {
        first_found(found, limit, from + 1)
    }
}

fn find_first(found: &Vec<Option<FileInfo>>, limit: usize) -> (r: Option<usize>)
    ensures
        match r {
            Some(i) => first_found(found@, limit as int, 0) == Some(i as int) && i < found@.len() && i
                < limit && found@[i as int].is_some(),
            None => first_found(found@, limit as int, 0).is_none(),
        },
{
    let mut i: usize = 0;
    while i < limit && i < found.len()
        invariant
            first_found(found@, limit as int, 0) == first_found(found@, limit as int, i as int),
        decreases found.len() - i,
    {
        if found[i].is_some() {
            return Some(i);
        }
        i += 1;
    }
    None
}

impl HttpHandler {
    /// Where the index files of a directory are looked for, in order: under
    /// each index extension where index files are looked for at all, nowhere
    /// where they are not.
    pub fn index_candidates(&self, dir: &str) -> (paths: Vec<Option<String>>)
        ensures
            paths@.len() == if self.check_indices {
                self.index_extensions@.len()
            } else {
                0
            },
            forall|i: int|
                0 <= i < paths@.len() ==> (#[trigger] paths@[i]).deep_view() == index_path(
                    dir@,
                    self.index_extensions@[i]@,
                ),
    {
        let mut paths: Vec<Option<String>> = Vec::new();
        if self.check_indices {
            let mut i: usize = 0;
            while i < self.index_extensions.len()
                invariant
                    i <= self.index_extensions@.len(),
                    paths@.len() == i,
                    forall|k: int|
                        0 <= k < i ==> (#[trigger] paths@[k]).deep_view() == index_path(
                            dir@,
                            self.index_extensions@[k]@,
                        ),
                decreases self.index_extensions.len() - i,
            {
                paths.push(index_path_of(dir, self.index_extensions[i].as_str()));
                i += 1;
            }
        }
        paths
    }

    /// A directory with an index file, asked for without a separator at its
    /// end: status 301, to the same URL with a separator at its end.
    pub open spec fn spec_handle_get_dir_index_no_slash(&self, req: &Request) -> StepView {
        StepView::Respond(
            ResponseView {
                status: Status::MovedPermanently,
                headers: seq![
                    HeaderView::Server(self.user_agent@),
                    HeaderView::Location(req.url@ + "/"@),
                ],
                body: BodyView::Empty,
            },
        )
    }

    /// Redirects a request for a directory with an index file to the same
    /// URL with a separator at its end.
    pub fn handle_get_dir_index_no_slash(&self, req: &Request, idx_ext: &str) -> (step: Step)
        ensures
            step@ == self.spec_handle_get_dir_index_no_slash(req),
    {
        let mut new_url = req.url.clone();
        new_url.append("/");
        let mut headers: Vec<Header> = Vec::new();
        headers.push(Header::Server(self.user_agent.clone()));
        headers.push(Header::Location(new_url));
        assert(headers.deep_view() =~= seq![
            HeaderView::Server(self.user_agent@),
            HeaderView::Location(req.url@ + "/"@),
        ]);
        Step::Respond(Response { status: Status::MovedPermanently, headers, body: Body::Empty })
    }

    /// What a directory is answered with, given for each index extension the
    /// file found under it. Where index files are looked for and one is
    /// there, the first such file is served like any file if the URL ends in
    /// a separator, and the request is redirected if it does not. Else the
    /// directory is to be listed. For a file found under an extension that
    /// no index file can have, nothing can be done.
    pub open spec fn spec_handle_get_dir(&self, req: &Request, path: Seq<char>, found: Seq<Option<FileInfo>>) -> StepView {
        if self.check_indices {
            match first_found(found, self.index_extensions@.len() as int, 0) {
                Some(i) => if req.spec_ends_in_separator() {
                    match index_path(path, self.index_extensions@[i]@) {
                        Some(index) => self.spec_handle_get_file(req, index, found[i].unwrap()),
                        None => StepView::Fault,
                    }
                } else {
                    self.spec_handle_get_dir_index_no_slash(req)
                },
                None => StepView::ReadDir { dir: path },
            }
        } else {
            StepView::ReadDir { dir: path }
        }
    }

    /// Answers a request for a directory, given for each index extension, in
    /// order, the file found under it.
    pub fn handle_get_dir(&self, req: &Request, req_p: &str, found: &Vec<Option<FileInfo>>) -> (step: Step)
        ensures
            step@ == self.spec_handle_get_dir(req, req_p@, found@),
    {
        if self.check_indices {
            match find_first(found, self.index_extensions.len()) {
                Some(i) => {
                    let extension = self.index_extensions[i].as_str();
                    if req.ends_in_separator() {
                        match (&found[i], index_path_of(req_p, extension)) {
                            (Some(info), Some(index)) => {
                                return self.handle_get_file(req, index.as_str(), info);
                            },
                            _ => {
                                return Step::Fault;
                            },
                        }
                    } else {
                        return self.handle_get_dir_index_no_slash(req, extension);
                    }
                },
                None => {},
            }
        }
        Step::ReadDir { dir: req_p.to_owned() }
    }

    /// The listing of a directory for entries in the order given: status 200
    /// and the fields of the listing page.
    pub open spec fn spec_render_listing(&self, req: &Request, parent_modified: FileTime, listed: Seq<DirEntry>) -> StepView {
        StepView::Render(
            PageView {
                status: Status::Success,
                template: Template::DirectoryListing,
                fields: listing_fields(
                    req.url_path@,
                    req.spec_is_root(),
                    self.writes_temp_dir.is_some(),
                    parent_modified,
                    listed,
                ),
                allow: None,
            },
        )
    }

    /// Writes the listing of a directory for entries in the order given.
    /// `parent_modified` is when the directory above was last modified; at
    /// the root it is not read.
    pub fn render_listing(&self, req: &Request, parent_modified: &FileTime, listed: &Vec<DirEntry>) -> (step: Step)
        requires
            !req.spec_is_root() ==> parent_modified.is_valid(),
            forall|i: int| 0 <= i < listed@.len() ==> (#[trigger] listed@[i]).modified.is_valid(),
        ensures
            step@ == self.spec_render_listing(req, *parent_modified, listed@),
    {
        let fields = write_listing_fields(
            req.url_path.as_str(),
            req.is_root(),
            self.writes_temp_dir.is_some(),
            parent_modified,
            listed,
        );
        Step::Render(
            Page { status: Status::Success, template: Template::DirectoryListing, fields, allow: None },
        )
    }

    /// Answers a request for a directory with its listing: the entries that
    /// are shown, directories before files and each by name without regard
    /// to case, written as the rows of the listing page. Entries with the
    /// same name up to case may come in either order.
    pub fn handle_get_dir_listing(&self, req: &Request, parent_modified: &FileTime, entries: &Vec<DirEntry>) -> (step: Step)
        requires
            !req.spec_is_root() ==> parent_modified.is_valid(),
            forall|i: int| 0 <= i < entries@.len() ==> (#[trigger] entries@[i]).modified.is_valid(),
        ensures
            exists|listed: Seq<DirEntry>|
                is_listing_of(listed, entries@, self.follow_symlinks) && step@ == self.spec_render_listing(
                    req,
                    *parent_modified,
                    listed,
                ),
    {
        let listed = listing_order(entries, self.follow_symlinks);
        proof {
            listing_keeps_validity(listed@, entries@, self.follow_symlinks);
        }
        self.render_listing(req, parent_modified, &listed)
    }
}

} // verus!
