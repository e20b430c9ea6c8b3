//! Directory listings: which entries are shown, in what order, and the rows
//! they are written as.

use crate::model::FileTime;
use crate::outside::{
    date_time_text, file_name_of, format_time, guess_mime, guessed_mime, lowercase, path_file_name,
    to_lowercase,
};
use crate::text::{chars_of, decimal, decimal_text, replace, replaced, text_of};
use lazysort::SortedBy;
use std::cmp::Ordering;
use vstd::prelude::*;

verus! {

/// One entry of a directory.
#[derive(Clone, Debug, PartialEq, Eq)]
pub struct DirEntry {
    /// The entry's name within the directory.
    pub name: String,
    /// The entry's path.
    pub path: String,
    /// Whether the entry is a file.
    pub is_file: bool,
    /// Whether the entry is a symbolic link.
    pub is_symlink: bool,
    /// The entry's length in bytes.
    pub len: u64,
    /// When the entry was last modified.
    pub modified: FileTime,
    /// Whether the entry's content looks binary rather than textual.
    pub binary: bool,
    /// The entry's length as a reader likes it.
    pub size_text: String,
}

impl DirEntry {
    /// A copy of the entry.
    pub fn duplicate(&self) -> (e: DirEntry)
        ensures
            e == *self,
    {
        DirEntry {
            name: self.name.clone(),
            path: self.path.clone(),
            is_file: self.is_file,
            is_symlink: self.is_symlink,
            len: self.len,
            modified: self.modified,
            binary: self.binary,
            size_text: self.size_text.clone(),
        }
    }
}

/// How one value stands to another in an order.
#[derive(Clone, Copy, Debug, PartialEq, Eq, Structural)]
pub enum Order {
    Before,
    Same,
    After,
}

/// The order of two byte strings: byte by byte, a prefix before what it is a
/// prefix of.
pub open spec fn bytes_order(a: Seq<u8>, b: Seq<u8>) -> Order
    decreases a.len(),
{
    if a.len() == 0 {
        if b.len() == 0 {
            Order::Same
        } else {
            Order::Before
        }
    } else if b.len() == 0 {
        Order::After
    } else if a[0] < b[0] {
        Order::Before
    } else if a[0] > b[0] {
        Order::After
    } else {
        bytes_order(a.drop_first(), b.drop_first())
    }
}

/// The order of two byte strings.
pub fn order_bytes(a: &[u8], b: &[u8]) -> (o: Order)
    ensures
        o == bytes_order(a@, b@),
{
    let mut i: usize = 0;
    assert(a@.subrange(0, a@.len() as int) =~= a@);
    assert(b@.subrange(0, b@.len() as int) =~= b@);
    while i < a.len() && i < b.len()
        invariant
            i <= a.len(),
            i <= b.len(),
            bytes_order(a@, b@) == bytes_order(
                a@.subrange(i as int, a@.len() as int),
                b@.subrange(i as int, b@.len() as int),
            ),
        decreases a.len() - i,
    {
        let ghost ra = a@.subrange(i as int, a@.len() as int);
        let ghost rb = b@.subrange(i as int, b@.len() as int);
        assert(ra[0] == a@[i as int] && rb[0] == b@[i as int]);
        if a[i] < b[i] {
            return Order::Before;
        }
        if a[i] > b[i] {
            return Order::After;
        }
        assert(ra.drop_first() =~= a@.subrange(i + 1, a@.len() as int));
        assert(rb.drop_first() =~= b@.subrange(i + 1, b@.len() as int));
        i += 1;
    }
    if i < b.len() {
        Order::Before
    } else if i < a.len() {
        Order::After
    } else {
        Order::Same
    }
}

/// What an entry is sorted by after its kind: its name in lower case, as
/// bytes.
pub open spec fn sort_name(e: DirEntry) -> Seq<u8> {
    vstd::utf8::encode_utf8(lowercase(e.name@))
}

/// The order of two entries in a listing: directories before files, and
/// within each by name without regard to case.
pub open spec fn entry_order(a: DirEntry, b: DirEntry) -> Order {
    if a.is_file == b.is_file {
        bytes_order(sort_name(a), sort_name(b))
    } else if b.is_file {
        Order::Before
    } else {
        Order::After
    }
}

/// The order of two entries in a listing.
pub fn order_entries(a: &DirEntry, b: &DirEntry) -> (o: Order)
    ensures
        o == entry_order(*a, *b),
{
    if a.is_file == b.is_file {
        let la = to_lowercase(a.name.as_str());
        let lb = to_lowercase(b.name.as_str());
        order_bytes(la.as_str().as_bytes(), lb.as_str().as_bytes())
    } else if b.is_file {
        Order::Before
    } else {
        Order::After
    }
}

/// The order of two entries in a listing, as the standard library names it.
pub fn compare_entries(a: &DirEntry, b: &DirEntry) -> (o: Ordering)
    ensures
        (o == Ordering::Less) == (entry_order(*a, *b) == Order::Before),
        (o == Ordering::Equal) == (entry_order(*a, *b) == Order::Same),
        (o == Ordering::Greater) == (entry_order(*a, *b) == Order::After),
{
    match order_entries(a, b) {
        Order::Before => Ordering::Less,
        Order::Same => Ordering::Equal,
        Order::After => Ordering::Greater,
    }
}

/// Byte strings are in the same place of the order exactly where they are
/// equal.
pub proof fn bytes_order_same_is_equal(a: Seq<u8>, b: Seq<u8>)
    ensures
        (bytes_order(a, b) == Order::Same) == (a == b),
    decreases a.len(),
{
    if a.len() > 0 && b.len() > 0 {
        bytes_order_same_is_equal(a.drop_first(), b.drop_first());
        if a[0] == b[0] {
            if a.drop_first() == b.drop_first() {
                assert(a =~= seq![a[0]] + a.drop_first());
                assert(b =~= seq![b[0]] + b.drop_first());
            }
        }
    } else if a.len() == 0 && b.len() == 0 {
        assert(a =~= b);
    }
}

/// One byte string is before another exactly where the other is after it.
pub proof fn bytes_order_reverses(a: Seq<u8>, b: Seq<u8>)
    ensures
        (bytes_order(a, b) == Order::Before) == (bytes_order(b, a) == Order::After),
        (bytes_order(a, b) == Order::Same) == (bytes_order(b, a) == Order::Same),
    decreases a.len(),
{
    if a.len() > 0 && b.len() > 0 {
        bytes_order_reverses(a.drop_first(), b.drop_first());
    }
}

/// What is not after a byte string that is not after a third is not after
/// the third.
pub proof fn bytes_order_is_transitive(a: Seq<u8>, b: Seq<u8>, c: Seq<u8>)
    requires
        bytes_order(a, b) != Order::After,
        bytes_order(b, c) != Order::After,
    ensures
        bytes_order(a, c) != Order::After,
    decreases a.len(),
{
    if a.len() > 0 && b.len() > 0 && c.len() > 0 && a[0] == c[0] {
        bytes_order_is_transitive(a.drop_first(), b.drop_first(), c.drop_first());
    }
}

/// The order of entries is an order: an entry is in its own place, one
/// entry is before another exactly where the other is after it, and what is
/// not after an entry that is not after a third is not after the third.
pub proof fn entry_order_is_an_order(a: DirEntry, b: DirEntry, c: DirEntry)
    ensures
        entry_order(a, a) == Order::Same,
        (entry_order(a, b) == Order::Before) == (entry_order(b, a) == Order::After),
        (entry_order(a, b) == Order::Same) == (entry_order(b, a) == Order::Same),
        entry_order(a, b) != Order::After && entry_order(b, c) != Order::After ==> entry_order(a, c)
            != Order::After,
{
    bytes_order_same_is_equal(sort_name(a), sort_name(a));
    bytes_order_reverses(sort_name(a), sort_name(b));
    if entry_order(a, b) != Order::After && entry_order(b, c) != Order::After {
        if a.is_file == b.is_file && b.is_file == c.is_file {
            bytes_order_is_transitive(sort_name(a), sort_name(b), sort_name(c));
        }
    }
}

/// Whether no entry of `s` stands after a later one.
pub open spec fn in_listing_order(s: Seq<DirEntry>) -> bool {
    forall|i: int, j: int| 0 <= i < j < s.len() ==> entry_order(s[i], s[j]) != Order::After
}

/// Sorts with `lazysort`'s `sorted_by` under `compare_entries`, which is an
/// order. Trusted: what comes out are the entries that went in, and none
/// stands after a later one.
#[verifier::external_body]
fn sort_entries(entries: Vec<DirEntry>) -> (res: Vec<DirEntry>)
    ensures
        res@.to_multiset() == entries@.to_multiset(),
        in_listing_order(res@),
{
    entries.into_iter().sorted_by(|a, b| compare_entries(a, b)).collect()
}

/// The entries that a listing shows: all of them where symbolic links are
/// followed, else those that are no symbolic links.
pub open spec fn shown(entries: Seq<DirEntry>, follow_symlinks: bool) -> Seq<DirEntry>
    decreases entries.len(),
{
    if entries.len() == 0 {
        Seq::empty()
    } else if follow_symlinks || !entries.last().is_symlink {
        shown(entries.drop_last(), follow_symlinks).push(entries.last())
    } else {
        shown(entries.drop_last(), follow_symlinks)
    }
}

/// Whether `listed` is a listing of `entries`: the entries that are shown,
/// each as often as it is there, in listing order.
pub open spec fn is_listing_of(listed: Seq<DirEntry>, entries: Seq<DirEntry>, follow_symlinks: bool) -> bool {
    &&& listed.to_multiset() == shown(entries, follow_symlinks).to_multiset()
    &&& in_listing_order(listed)
}

/// The entries of a directory as a listing shows them.
pub fn listing_order(entries: &Vec<DirEntry>, follow_symlinks: bool) -> (listed: Vec<DirEntry>)
    ensures
        is_listing_of(listed@, entries@, follow_symlinks),
{
    let mut kept: Vec<DirEntry> = Vec::new();
    let mut i: usize = 0;
    assert(entries@.subrange(0, 0) =~= Seq::<DirEntry>::empty());
    while i < entries.len()
        invariant
            i <= entries.len(),
            kept@ == shown(entries@.subrange(0, i as int), follow_symlinks),
        decreases entries.len() - i,
    {
        assert(entries@.subrange(0, i + 1).drop_last() =~= entries@.subrange(0, i as int));
        assert(entries@.subrange(0, i + 1).last() == entries@[i as int]);
        if follow_symlinks || !entries[i].is_symlink {
            kept.push(entries[i].duplicate());
        }
        i += 1;
    }
    assert(entries@.subrange(0, entries.len() as int) =~= entries@);
    sort_entries(kept)
}

/// The suffix that picks an entry's icon by what it holds.
pub open spec fn icon_suffix(e: DirEntry) -> Seq<char> {
    if !e.is_file {
        Seq::empty()
    } else {
        match guessed_mime(e.path@) {
            Some((top, _)) => if top == "image"@ || top == "video"@ {
                "_image"@
            } else if top == "text"@ {
                "_text"@
            } else if top == "application"@ {
                "_binary"@
            } else {
                Seq::empty()
            },
            None => if e.binary {
                Seq::empty()
            } else {
                "_text"@
            },
        }
    }
}

fn same_text(a: &str, b: &str) -> (r: bool)
    ensures
        r == (a@ == b@),
{
    a.to_owned() == b.to_owned()
}

fn icon_suffix_of(e: &DirEntry) -> (s: String)
    ensures
        s@ == icon_suffix(*e),
{
    if !e.is_file {
        String::new()
    } else {
        match guess_mime(e.path.as_str()) {
            Some(m) => {
                if same_text(m.top.as_str(), "image") || same_text(m.top.as_str(), "video") {
                    "_image".to_owned()
                } else if same_text(m.top.as_str(), "text") {
                    "_text".to_owned()
                } else if same_text(m.top.as_str(), "application") {
                    "_binary".to_owned()
                } else {
                    String::new()
                }
            },
            None => {
                if e.binary {
                    String::new()
                } else {
                    "_text".to_owned()
                }
            },
        }
    }
}

/// The name an entry's icon is found by: the last component of its path with
/// every dot written as an underscore, or its name where the path has none.
pub open spec fn icon_id(e: DirEntry) -> Seq<char> {
    match path_file_name(e.path@) {
        Some(n) => replaced(n, seq!['.'], seq!['_']),
        None => e.name@,
    }
}

fn icon_id_of(e: &DirEntry) -> (s: String)
    ensures
        s@ == icon_id(*e),
{
    match file_name_of(e.path.as_str()) {
        Some(n) => {
            let from: Vec<char> = vec!['.'];
            let to: Vec<char> = vec!['_'];
            assert(from@ =~= seq!['.']);
            assert(to@ =~= seq!['_']);
            text_of(&replace(&chars_of(n.as_str()), &from, &to))
        },
        None => e.name.clone(),
    }
}

/// A time written as date and time of day.
pub open spec fn time_text(t: FileTime) -> Seq<char> {
    date_time_text(t.year as int, t.mon as int, t.mday as int, t.hour as int, t.min as int, t.sec as int)
}

/// A time written as date and time of day.
pub fn write_time(t: &FileTime) -> (s: String)
    requires
        t.is_valid(),
    ensures
        s@ == time_text(*t),
{
    match format_time(t) {
        Some(s) => s,
        None => String::new(),
    }
}

/// The cell of a row that gives an entry's size: its length in bytes as a
/// title over its length as a reader likes it, for a file; nothing for a
/// directory.
pub open spec fn size_cell(e: DirEntry) -> Seq<char> {
    if e.is_file {
        "<abbr title=\""@ + decimal_text(e.len as nat) + " B\">"@ + e.size_text@ + "</abbr>"@
    } else {
        Seq::empty()
    }
}

fn size_cell_of(e: &DirEntry) -> (s: String)
    ensures
        s@ == size_cell(*e),
{
    let mut s = String::new();
    if e.is_file {
        s.append("<abbr title=\"");
        s.append(decimal(e.len).as_str());
        s.append(" B\">");
        s.append(e.size_text.as_str());
        s.append("</abbr>");
        assert(s@ =~= size_cell(*e));
    }
    s
}

/// What links to an entry: the listing's own path and the entry's name.
pub open spec fn entry_link(e: DirEntry, base: Seq<char>) -> Seq<char> {
    base + e.name@
}

/// The cell of a row that shows an entry's icon, linked to the entry.
pub open spec fn icon_cell(e: DirEntry, base: Seq<char>) -> Seq<char> {
    "<td><a href=\""@ + entry_link(e, base) + "\"><img id=\""@ + icon_id(e) + "\" src=\"{"@ + (if e.is_file {
        "file"@
    } else {
        "dir"@
    }) + icon_suffix(e) + "_icon}\" /></a></td>"@
}

fn icon_cell_of(e: &DirEntry, base: &str) -> (s: String)
    ensures
        s@ == icon_cell(*e, base@),
{
    let mut s = String::new();
    s.append("<td><a href=\"");
    s.append(base);
    s.append(e.name.as_str());
    s.append("\"><img id=\"");
    s.append(icon_id_of(e).as_str());
    s.append("\" src=\"{");
    if e.is_file {
        s.append("file");
    } else {
        s.append("dir");
    }
    s.append(icon_suffix_of(e).as_str());
    s.append("_icon}\" /></a></td>");
    assert(s@ =~= icon_cell(*e, base@));
    s
}

/// The cell of a row that shows an entry's name, linked to the entry; a
/// directory's name ends in a separator.
pub open spec fn name_cell(e: DirEntry, base: Seq<char>) -> Seq<char> {
    "<td><a href=\""@ + entry_link(e, base) + "\">"@ + e.name@ + (if e.is_file {
        Seq::empty()
    } else {
        "/"@
    }) + "</a></td>"@
}

fn name_cell_of(e: &DirEntry, base: &str) -> (s: String)
    ensures
        s@ == name_cell(*e, base@),
{
    let mut s = String::new();
    s.append("<td><a href=\"");
    s.append(base);
    s.append(e.name.as_str());
    s.append("\">");
    s.append(e.name.as_str());
    if !e.is_file {
        s.append("/");
    }
    s.append("</a></td>");
    assert(s@ =~= name_cell(*e, base@));
    s
}

/// The row of a listing for one entry: its icon, its name, when it was last
/// modified and its size.
pub open spec fn entry_row(e: DirEntry, base: Seq<char>) -> Seq<char> {
    "<tr>"@ + icon_cell(e, base) + " "@ + name_cell(e, base) + " <td>"@ + time_text(e.modified)
        + "</td> <td>"@ + size_cell(e) + "</td></tr>\n"@
}

/// The row of a listing for one entry.
pub fn write_entry_row(e: &DirEntry, base: &str) -> (s: String)
    requires
        e.modified.is_valid(),
    ensures
        s@ == entry_row(*e, base@),
{
    let mut s = String::new();
    s.append("<tr>");
    s.append(icon_cell_of(e, base).as_str());
    s.append(" ");
    s.append(name_cell_of(e, base).as_str());
    s.append(" <td>");
    s.append(write_time(&e.modified).as_str());
    s.append("</td> <td>");
    s.append(size_cell_of(e).as_str());
    s.append("</td></tr>\n");
    assert(s@ =~= entry_row(*e, base@));
    s
}

/// The rows of a listing, one after the other.
pub open spec fn entry_rows(entries: Seq<DirEntry>, base: Seq<char>) -> Seq<char>
    decreases entries.len(),
{
    if entries.len() == 0 {
        Seq::empty()
    } else {
        entry_rows(entries.drop_last(), base) + entry_row(entries.last(), base)
    }
}

/// The rows of a listing, one after the other.
pub fn write_entry_rows(entries: &Vec<DirEntry>, base: &str) -> (s: String)
    requires
        forall|i: int| 0 <= i < entries@.len() ==> (#[trigger] entries@[i]).modified.is_valid(),
    ensures
        s@ == entry_rows(entries@, base@),
{
    let mut s = String::new();
    let mut i: usize = 0;
    assert(entries@.subrange(0, 0) =~= Seq::<DirEntry>::empty());
    while i < entries.len()
        invariant
            i <= entries.len(),
            forall|i: int| 0 <= i < entries@.len() ==> (#[trigger] entries@[i]).modified.is_valid(),
            s@ == entry_rows(entries@.subrange(0, i as int), base@),
        decreases entries.len() - i,
    {
        assert(entries@.subrange(0, i + 1).drop_last() =~= entries@.subrange(0, i as int));
        assert(entries@.subrange(0, i + 1).last() == entries@[i as int]);
        s.append(write_entry_row(&entries[i], base).as_str());
        i += 1;
    }
    assert(entries@.subrange(0, entries.len() as int) =~= entries@);
    s
}

/// The path a listing stands under: the URL's path with a separator at its
/// end, and no separator doubled.
pub open spec fn listing_path(url_path: Seq<char>) -> Seq<char> {
    replaced(url_path + "/"@, "//"@, "/"@)
}

/// What the links of a listing start with: the listing's path with a
/// separator before it, and no separator doubled.
pub open spec fn link_base(relpath: Seq<char>) -> Seq<char> {
    replaced("/"@ + relpath, "//"@, "/"@)
}

fn undouble(s: &str) -> (r: String)
    ensures
        r@ == replaced(s@, "//"@, "/"@),
{
    let from = chars_of("//");
    let to = chars_of("/");
    proof {
        reveal_strlit("//");
    }
    text_of(&replace(&chars_of(s), &from, &to))
}

/// The path a listing stands under.
pub fn write_listing_path(url_path: &str) -> (s: String)
    ensures
        s@ == listing_path(url_path@),
{
    let mut s = String::new();
    s.append(url_path);
    s.append("/");
    assert(s@ =~= url_path@ + "/"@);
    undouble(s.as_str())
}

/// What the links of a listing start with.
pub fn write_link_base(relpath: &str) -> (s: String)
    ensures
        s@ == link_base(relpath@),
{
    let mut s = String::new();
    s.append("/");
    s.append(relpath);
    assert(s@ =~= "/"@ + relpath@);
    undouble(s.as_str())
}

/// `s` without its last character.
pub open spec fn without_last(s: Seq<char>) -> Seq<char> {
    if s.len() > 0 {
        s.drop_last()
    } else {
        s
    }
}

/// What the link to the parent of a listing's directory points at, after the
/// first separator: the listing's path up to the last separator before its
/// end, that separator included; nothing where there is none.
pub open spec fn parent_link(relpath: Seq<char>) -> Seq<char> {
    let inner = without_last(relpath);
    match crate::text::last_position(inner, '/') {
        Some(p) => inner.subrange(0, p) + "/"@,
        None => Seq::empty(),
    }
}

fn parent_link_of(relpath: &str) -> (s: String)
    ensures
        s@ == parent_link(relpath@),
{
    let all = chars_of(relpath);
    let inner = if all.len() > 0 {
        crate::text::prefix(&all, all.len() - 1)
    } else {
        all
    };
    assert(inner@ =~= without_last(relpath@));
    proof {
        crate::text::last_position_is_last(inner@, '/');
    }
    match crate::text::last_index_of(&inner, '/') {
        Some(p) => {
            let mut s = text_of(&crate::text::prefix(&inner, p));
            s.append("/");
            s
        },
        None => String::new(),
    }
}

/// The row of a listing that leads to the parent directory, with the time the
/// parent was last modified.
pub open spec fn parent_row(relpath: Seq<char>, parent_modified: FileTime) -> Seq<char> {
    "<tr><td><a href=\"/"@ + parent_link(relpath)
        + "\"><img id=\"parent_dir\" src=\"{back_arrow_icon}\" /></a></td> <td><a href=\"/"@
        + parent_link(relpath) + "\">Parent directory</a></td> <td>"@ + time_text(parent_modified)
        + "</td> <td></td></tr>"@
}

/// The row of a listing that leads to the parent directory.
pub fn write_parent_row(relpath: &str, parent_modified: &FileTime) -> (s: String)
    requires
        parent_modified.is_valid(),
    ensures
        s@ == parent_row(relpath@, *parent_modified),
{
    let link = parent_link_of(relpath);
    let mut s = String::new();
    s.append("<tr><td><a href=\"/");
    s.append(link.as_str());
    s.append("\"><img id=\"parent_dir\" src=\"{back_arrow_icon}\" /></a></td> <td><a href=\"/");
    s.append(link.as_str());
    s.append("\">Parent directory</a></td> <td>");
    s.append(write_time(parent_modified).as_str());
    s.append("</td> <td></td></tr>");
    assert(s@ =~= parent_row(relpath@, *parent_modified));
    s
}

/// The script field of a listing: the upload script where the server takes
/// writes, nothing where it does not.
pub open spec fn upload_script(writable: bool) -> Seq<char> {
    if writable {
        "<script type=\"text/javascript\">{drag_drop}</script>"@
    } else {
        Seq::empty()
    }
}

/// The four fields of a listing page: the directory's path, the upload
/// script, the row for the parent directory (none at the root) and the rows
/// of the entries in the order given.
pub open spec fn listing_fields(
    url_path: Seq<char>,
    is_root: bool,
    writable: bool,
    parent_modified: FileTime,
    listed: Seq<DirEntry>,
) -> Seq<Seq<char>> {
    let relpath = listing_path(url_path);
    seq![
        relpath,
        upload_script(writable),
        if is_root {
            Seq::empty()
        } else {
            parent_row(relpath, parent_modified)
        },
        entry_rows(listed, link_base(relpath)),
    ]
}

/// The four fields of a listing page for entries in the order given.
pub fn write_listing_fields(
    url_path: &str,
    is_root: bool,
    writable: bool,
    parent_modified: &FileTime,
    listed: &Vec<DirEntry>,
) -> (fields: Vec<String>)
    requires
        !is_root ==> parent_modified.is_valid(),
        forall|i: int| 0 <= i < listed@.len() ==> (#[trigger] listed@[i]).modified.is_valid(),
    ensures
        fields.deep_view() == listing_fields(url_path@, is_root, writable, *parent_modified, listed@),
{
    let relpath = write_listing_path(url_path);
    let script = if writable {
        "<script type=\"text/javascript\">{drag_drop}</script>".to_owned()
    } else {
        String::new()
    };
    let parent = if is_root {
        String::new()
    } else {
        write_parent_row(relpath.as_str(), parent_modified)
    };
    let base = write_link_base(relpath.as_str());
    let rows = write_entry_rows(listed, base.as_str());
    let mut fields: Vec<String> = Vec::new();
    fields.push(relpath);
    fields.push(script);
    fields.push(parent);
    fields.push(rows);
    assert(fields.deep_view() =~= listing_fields(url_path@, is_root, writable, *parent_modified, listed@));
    fields
}

/// A listing shows nothing that is not in the directory, and shows a
/// symbolic link only where symbolic links are followed.
pub proof fn listing_shows_what_is_allowed(listed: Seq<DirEntry>, entries: Seq<DirEntry>, follow_symlinks: bool)
    requires
        listed.to_multiset() == shown(entries, follow_symlinks).to_multiset(),
    ensures
        forall|i: int|
            0 <= i < listed.len() ==> entries.contains(#[trigger] listed[i]) && (follow_symlinks
                || !listed[i].is_symlink),
{
    let s = shown(entries, follow_symlinks);
    shown_is_part(entries, follow_symlinks);
    assert forall|i: int| 0 <= i < listed.len() implies entries.contains(#[trigger] listed[i]) && (
    follow_symlinks || !listed[i].is_symlink) by {
        listed.to_multiset_ensures();
        s.to_multiset_ensures();
        assert(listed.contains(listed[i]));
        assert(s.to_multiset().count(listed[i]) > 0);
        assert(s.contains(listed[i]));
        let k = choose|k: int| 0 <= k < s.len() && s[k] == listed[i];
        assert(entries.contains(s[k]));
    }
}

/// Entries whose times can be written out can still be written out when
/// they are listed.
pub proof fn listing_keeps_validity(listed: Seq<DirEntry>, entries: Seq<DirEntry>, follow_symlinks: bool)
    requires
        listed.to_multiset() == shown(entries, follow_symlinks).to_multiset(),
        forall|i: int| 0 <= i < entries.len() ==> (#[trigger] entries[i]).modified.is_valid(),
    ensures
        forall|i: int| 0 <= i < listed.len() ==> (#[trigger] listed[i]).modified.is_valid(),
{
    listing_shows_what_is_allowed(listed, entries, follow_symlinks);
    assert forall|i: int| 0 <= i < listed.len() implies (#[trigger] listed[i]).modified.is_valid() by {
        assert(entries.contains(listed[i]));
    }
}

/// Every entry that is shown is one of the entries, and an entry that is
/// shown is a symbolic link only where those are followed.
pub proof fn shown_is_part(entries: Seq<DirEntry>, follow_symlinks: bool)
    ensures
        forall|k: int|
            0 <= k < shown(entries, follow_symlinks).len() ==> {
                &&& entries.contains(#[trigger] shown(entries, follow_symlinks)[k])
                &&& (follow_symlinks || !shown(entries, follow_symlinks)[k].is_symlink)
            },
    decreases entries.len(),
{
    if entries.len() > 0 {
        let rest = entries.drop_last();
        shown_is_part(rest, follow_symlinks);
        let s = shown(entries, follow_symlinks);
        assert forall|k: int| 0 <= k < s.len() implies {
            &&& entries.contains(#[trigger] s[k])
            &&& (follow_symlinks || !s[k].is_symlink)
        } by {
            if k < shown(rest, follow_symlinks).len() {
                let e = shown(rest, follow_symlinks)[k];
                assert(rest.contains(e));
                let j = choose|j: int| 0 <= j < rest.len() && rest[j] == e;
                assert(entries[j] == e);
            } else {
                assert(s[k] == entries.last());
                assert(entries[entries.len() - 1] == entries.last());
            }
        }
    }
}

} // verus!
