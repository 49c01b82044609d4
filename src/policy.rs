//! The picky open: which opened filesystem entries the server admits to
//! exist, and the content type a served file is labelled with.
use vstd::prelude::*;
use crate::normalize::chars_of;

verus! {

/// A modification time: seconds and nanoseconds relative to the Unix epoch,
/// the seconds negative for earlier times.
#[derive(Clone, Copy, Debug, PartialEq, Eq, Structural)]
pub struct Timestamp {
    pub secs: i64,
    pub nanos: u32,
}

/// `a` is the same instant as `b` or a later one.
pub open spec fn at_or_after(a: Timestamp, b: Timestamp) -> bool {
    a.secs > b.secs || (a.secs == b.secs && a.nanos >= b.nanos)
}

impl Timestamp {
    /// Whether this instant is the same as `other` or later.
    pub fn at_or_after(&self, other: &Timestamp) -> (r: bool)
        ensures
            r == at_or_after(*self, *other),
    {
        self.secs > other.secs || (self.secs == other.secs && self.nanos >= other.nanos)
    }
}

/// What kind of object an opened handle refers to.
#[derive(Clone, Copy, Debug, PartialEq, Eq, Structural)]
pub enum EntryKind {
    Regular,
    Directory,
    Other,
}

/// What a stat of an opened handle reported.
#[derive(Clone, Copy, Debug, PartialEq, Eq, Structural)]
pub struct Stat {
    pub mode: u32,
    pub kind: EntryKind,
    pub len: u64,
    pub modified: Timestamp,
}

/// The content types the server labels files with.
#[derive(Clone, Copy, Debug, PartialEq, Eq, Structural)]
pub enum ContentType {
    Html,
    Css,
    Javascript,
    Woff2,
    Png,
    Plain,
}

/// The media type string of each content type.
pub open spec fn mime_of(t: ContentType) -> Seq<char> {
    match t {
        ContentType::Html => "text/html"@,
        ContentType::Css => "text/css"@,
        ContentType::Javascript => "text/javascript"@,
        ContentType::Woff2 => "font/woff2"@,
        ContentType::Png => "image/png"@,
        ContentType::Plain => "text/plain"@,
    }
}

impl ContentType {
    /// The media type string, as sent in `Content-Type`.
    pub fn mime(&self) -> (r: &'static str)
        ensures
            r@ == mime_of(*self),
    {
        match self {
            ContentType::Html => "text/html",
            ContentType::Css => "text/css",
            ContentType::Javascript => "text/javascript",
            ContentType::Woff2 => "font/woff2",
            ContentType::Png => "image/png",
            ContentType::Plain => "text/plain",
        }
    }
}

/// What the server knows of a file it is willing to serve.
#[derive(Clone, Copy, Debug, PartialEq, Eq, Structural)]
pub struct FileMeta {
    pub content_type: ContentType,
    pub len: u64,
    pub modified: Timestamp,
}

/// The outcome of a picky open. Every refusal is the same `NotFound`.
#[derive(Clone, Copy, Debug, PartialEq, Eq, Structural)]
pub enum Opened {
    NotFound,
    Dir,
    File(FileMeta),
}

/// Readable by user, group and other; and not executable by other unless
/// also by the user.
pub open spec fn mode_admits(mode: u32) -> bool {
    (mode & 0o444) == 0o444 && (mode & 0o101) != 0o001
}

/// The end of `p[..i]` once trailing slashes and trailing `.` segments
/// after a slash are dropped, as path components are read.
pub open spec fn trimmed_end(p: Seq<char>, i: int) -> int
    decreases i,
{
    if i > 0 && p[i - 1] == '/' {
        trimmed_end(p, i - 1)
    } else if i > 1 && p[i - 1] == '.' && p[i - 2] == '/' {
        trimmed_end(p, i - 2)
    } else {
        i
    }
}

/// The start of the segment that ends at `i`.
pub open spec fn segment_start(p: Seq<char>, i: int) -> int
    decreases i,
{
    if i > 0 && p[i - 1] != '/' {
        segment_start(p, i - 1)
    } else {
        i
    }
}

/// Scanning back from `i` to `lo`, the position just after the last `.`, or
/// `lo` when there is none.
pub open spec fn after_dot(p: Seq<char>, lo: int, i: int) -> int
    decreases i - lo,
{
    if i > lo && p[i - 1] != '.' {
        after_dot(p, lo, i - 1)
    } else {
        i
    }
}

/// The extension of the last path component, trailing `.` components
/// aside: what follows its last `.`, where that `.` is not the component's
/// first character.
pub open spec fn extension_of(p: Seq<char>) -> Option<Seq<char>> {
    let e = trimmed_end(p, p.len() as int);
    let s = segment_start(p, e);
    let d = after_dot(p, s, e);
    if d > s + 1 {
        Some(p.subrange(d, e))
    } else {
        None
    }
}

/// The content type that a path's extension selects.
pub open spec fn content_type_of(p: Seq<char>) -> ContentType {
    match extension_of(p) {
        Some(x) => if x == "html"@ {
            ContentType::Html
        } else if x == "css"@ {
            ContentType::Css
        } else if x == "js"@ {
            ContentType::Javascript
        } else if x == "woff2"@ {
            ContentType::Woff2
        } else if x == "png"@ {
            ContentType::Png
        } else {
            ContentType::Plain
        },
        None => ContentType::Plain,
    }
}

/// The result of a picky open of `path`, given what the stat of the opened
/// handle reported (`None` when the open or the stat failed).
pub open spec fn picky_result(path: Seq<char>, stat: Option<Stat>) -> Opened {
    match stat {
        None => Opened::NotFound,
        Some(st) => if !mode_admits(st.mode) {
            Opened::NotFound
        } else {
            match st.kind {
                EntryKind::Regular => Opened::File(
                    FileMeta {
                        content_type: content_type_of(path),
                        len: st.len,
                        modified: st.modified,
                    },
                ),
                EntryKind::Directory => Opened::Dir,
                EntryKind::Other => Opened::NotFound,
            }
        },
    }
}

/// Whether a mode passes the permission policy.
pub fn mode_ok(mode: u32) -> (r: bool)
    ensures
        r == mode_admits(mode),
{
    (mode & 0o444) == 0o444 && (mode & 0o101) != 0o001
}

pub(crate) fn span_equals(p: &Vec<char>, lo: usize, hi: usize, w: &Vec<char>) -> (r: bool)
    requires
        lo <= hi <= p.len(),
    ensures
        r == (p@.subrange(lo as int, hi as int) == w@),
{
    if hi - lo != w.len() {
        return false;
    }
    let mut k: usize = 0;
    while k < w.len()
        invariant
            lo <= hi <= p.len(),
            hi - lo == w.len(),
            k <= w.len(),
            forall|j: int| 0 <= j < k ==> p@[lo + j] == w@[j],
        decreases w.len() - k,
    {
        if p[lo + k] != w[k] {
            assert(p@.subrange(lo as int, hi as int)[k as int] != w@[k as int]);
            return false;
        }
        k = k + 1;
    }
    assert(p@.subrange(lo as int, hi as int) =~= w@);
    true
}

/// Picks the content type of a path from its extension.
pub fn map_content_type(path: &str) -> (r: ContentType)
    ensures
        r == content_type_of(path@),
{
    let p = chars_of(path);
    let n = p.len();
    let mut e = n;
    while e > 0 && (p[e - 1] == '/' || (e > 1 && p[e - 1] == '.' && p[e - 2] == '/'))
        invariant
            e <= n == p.len(),
            trimmed_end(p@, e as int) == trimmed_end(p@, n as int),
        decreases e,
    {
        if p[e - 1] == '/' {
            e = e - 1;
        } else {
            e = e - 2;
        }
    }
    let mut s = e;
    while s > 0 && p[s - 1] != '/'
        invariant
            s <= e <= n == p.len(),
            segment_start(p@, s as int) == segment_start(p@, e as int),
        decreases s,
    {
        s = s - 1;
    }
    let mut d = e;
    while d > s && p[d - 1] != '.'
        invariant
            s <= d <= e <= n == p.len(),
            after_dot(p@, s as int, d as int) == after_dot(p@, s as int, e as int),
        decreases d,
    {
        d = d - 1;
    }
    if d <= s + 1 {
        return ContentType::Plain;
    }
    if span_equals(&p, d, e, &chars_of("html")) {
        ContentType::Html
    } else if span_equals(&p, d, e, &chars_of("css")) {
        ContentType::Css
    } else if span_equals(&p, d, e, &chars_of("js")) {
        ContentType::Javascript
    } else if span_equals(&p, d, e, &chars_of("woff2")) {
        ContentType::Woff2
    } else if span_equals(&p, d, e, &chars_of("png")) {
        ContentType::Png
    } else {
        ContentType::Plain
    }
}

/// Decides a picky open of `path`: `stat` is what the stat of the opened
/// handle reported, or `None` when the open or the stat failed. Only entries
/// whose mode passes the policy and that are regular files or directories
/// are admitted; every other case is `NotFound`.
pub fn picky_open(path: &str, stat: Option<Stat>) -> (r: Opened)
    ensures
        r == picky_result(path@, stat),
{
    match stat {
        None => Opened::NotFound,
        Some(st) => {
            if !mode_ok(st.mode) {
                Opened::NotFound
            } else {
                match st.kind {
                    EntryKind::Regular => Opened::File(
                        FileMeta {
                            content_type: map_content_type(path),
                            len: st.len,
                            modified: st.modified,
                        },
                    ),
                    EntryKind::Directory => Opened::Dir,
                    EntryKind::Other => Opened::NotFound,
                }
            }
        },
    }
}

} // verus!
