//! Variant selection: one level of directory-index redirect, then the
//! precompressed `.gz` alternate when the client accepts gzip. The opens
//! themselves happen outside; a `Selector` says which path to open next and
//! decides on each outcome.
use vstd::prelude::*;
use crate::normalize::{normalize, sanitize_path};
use crate::policy::{at_or_after, FileMeta, Opened};

verus! {

/// Which open a selector waits for.
#[derive(Clone, Copy, Debug, PartialEq, Eq, Structural)]
pub enum Phase {
    /// The normalized request path itself.
    Target,
    /// `index.html` inside the directory the target turned out to be.
    Index,
    /// The `.gz` alternate of the file found, kept here.
    Compressed(FileMeta),
}

/// The final outcome of a selection.
#[derive(Clone, Copy, Debug, PartialEq, Eq, Structural)]
pub enum Selection {
    /// Some open was refused.
    Missing,
    /// The index of a directory was itself a directory.
    Directory,
    /// Serve a file; with `gzip`, the handle of the `.gz` alternate, else the
    /// handle of the file found. `meta` is what the response describes.
    Serve { meta: FileMeta, gzip: bool },
}

/// The path to open next and what to do with its outcome.
pub struct Selector {
    path: String,
    gzip: bool,
    phase: Phase,
}

/// A selector seen as plain values.
pub struct SelectorView {
    pub path: Seq<char>,
    pub gzip: bool,
    pub phase: Phase,
}

/// What a selector decides on an outcome: open another path, or stop.
pub enum Step {
    Open(Selector),
    Done(Selection),
}

/// A step seen as plain values.
pub enum StepView {
    Open(SelectorView),
    Done(Selection),
}

/// Having found a file `m`: probe its `.gz` alternate if gzip is accepted,
/// else serve it.
pub open spec fn found(v: SelectorView, m: FileMeta) -> StepView {
    if v.gzip {
        StepView::Open(SelectorView { path: v.path + ".gz"@, gzip: v.gzip, phase: Phase::Compressed(m) })
    } else {
        StepView::Done(Selection::Serve { meta: m, gzip: false })
    }
}

/// The decision of a selector in state `v` on the outcome `o` of its open.
pub open spec fn step(v: SelectorView, o: Opened) -> StepView {
    match v.phase {
        Phase::Target => match o {
            Opened::NotFound => StepView::Done(Selection::Missing),
            Opened::Dir => StepView::Open(
                SelectorView { path: v.path + "/index.html"@, gzip: v.gzip, phase: Phase::Index },
            ),
            Opened::File(m) => found(v, m),
        },
        Phase::Index => match o {
            Opened::NotFound => StepView::Done(Selection::Missing),
            Opened::Dir => StepView::Done(Selection::Directory),
            Opened::File(m) => found(v, m),
        },
        Phase::Compressed(b) => match o {
            Opened::File(g) => if at_or_after(g.modified, b.modified) {
                StepView::Done(
                    Selection::Serve {
                        meta: FileMeta {
                            content_type: b.content_type,
                            len: g.len,
                            modified: b.modified,
                        },
                        gzip: true,
                    },
                )
            } else {
                StepView::Done(Selection::Serve { meta: b, gzip: false })
            },
            _ => StepView::Done(Selection::Serve { meta: b, gzip: false }),
        },
    }
}

impl View for Selector {
    type V = SelectorView;

    closed spec fn view(&self) -> SelectorView {
        SelectorView { path: self.path@, gzip: self.gzip, phase: self.phase }
    }
}

impl View for Step {
    type V = StepView;

    open spec fn view(&self) -> StepView {
        match self {
            Step::Open(s) => StepView::Open(s@),
            Step::Done(d) => StepView::Done(*d),
        }
    }
}

impl Selector {
    /// Starts a selection for a raw request path.
    pub fn new(raw_path: &str, accept_gzip: bool) -> (r: Selector)
        ensures
            r@.path == normalize(raw_path@),
            r@.gzip == accept_gzip,
            r@.phase == Phase::Target,
    {
        Selector { path: sanitize_path(raw_path), gzip: accept_gzip, phase: Phase::Target }
    }

    /// The path to open next.
    pub fn path(&self) -> (r: &str)
        ensures
            r@ == self@.path,
    {
        self.path.as_str()
    }

    /// Whether the next open probes the `.gz` alternate of a file found.
    pub fn probing_alternate(&self) -> (r: bool)
        ensures
            r == self@.phase is Compressed,
    {
        match self.phase {
            Phase::Compressed(_) => true,
            _ => false,
        }
    }

    /// Decides on the outcome of opening `self.path()`.
    pub fn feed(self, opened: Opened) -> (r: Step)
        ensures
            r@ == step(self@, opened),
    {
        let Selector { path, gzip, phase } = self;
        match phase {
            Phase::Target => match opened {
                Opened::NotFound => Step::Done(Selection::Missing),
                Opened::Dir => {
                    let mut p = path;
                    p.append("/index.html");
                    Step::Open(Selector { path: p, gzip, phase: Phase::Index })
                },
                Opened::File(m) => Self::found(path, gzip, m),
            },
            Phase::Index => match opened {
                Opened::NotFound => Step::Done(Selection::Missing),
                Opened::Dir => Step::Done(Selection::Directory),
                Opened::File(m) => Self::found(path, gzip, m),
            },
            Phase::Compressed(b) => match opened {
                Opened::File(g) => {
                    if g.modified.at_or_after(&b.modified) {
                        Step::Done(
                            Selection::Serve {
                                meta: FileMeta {
                                    content_type: b.content_type,
                                    len: g.len,
                                    modified: b.modified,
                                },
                                gzip: true,
                            },
                        )
                    } else {
                        Step::Done(Selection::Serve { meta: b, gzip: false })
                    }
                },
                _ => Step::Done(Selection::Serve { meta: b, gzip: false }),
            },
        }
    }

    fn found(path: String, gzip: bool, m: FileMeta) -> (r: Step)
        ensures
            r@ == found(SelectorView { path: path@, gzip, phase: Phase::Target }, m),
    {
        if gzip {
            let mut p = path;
            p.append(".gz");
            Step::Open(Selector { path: p, gzip, phase: Phase::Compressed(m) })
        } else {
            Step::Done(Selection::Serve { meta: m, gzip: false })
        }
    }
}

/// A compressed alternate is chosen only when it is at least as recent as
/// the file it stands for; the response then describes the uncompressed file's
/// content type and modification time, and the alternate's length.
pub proof fn lemma_gzip_never_stale(v: SelectorView, o: Opened)
    ensures
        step(v, o) matches StepView::Done(Selection::Serve { meta, gzip: true }) ==> {
            &&& v.phase matches Phase::Compressed(b)
            &&& o matches Opened::File(g)
            &&& at_or_after(g.modified, b.modified)
            &&& meta.modified == b.modified
            &&& meta.content_type == b.content_type
            &&& meta.len == g.len
        },
{
}

/// When the client does not accept gzip, no `.gz` alternate is ever probed.
pub proof fn lemma_no_probe_without_gzip(v: SelectorView, o: Opened)
    requires
        !v.gzip,
        !(v.phase is Compressed),
    ensures
        step(v, o) matches StepView::Open(n) ==> !n.gzip && !(n.phase is Compressed),
        !(step(v, o) matches StepView::Done(Selection::Serve { gzip: true, .. })),
{
}

} // verus!
