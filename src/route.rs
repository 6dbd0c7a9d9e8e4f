//! The route table and the router: which handler answers a request.

use vstd::prelude::*;
use crate::http::{Method, Redirect, RedirectView, texts_view, SEE_OTHER, BAD_REQUEST, NOT_FOUND};
use crate::outside::{segments_of, confined_of, all_plain, path_segments, confined_path};

verus! {

/// What is mounted at a base path.
pub enum Handler {
    /// Answers the base path itself with a redirect to the front page.
    Index,
    /// Serves the files under the directory `root`.
    Files(String),
}

pub enum HandlerView {
    Index,
    Files(Seq<char>),
}

impl View for Handler {
    type V = HandlerView;

    open spec fn view(&self) -> HandlerView {
        match self {
            Handler::Index => HandlerView::Index,
            Handler::Files(root) => HandlerView::Files(root@),
        }
    }
}

/// A handler mounted at a base path, given by its segments (`/static` is
/// `["static"]`, `/` is empty).
pub struct Mount {
    pub base: Vec<String>,
    pub handler: Handler,
}

pub struct MountView {
    pub base: Seq<Seq<char>>,
    pub handler: HandlerView,
}

impl View for Mount {
    type V = MountView;

    open spec fn view(&self) -> MountView {
        MountView { base: texts_view(self.base), handler: self.handler@ }
    }
}

/// The route table: mounts, tried in order.
pub struct Site {
    pub mounts: Vec<Mount>,
}

impl View for Site {
    type V = Seq<MountView>;

    open spec fn view(&self) -> Seq<MountView> {
        self.mounts@.map_values(|m: Mount| m@)
    }
}

/// A file to look up: components below a root directory. `index` marks the
/// lookup of a directory's `index.html`.
pub struct FileTarget {
    pub root: String,
    pub parts: Vec<String>,
    pub index: bool,
}

pub struct FileTargetView {
    pub root: Seq<char>,
    pub parts: Seq<Seq<char>>,
    pub index: bool,
}

impl View for FileTarget {
    type V = FileTargetView;

    open spec fn view(&self) -> FileTargetView {
        FileTargetView { root: self.root@, parts: texts_view(self.parts), index: self.index }
    }
}

/// What the router decided for a request.
pub enum Dispatch {
    Redirect(Redirect),
    File(FileTarget),
    Reject(u16),
}

pub enum DispatchView {
    Redirect(RedirectView),
    File(FileTargetView),
    Reject(u16),
}

impl View for Dispatch {
    type V = DispatchView;

    open spec fn view(&self) -> DispatchView {
        match self {
            Dispatch::Redirect(r) => DispatchView::Redirect(r@),
            Dispatch::File(t) => DispatchView::File(t@),
            Dispatch::Reject(s) => DispatchView::Reject(*s),
        }
    }
}

pub open spec fn index_location() -> Seq<char> {
    "/static/index.html"@
}

pub open spec fn front_page() -> RedirectView {
    RedirectView { status: SEE_OTHER, location: index_location() }
}

/// The site's table: the index handler at `/`, the `static` directory at
/// `/static`.
pub open spec fn site_table() -> Seq<MountView> {
    seq![
        MountView { base: seq![], handler: HandlerView::Index },
        MountView { base: seq!["static"@], handler: HandlerView::Files("static"@) },
    ]
}

/// Whether `base` is a prefix of `segs`.
pub open spec fn has_prefix(segs: Seq<Seq<char>>, base: Seq<Seq<char>>) -> bool {
    base.len() <= segs.len() && segs.subrange(0, base.len() as int) == base
}

/// The answer of one mount to a GET of `uri`, or `None` where it passes the
/// request on.
pub open spec fn mount_answer(mt: MountView, uri: Seq<char>) -> Option<DispatchView> {
    let base = mt.base;
    match segments_of(uri) {
        Some(segs) => if has_prefix(segs, base) {
            match mt.handler {
                HandlerView::Index => if segs.len() == base.len() {
                    Some(DispatchView::Redirect(front_page()))
                } else {
                    None
                },
                HandlerView::Files(root) => match confined_of(uri, base.len()) {
                    Some(parts) => Some(
                        DispatchView::File(FileTargetView { root, parts, index: false }),
                    ),
                    None => None,
                },
            }
        } else {
            None
        },
        None => None,
    }
}

/// The answer of the first mount from `i` on that answers a GET of `uri`.
pub open spec fn first_answer(mounts: Seq<MountView>, i: int, uri: Seq<char>) -> DispatchView
    decreases mounts.len() - i,
{
    if i >= mounts.len() || i < 0 {
        DispatchView::Reject(NOT_FOUND)
    } else {
        match mount_answer(mounts[i], uri) {
            Some(d) => d,
            None => first_answer(mounts, i + 1, uri),
        }
    }
}

/// The router's decision for a request.
pub open spec fn route_spec(mounts: Seq<MountView>, m: Method, uri: Seq<char>) -> DispatchView {
    if segments_of(uri) is None {
        DispatchView::Reject(BAD_REQUEST)
    } else if m != Method::Get {
        DispatchView::Reject(NOT_FOUND)
    } else {
        first_answer(mounts, 0, uri)
    }
}

/// A file target never leaves its root.
pub open spec fn confined(d: DispatchView) -> bool {
    match d {
        DispatchView::File(t) => all_plain(t.parts),
        _ => true,
    }
}

/// The handler of `/`: a redirect to the front page.
pub fn index() -> (r: Redirect)
    ensures
        r@ == front_page(),
{
    Redirect { status: SEE_OTHER, location: "/static/index.html".to_owned() }
}

/// Builds the site's route table.
pub fn rocket() -> (s: Site)
    ensures
        s@ == site_table(),
{
    let mut mounts: Vec<Mount> = Vec::new();
    let root: Vec<String> = Vec::new();
    let mut files: Vec<String> = Vec::new();
    files.push("static".to_owned());
    mounts.push(Mount { base: root, handler: Handler::Index });
    mounts.push(Mount { base: files, handler: Handler::Files("static".to_owned()) });
    let s = Site { mounts };
    assert(texts_view(s.mounts@[0].base) =~= seq![]);
    assert(texts_view(s.mounts@[1].base) =~= seq!["static"@]);
    assert(s@ =~= site_table());
    s
}

/// Whether `base` is a prefix of `segs`.
fn starts_with_segments(segs: &Vec<String>, base: &Vec<String>) -> (r: bool)
    ensures
        r == has_prefix(texts_view(*segs), texts_view(*base)),
{
    if base.len() > segs.len() {
        return false;
    }
    let mut i: usize = 0;
    while i < base.len()
        invariant
            i <= base@.len() <= segs@.len(),
            forall|j: int| 0 <= j < i ==> segs@[j]@ == base@[j]@,
        decreases base.len() - i,
    {
        if !segs[i].eq(&base[i]) {
            assert(texts_view(*segs).subrange(0, base@.len() as int)[i as int]
                != texts_view(*base)[i as int]);
            return false;
        }
        i += 1;
    }
    assert(texts_view(*segs).subrange(0, base@.len() as int) =~= texts_view(*base));
    true
}

/// The answer of one mount to a GET whose segments are `segs`.
fn mount_answer_exec(mt: &Mount, uri: &str, segs: &Vec<String>) -> (r: Option<Dispatch>)
    requires
        segments_of(uri@) == Some(texts_view(*segs)),
    ensures
        match r {
            Some(d) => mount_answer(mt@, uri@) == Some(d@) && confined(d@),
            None => mount_answer(mt@, uri@) is None,
        },
{
    let base = &mt.base;
    if !starts_with_segments(segs, base) {
        return None;
    }
    match &mt.handler {
        Handler::Index => {
            if segs.len() == base.len() {
                Some(Dispatch::Redirect(index()))
            } else {
                None
            }
        },
        Handler::Files(root) => match confined_path(uri, base.len()) {
            Some(parts) => Some(
                Dispatch::File(FileTarget { root: root.clone(), parts, index: false }),
            ),
            None => None,
        },
    }
}

impl Site {
    /// Routes a request: `uri` is the request target. A target that is not
    /// an origin URI is a bad request; otherwise a GET goes to the first
    /// mount that answers it, and anything else is not found. A file target
    /// never names anything outside its root.
    pub fn route(&self, m: Method, uri: &str) -> (r: Dispatch)
        ensures
            r@ == route_spec(self@, m, uri@),
            confined(r@),
    {
        let segs = match path_segments(uri) {
            Some(s) => s,
            None => return Dispatch::Reject(BAD_REQUEST),
        };
        if m != Method::Get {
            return Dispatch::Reject(NOT_FOUND);
        }
        let mut i: usize = 0;
        while i < self.mounts.len()
            invariant
                i <= self.mounts@.len(),
                m == Method::Get,
                segments_of(uri@) == Some(texts_view(segs)),
                first_answer(self@, 0, uri@) == first_answer(self@, i as int, uri@),
            decreases self.mounts.len() - i,
        {
            let answer = mount_answer_exec(&self.mounts[i], uri, &segs);
            assert(self@[i as int] == self.mounts@[i as int]@);
            match answer {
                Some(d) => return d,
                None => {},
            }
            i += 1;
        }
        Dispatch::Reject(NOT_FOUND)
    }
}

/// A GET of a target whose path has no segments (`/`, with any query) is
/// answered by the redirect to the front page.
pub proof fn law_root_redirects(uri: Seq<char>)
    requires
        segments_of(uri) == Some(Seq::<Seq<char>>::empty()),
    ensures
        route_spec(site_table(), Method::Get, uri) == DispatchView::Redirect(front_page()),
{
    let segs = Seq::<Seq<char>>::empty();
    assert(segs.subrange(0, 0) =~= site_table()[0].base);
    assert(mount_answer(site_table()[0], uri) == Some(DispatchView::Redirect(front_page())));
}

/// A GET under `/static` goes to the file of the `static` directory that the
/// segments after `static` name; where they name no plain path below it, the
/// request is not found.
pub proof fn law_static_targets(uri: Seq<char>, segs: Seq<Seq<char>>)
    requires
        segments_of(uri) == Some(segs),
        segs.len() >= 1,
        segs[0] == "static"@,
    ensures
        route_spec(site_table(), Method::Get, uri) == match confined_of(uri, 1) {
            Some(parts) => DispatchView::File(
                FileTargetView { root: "static"@, parts, index: false },
            ),
            None => DispatchView::Reject(NOT_FOUND),
        },
{
    let table = site_table();
    assert(segs.subrange(0, 0) =~= table[0].base);
    assert(mount_answer(table[0], uri) is None);
    assert(segs.subrange(0, 1) =~= table[1].base);
    assert(first_answer(table, 2, uri) == DispatchView::Reject(NOT_FOUND));
    assert(first_answer(table, 0, uri) == first_answer(table, 1, uri));
}

} // verus!
