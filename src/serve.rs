//! Serving a file target: turning what was found on disk into a response.

use vstd::prelude::*;
use crate::http::{Response, ResponseView, status_only, texts_view, OK, NOT_FOUND, INTERNAL_SERVER_ERROR};
use crate::outside::{extension_of, content_type_of, all_plain, is_plain_component, file_extension, media_type};
use crate::route::{FileTarget, FileTargetView};

verus! {

/// What a lookup of a file target found on disk.
pub enum FileLookup {
    /// A regular file, with its contents.
    Regular(Vec<u8>),
    /// A directory.
    Directory,
    /// Nothing.
    Missing,
    /// Something that could not be read.
    Failed,
}

pub enum FileLookupView {
    Regular(Seq<u8>),
    Directory,
    Missing,
    Failed,
}

impl View for FileLookup {
    type V = FileLookupView;

    open spec fn view(&self) -> FileLookupView {
        match self {
            FileLookup::Regular(b) => FileLookupView::Regular(b@),
            FileLookup::Directory => FileLookupView::Directory,
            FileLookup::Missing => FileLookupView::Missing,
            FileLookup::Failed => FileLookupView::Failed,
        }
    }
}

/// The next step in serving a target: answer, or look up another target.
pub enum Step {
    Respond(Response),
    Look(FileTarget),
}

pub enum StepView {
    Respond(ResponseView),
    Look(FileTargetView),
}

impl View for Step {
    type V = StepView;

    open spec fn view(&self) -> StepView {
        match self {
            Step::Respond(r) => StepView::Respond(r@),
            Step::Look(t) => StepView::Look(t@),
        }
    }
}

pub open spec fn index_file() -> Seq<char> {
    "index.html"@
}

/// The content type of a file: the one that belongs to the extension of its
/// last component, where there is one.
pub open spec fn content_type_spec(parts: Seq<Seq<char>>) -> Option<Seq<char>> {
    if parts.len() == 0 {
        None
    } else {
        match extension_of(parts.last()) {
            Some(ext) => content_type_of(ext),
            None => None,
        }
    }
}

pub open spec fn empty_response(status: u16) -> ResponseView {
    ResponseView { status, content_type: None, body: Seq::empty() }
}

/// The step that follows a lookup of `t`: a file is served whole with its
/// content type; a directory is answered by its `index.html`; a missing
/// file is not found; a file that cannot be read is a server error.
pub open spec fn serve_spec(t: FileTargetView, found: FileLookupView) -> StepView {
    match found {
        FileLookupView::Regular(bytes) => StepView::Respond(
            ResponseView { status: OK, content_type: content_type_spec(t.parts), body: bytes },
        ),
        FileLookupView::Directory => if t.index {
            StepView::Respond(empty_response(NOT_FOUND))
        } else {
            StepView::Look(
                FileTargetView { root: t.root, parts: t.parts.push(index_file()), index: true },
            )
        },
        FileLookupView::Missing => StepView::Respond(empty_response(NOT_FOUND)),
        FileLookupView::Failed => StepView::Respond(empty_response(INTERNAL_SERVER_ERROR)),
    }
}

/// The content type of the file that `t` names.
pub fn content_type_for(t: &FileTarget) -> (r: Option<String>)
    ensures
        crate::http::text_view(r) == content_type_spec(t@.parts),
{
    let n = t.parts.len();
    if n == 0 {
        return None;
    }
    match file_extension(t.parts[n - 1].as_str()) {
        Some(ext) => media_type(ext.as_str()),
        None => None,
    }
}

/// Decides what follows a lookup of `t` that found `found`. A target that
/// stays below its root leads only to such targets.
pub fn serve_step(t: FileTarget, found: FileLookup) -> (r: Step)
    ensures
        r@ == serve_spec(t@, found@),
        all_plain(t@.parts) ==> match r@ {
            StepView::Look(next) => all_plain(next.parts),
            StepView::Respond(_) => true,
        },
{
    match found {
        FileLookup::Regular(bytes) => {
            let content_type = content_type_for(&t);
            Step::Respond(Response { status: OK, content_type, body: bytes })
        },
        FileLookup::Directory => {
            if t.index {
                Step::Respond(status_only(NOT_FOUND))
            } else {
                let FileTarget { root, parts, index: _ } = t;
                let mut parts = parts;
                let ghost before = texts_view(parts);
                parts.push("index.html".to_owned());
                proof {
                    reveal_strlit("index.html");
                    assert(texts_view(parts) =~= before.push(index_file()));
                    assert(is_plain_component(index_file()));
                }
                Step::Look(FileTarget { root, parts, index: true })
            }
        },
        FileLookup::Missing => Step::Respond(status_only(NOT_FOUND)),
        FileLookup::Failed => Step::Respond(status_only(INTERNAL_SERVER_ERROR)),
    }
}

/// A regular file is served with success, its content type, and its
/// contents byte for byte.
pub proof fn law_file_served_whole(t: FileTargetView, bytes: Seq<u8>)
    ensures
        serve_spec(t, FileLookupView::Regular(bytes)) == StepView::Respond(
            ResponseView { status: OK, content_type: content_type_spec(t.parts), body: bytes },
        ),
{
}

/// A file that does not exist is not found.
pub proof fn law_missing_not_found(t: FileTargetView)
    ensures
        serve_spec(t, FileLookupView::Missing) == StepView::Respond(empty_response(NOT_FOUND)),
{
}

} // verus!
