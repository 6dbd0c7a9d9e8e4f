//! The calls into rocket's HTTP layer and into `std::path` that the logic
//! relies on. Each is a thin wrapper whose contract states what the called
//! code guarantees.

use vstd::prelude::*;
use rocket::http::uri::Origin;
use rocket::http::ContentType;

verus! {

/// The non-empty, percent-decoded path segments of an origin URI, or `None`
/// where the text is not an origin URI.
pub uninterp spec fn segments_of(uri: Seq<char>) -> Option<Seq<Seq<char>>>;

/// The file-system components that rocket derives from the path segments of
/// `uri` after the first `skip` ones, with dotfiles refused.
pub uninterp spec fn confined_of(uri: Seq<char>, skip: nat) -> Option<Seq<Seq<char>>>;

/// The extension of a file name.
pub uninterp spec fn extension_of(name: Seq<char>) -> Option<Seq<char>>;

/// The Content-Type header value that rocket associates with an extension.
pub uninterp spec fn content_type_of(ext: Seq<char>) -> Option<Seq<char>>;

/// A component that stays where it is put: it is not `.` or `..`, does not
/// name a hidden file, and holds no separator.
pub open spec fn is_plain_component(c: Seq<char>) -> bool {
    &&& !(c.len() > 0 && c[0] == '.')
    &&& forall|k: int| 0 <= k < c.len() ==> c[k] != '/'
}

pub open spec fn all_plain(parts: Seq<Seq<char>>) -> bool {
    forall|i: int| 0 <= i < parts.len() ==> is_plain_component(#[trigger] parts[i])
}

/// Relies on `Origin::parse` and `Path::segments` of rocket_http: the
/// request target parsed as an origin URI, split into its path segments.
#[verifier::external_body]
pub(crate) fn path_segments(uri: &str) -> (r: Option<Vec<String>>)
    ensures
        match r {
            Some(v) => segments_of(uri@) == Some(crate::http::texts_view(v)),
            None => segments_of(uri@) is None,
        },
{
    let origin = Origin::parse(uri).ok()?;
    let segments = origin.path().segments();
    Some(segments.map(|s| s.to_string()).collect())
}

/// Relies on `Segments::skip` and `Segments::to_path_buf(false)` of
/// rocket_http: `..` removes the component before it, and a segment that
/// starts with `.` or holds `/` is refused, so every component of the
/// result is plain.
#[verifier::external_body]
pub(crate) fn confined_path(uri: &str, skip: usize) -> (r: Option<Vec<String>>)
    ensures
        match r {
            Some(v) => confined_of(uri@, skip as nat) == Some(crate::http::texts_view(v))
                && all_plain(crate::http::texts_view(v)),
            None => confined_of(uri@, skip as nat) is None,
        },
{
    let origin = Origin::parse(uri).ok()?;
    let path = origin.path().segments().skip(skip).to_path_buf(false).ok()?;
    Some(path.iter().map(|c| c.to_string_lossy().into_owned()).collect())
}

/// Relies on `std::path::Path::extension`: the extension of a file name.
#[verifier::external_body]
pub(crate) fn file_extension(name: &str) -> (r: Option<String>)
    ensures
        match r {
            Some(e) => extension_of(name@) == Some(e@),
            None => extension_of(name@) is None,
        },
{
    std::path::Path::new(name).extension().map(|e| e.to_string_lossy().into_owned())
}

/// Relies on `ContentType::from_extension` of rocket_http and its `Display`:
/// the header value for a known extension.
#[verifier::external_body]
pub(crate) fn media_type(ext: &str) -> (r: Option<String>)
    ensures
        match r {
            Some(t) => content_type_of(ext@) == Some(t@),
            None => content_type_of(ext@) is None,
        },
{
    ContentType::from_extension(ext).map(|ct| ct.to_string())
}

} // verus!
