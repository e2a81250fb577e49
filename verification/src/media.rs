//! The content type of a static file, inferred from the extension of its path.

use vstd::prelude::*;
use vstd::string::*;

verus! {

/// Whether the `.` at position `i` separates the extension from the rest of the
/// path: it is the last `.` of the last segment, and not the first character
/// of that segment.
pub open spec fn splits_extension(path: Seq<char>, i: int) -> bool {
    &&& 0 < i < path.len()
    &&& path[i] == '.'
    &&& path[i - 1] != '/'
    &&& forall|j: int| i < j < path.len() ==> path[j] != '.' && path[j] != '/'
}

/// The extension of a path: what follows the last `.` of its last segment.
/// A segment without a `.`, or with its only `.` in front, has none.
pub open spec fn extension(path: Seq<char>) -> Option<Seq<char>> {
    if exists|i: int| splits_extension(path, i) {
        Some(path.skip((choose|i: int| splits_extension(path, i)) + 1))
    } else {
        None
    }
}

/// The media type that the `mime_guess` crate lists first for an extension,
/// if it lists any.
pub uninterp spec fn listed_media_type(extension: Seq<char>) -> Option<Seq<char>>;

/// The content type for what was found in the list: the listed type, or
/// `application/octet-stream` where nothing is listed.
pub open spec fn media_type_or_default(listed: Option<Seq<char>>) -> Seq<char> {
    match listed {
        Some(media_type) => media_type,
        None => "application/octet-stream"@,
    }
}

/// The content type of the file at a path, by the extension of the path.
pub open spec fn media_type_of(path: Seq<char>) -> Seq<char> {
    match extension(path) {
        Some(ext) => media_type_or_default(listed_media_type(ext)),
        None => media_type_or_default(None),
    }
}

/// A path has at most one place where its extension begins.
pub proof fn lemma_split_is_unique(path: Seq<char>, i: int, j: int)
    requires
        splits_extension(path, i),
        splits_extension(path, j),
    ensures
        i == j,
{
}

/// Looks an extension up by `mime_guess::from_ext` and takes the first media
/// type of the guess with `first_raw`.
///
/// Trusted, not proved: the result is taken to depend on the extension alone
/// and is called [`listed_media_type`] of it. The lookup is a search, without
/// regard to case, in a table that is fixed when `mime_guess` is built.
/// Nothing is claimed of what the table holds.
#[verifier::external_body]
fn lookup_media_type(extension: &str) -> (listed: Option<String>)
    ensures
        listed.deep_view() == listed_media_type(extension@),
{
    mime_guess::from_ext(extension).first_raw().map(String::from)
}

/// Finds the extension of a path, in one pass over its characters.
pub fn extension_of(path: &str) -> (ext: Option<String>)
    ensures
        ext.deep_view() == extension(path@),
{
    let n = path.unicode_len();
    // Where the segment in hand begins, and its last `.` so far.
    let mut segment: usize = 0;
    let mut dot: Option<usize> = None;
    let mut i: usize = 0;
    for c in it: path.chars()
        invariant
            n == path@.len(),
            it.seq() == path@,
            i == it.index(),
            segment <= i,
            segment > 0 ==> path@[segment - 1] == '/',
            forall|j: int| segment <= j < i ==> path@[j] != '/',
            match dot {
                Some(d) => segment <= d < i && path@[d as int] == '.' && forall|j: int|
                    d < j < i ==> path@[j] != '.',
                None => forall|j: int| segment <= j < i ==> path@[j] != '.',
            },
    {
        if c == '/' {
            segment = i + 1;
            dot = None;
        } else if c == '.' {
            dot = Some(i);
        }
        i += 1;
    }
    match dot {
        Some(d) => {
            if d > segment {
                let tail = path.substring_char(d + 1, n);
                proof {
                    assert(splits_extension(path@, d as int));
                    let k = choose|k: int| splits_extension(path@, k);
                    lemma_split_is_unique(path@, k, d as int);
                }
                Some(String::from_str(tail))
            } else {
                assert(forall|k: int| !splits_extension(path@, k));
                None
            }
        },
        None => {
            assert(forall|k: int| !splits_extension(path@, k));
            None
        },
    }
}

/// Picks the content type for what the list holds for an extension.
pub fn content_type_from(listed: Option<String>) -> (media_type: String)
    ensures
        media_type@ == media_type_or_default(listed.deep_view()),
{
    match listed {
        Some(media_type) => media_type,
        None => String::from_str("application/octet-stream"),
    }
}

/// Infers the content type of the file at a path from the extension of the path.
pub fn content_type_for(path: &str) -> (media_type: String)
    ensures
        media_type@ == media_type_of(path@),
{
    match extension_of(path) {
        Some(ext) => content_type_from(lookup_media_type(ext.as_str())),
        None => content_type_from(None),
    }
}

} // verus!
