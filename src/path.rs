//! Path names and the meta-file naming convention.
use vstd::prelude::*;

verus! {

/// The extension of a path as `std::path::Path::extension` reports it on the
/// target platform: the part of the file name after its last dot, if any.
pub uninterp spec fn path_extension(p: Seq<char>) -> Option<Seq<char>>;

/// The path that `std::path::Path::with_extension` builds from `p` and `ext`
/// on the target platform.
pub uninterp spec fn path_with_extension(p: Seq<char>, ext: Seq<char>) -> Seq<char>;

/// The suffix added to an extension to name the meta file beside an asset.
pub open spec fn meta_suffix() -> Seq<char> {
    seq!['.', 'm', 'e', 't', 'a']
}

/// The meta file of an asset: the asset's path with `.meta` added to its
/// extension (`image.png` gives `image.png.meta`); none for a path without an
/// extension.
pub open spec fn meta_path_of(p: Seq<char>) -> Option<Seq<char>> {
    match path_extension(p) {
        Some(ext) => Some(path_with_extension(p, ext + meta_suffix())),
        None => None,
    }
}

/// Relies on `std::path::Path::extension`, read as text: a path given as a
/// `str` has an extension that is valid UTF-8, so nothing is lost.
#[verifier::external_body]
pub(crate) fn extension_of(path: &str) -> (r: Option<String>)
    ensures
        match r {
            Some(e) => path_extension(path@) == Some(e@),
            None => path_extension(path@) is None,
        },
{
    match std::path::Path::new(path).extension() {
        Some(e) => Some(e.to_string_lossy().into_owned()),
        None => None,
    }
}

/// Relies on `std::path::Path::with_extension`, read as text: built from two
/// `str`s the result is valid UTF-8, so nothing is lost. std panics where the
/// new extension holds a path separator; the one asked for here is the path's
/// own extension, part of its file name, with `.meta` added, which holds none.
#[verifier::external_body]
pub(crate) fn with_extension(path: &str, ext: &str) -> (r: String)
    requires
        exists|e: Seq<char>| path_extension(path@) == Some(e) && ext@ == e + meta_suffix(),
    ensures
        r@ == path_with_extension(path@, ext@),
{
    std::path::Path::new(path).with_extension(ext).to_string_lossy().into_owned()
}

} // verus!
