//! The plugin that registers the reader with its host.
use vstd::prelude::*;

verus! {

/// Registers the file reader as an asset source under the `file` scheme, so
/// that `file://<path>` requests are read from `<path>`.
#[derive(Clone, Copy, Default, Debug)]
pub struct FileAssetPlugin;

/// The scheme under which the reader is registered.
pub open spec fn file_scheme() -> Seq<char> {
    seq!['f', 'i', 'l', 'e']
}

impl FileAssetPlugin {
    /// The scheme name that the plugin registers the reader under.
    pub fn scheme(&self) -> (r: &'static str)
        ensures
            r@ == file_scheme(),
    {
        let r = "file";
        proof {
            reveal_strlit("file");
            assert(r@ =~= file_scheme());
        }
        r
    }
}

} // verus!
