//! The reader's decisions.
use vstd::prelude::*;
use vstd::string::StringExecFns;

use crate::error::{AssetReaderError, FailureKind, ReadFailure};
use crate::path::{extension_of, meta_path_of, meta_suffix, path_extension, with_extension};

verus! {

/// What to do next with a path whose presence was just probed.
pub enum Step {
    /// The path is there: go on and read it.
    Proceed(String),
    /// The path is not there: fail with `NotFound` naming it.
    Missing(String),
}

/// `s` is the step that follows a probe of `path` that found it present or
/// not: go on with `path` where it is there, fail naming `path` where not.
pub open spec fn is_step_of(s: Step, path: Seq<char>, present: bool) -> bool {
    match s {
        Step::Proceed(p) => present && p@ == path,
        Step::Missing(p) => !present && p@ == path,
    }
}

/// `e` is a `NotFound` error that names `path`.
pub open spec fn is_not_found<E>(e: AssetReaderError<E>, path: Seq<char>) -> bool {
    match e {
        AssetReaderError::NotFound(p) => p@ == path,
        AssetReaderError::Io(_) => false,
    }
}

/// The text of the `NotFound` error of a meta request for a path without an
/// extension.
pub open spec fn no_extension_text() -> Seq<char> {
    seq![
        's', 'o', 'u', 'r', 'c', 'e', ' ', 'p', 'a', 't', 'h', ' ', 'h', 'a', 's', ' ', 'n', 'o',
        ' ', 'e', 'x', 't', 'e', 'n', 's', 'i', 'o', 'n',
    ]
}

/// `r` is what a finished read of `path` gives: the bytes read, unchanged;
/// `NotFound` naming `path` where the file was gone; any other failure as
/// `Io`, carrying its error.
pub open spec fn is_read_result_of<E>(
    r: Result<Vec<u8>, AssetReaderError<E>>,
    path: Seq<char>,
    outcome: Result<Vec<u8>, ReadFailure<E>>,
) -> bool {
    match outcome {
        Ok(bytes) => r == Ok::<Vec<u8>, AssetReaderError<E>>(bytes),
        Err(f) => match r {
            Ok(_) => false,
            Err(e) => if f.kind == FailureKind::NotFound {
                is_not_found(e, path)
            } else {
                e == AssetReaderError::Io(f.error)
            },
        },
    }
}

/// `r` is where a meta request for `path` goes: the meta file beside it, or,
/// for a path without an extension, `NotFound` naming that fact.
pub open spec fn is_meta_target_of<E>(r: Result<String, AssetReaderError<E>>, path: Seq<char>) -> bool {
    match meta_path_of(path) {
        Some(m) => r matches Ok(t) && t@ == m,
        None => r matches Err(e) && is_not_found(e, no_extension_text()),
    }
}

/// The entries of a directory listing that could be read, in the order
/// listed; those that could not (`None`) are left out.
pub open spec fn readable_entries(entries: Seq<Option<String>>) -> Seq<String>
    decreases entries.len(),
{
    if entries.len() == 0 {
        Seq::empty()
    } else {
        let rest = readable_entries(entries.drop_last());
        match entries.last() {
            Some(p) => rest.push(p),
            None => rest,
        }
    }
}

/// A directory listing keeps exactly the entries that could be read: a path
/// is in the result if and only if the listing held it as a readable entry.
pub proof fn lemma_listing_keeps_exactly_readable(entries: Seq<Option<String>>, p: String)
    ensures
        readable_entries(entries).contains(p) <==> entries.contains(Some(p)),
    decreases entries.len(),
{
    if entries.len() > 0 {
        let init = entries.drop_last();
        lemma_listing_keeps_exactly_readable(init, p);
        assert(entries =~= init.push(entries.last()));
        if entries.contains(Some(p)) && !init.contains(Some(p)) {
            let j = choose|j: int| 0 <= j < entries.len() && entries[j] == Some(p);
            if j < init.len() {
                assert(init[j] == Some(p));
            }
        }
        if init.contains(Some(p)) {
            let j = choose|j: int| 0 <= j < init.len() && init[j] == Some(p);
            assert(entries[j] == Some(p));
        }
        match entries.last() {
            Some(q) => {
                let rest = readable_entries(init);
                assert(rest.push(q).contains(p) <==> (rest.contains(p) || q == p)) by {
                    if rest.contains(p) {
                        let j = choose|j: int| 0 <= j < rest.len() && rest[j] == p;
                        assert(rest.push(q)[j] == p);
                    }
                    if q == p {
                        assert(rest.push(q)[rest.len() as int] == p);
                    }
                }
            },
            None => {},
        }
    }
}

/// A file that is not there fails with `NotFound` naming its path, whether
/// the probe before the read saw it missing or the read itself did.
pub proof fn lemma_absent_file_not_found<E>(
    path: Seq<char>,
    step: Step,
    r: Result<Vec<u8>, AssetReaderError<E>>,
    failure: ReadFailure<E>,
)
    requires
        is_step_of(step, path, false),
        is_read_result_of(r, path, Err(failure)),
        failure.kind == FailureKind::NotFound,
    ensures
        step matches Step::Missing(p) && p@ == path,
        r matches Err(e) && is_not_found(e, path),
{
}

/// A meta request for a path without an extension fails with `NotFound`,
/// never with `Io`.
pub proof fn lemma_no_extension_not_found<E>(path: Seq<char>, r: Result<String, AssetReaderError<E>>)
    requires
        path_extension(path) is None,
        is_meta_target_of(r, path),
    ensures
        r matches Err(e) && e is NotFound,
{
}

/// A reader that loads assets directly from arbitrary paths, relative to the
/// working directory or absolute.
pub struct FileAssetReader;

impl FileAssetReader {
    /// The path of the meta file beside `path`: `.meta` added to its
    /// extension. None where `path` has no extension.
    pub fn make_meta_path(path: &str) -> (r: Option<String>)
        ensures
            match r {
                Some(m) => meta_path_of(path@) == Some(m@),
                None => meta_path_of(path@) is None,
            },
    {
        match extension_of(path) {
            Some(ext) => {
                let mut meta_ext = ext;
                meta_ext.append(".meta");
                proof {
                    reveal_strlit(".meta");
                    assert(".meta"@ =~= meta_suffix());
                }
                Some(with_extension(path, meta_ext.as_str()))
            },
            None => None,
        }
    }

    /// The step of a `read` or `read_meta` request once the file at `path` has
    /// been probed: read it where it `exists`, else fail with `NotFound`
    /// naming it, so that the host can try another source.
    pub fn read_step(path: &str, exists: bool) -> (r: Step)
        ensures
            is_step_of(r, path@, exists),
    {
        if exists {
            Step::Proceed(path.to_owned())
        } else {
            Step::Missing(path.to_owned())
        }
    }

    /// The step of a `read_directory` request once `path` has been probed:
    /// list it where it `is_dir`, else fail with `NotFound` naming it.
    pub fn directory_step(path: &str, is_dir: bool) -> (r: Step)
        ensures
            is_step_of(r, path@, is_dir),
    {
        if is_dir {
            Step::Proceed(path.to_owned())
        } else {
            Step::Missing(path.to_owned())
        }
    }

    /// The file that a `read_meta` request for `path` reads: the meta file
    /// beside it. A path without an extension has none, and the request fails
    /// with `NotFound`, never with `Io`.
    pub fn read_meta_target<E>(path: &str) -> (r: Result<String, AssetReaderError<E>>)
        ensures
            is_meta_target_of(r, path@),
    {
        match Self::make_meta_path(path) {
            Some(m) => Ok(m),
            None => {
                let text = "source path has no extension".to_owned();
                proof {
                    reveal_strlit("source path has no extension");
                    assert(text@ =~= no_extension_text());
                }
                Err(AssetReaderError::NotFound(text))
            },
        }
    }

    /// Finishes a read of the file at `path`, given what reading it gave:
    /// its bytes, or an I/O failure. A file that turned out to be gone (it may
    /// vanish after it was probed) fails with `NotFound` naming `path`; any
    /// other failure is reported as `Io`.
    pub fn finish_read<E>(path: &str, outcome: Result<Vec<u8>, ReadFailure<E>>) -> (r: Result<
        Vec<u8>,
        AssetReaderError<E>,
    >)
        ensures
            is_read_result_of(r, path@, outcome),
    {
        match outcome {
            Ok(bytes) => Ok(bytes),
            Err(f) => match f.kind {
                FailureKind::NotFound => Err(AssetReaderError::NotFound(path.to_owned())),
                FailureKind::Other => Err(AssetReaderError::Io(f.error)),
            },
        }
    }

    /// Finishes a listing of a directory, given what listing it gave: its
    /// entries, each a path or `None` where that entry could not be read, or
    /// an I/O failure of the listing as a whole. Entries that could not be
    /// read are left out, the others kept in the order listed.
    pub fn finish_listing<E>(listing: Result<Vec<Option<String>>, E>) -> (r: Result<
        Vec<String>,
        AssetReaderError<E>,
    >)
        ensures
            match listing {
                Ok(entries) => r matches Ok(paths) && paths@ == readable_entries(entries@),
                Err(e) => r == Err::<Vec<String>, AssetReaderError<E>>(AssetReaderError::Io(e)),
            },
    {
        match listing {
            Ok(entries) => {
                let ghost all = entries@;
                // Entries can only be moved out from the back: reverse them
                // first, then take them from the back of the reversed list.
                let mut rest = entries;
                let mut reversed: Vec<Option<String>> = Vec::new();
                while rest.len() > 0
                    invariant
                        rest@.len() + reversed@.len() == all.len(),
                        rest@ == all.subrange(0, rest@.len() as int),
                        forall|j: int|
                            0 <= j < reversed@.len() ==> #[trigger] reversed@[j] == all[all.len() - 1 - j],
                    decreases rest@.len(),
                {
                    let entry = rest.pop().unwrap();
                    reversed.push(entry);
                }
                let mut paths: Vec<String> = Vec::new();
                while reversed.len() > 0
                    invariant
                        reversed@.len() <= all.len(),
                        forall|j: int|
                            0 <= j < reversed@.len() ==> #[trigger] reversed@[j] == all[all.len() - 1 - j],
                        paths@ == readable_entries(all.subrange(0, all.len() - reversed@.len())),
                    decreases reversed@.len(),
                {
                    let ghost done = all.len() - reversed@.len();
                    let entry = reversed.pop().unwrap();
                    proof {
                        assert(all.subrange(0, done + 1).drop_last() =~= all.subrange(0, done));
                    }
                    match entry {
                        Some(p) => {
                            paths.push(p);
                        },
                        None => {},
                    }
                }
                proof {
                    assert(all.subrange(0, all.len() as int) =~= all);
                }
                Ok(paths)
            },
            Err(e) => Err(AssetReaderError::Io(e)),
        }
    }
}

} // verus!
