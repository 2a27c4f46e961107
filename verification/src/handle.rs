//! The handles: a temporary directory and a temporary file, each bound to
//! the path at which it was created.

use vstd::prelude::*;
use crate::closing::{Closing, ClosingView};
use crate::opening::{Opening, OpeningView};
use crate::protocol::Kind;

verus! {

/// The prefix of a temporary directory that is opened where the platform
/// keeps its temporary files: `temp-`.
pub open spec fn default_dir_prefix() -> Seq<char> {
    seq!['t', 'e', 'm', 'p', '-']
}

/// Temporary directory.
///
/// A value is bound to the path at which its directory was created. Whoever
/// holds it owes the removal of that directory: see [`TempDir::close`].
#[derive(Debug)]
pub struct TempDir {
    path: String,
}

/// Temporary file.
///
/// A value is bound to the path at which its file was created, empty.
/// Whoever holds it owes the removal of that file: see [`TempFile::close`].
#[derive(Debug)]
pub struct TempFile {
    path: String,
}

impl View for TempDir {
    type V = Seq<char>;

    /// The bound path.
    closed spec fn view(&self) -> Seq<char> {
        self.path@
    }
}

impl View for TempFile {
    type V = Seq<char>;

    /// The bound path.
    closed spec fn view(&self) -> Seq<char> {
        self.path@
    }
}

impl TempDir {
    /// Starts to create a temporary directory in `tmp`, the directory where
    /// the platform keeps temporary files. Its name will begin with `temp-`.
    pub fn open(tmp: &str) -> (opening: Opening)
        ensures
            opening@ == OpeningView::start(
                Kind::Directory,
                tmp@,
                default_dir_prefix(),
                Seq::<char>::empty(),
            ),
    {
        proof {
            reveal_strlit("temp-");
            reveal_strlit("");
        }
        assert("temp-"@ =~= default_dir_prefix());
        assert(""@ =~= Seq::<char>::empty());
        Opening::start(Kind::Directory, tmp, "temp-", "")
    }

    /// Starts to create a temporary directory in the given directory.
    ///
    /// - `dir`    - directory path to create in.
    /// - `prefix` - prefix name.
    pub fn open_with(dir: &str, prefix: &str) -> (opening: Opening)
        ensures
            opening@ == OpeningView::start(Kind::Directory, dir@, prefix@, Seq::<char>::empty()),
    {
        proof {
            reveal_strlit("");
        }
        assert(""@ =~= Seq::<char>::empty());
        Opening::start(Kind::Directory, dir, prefix, "")
    }

    /// The handle of the directory that was created at `path`.
    pub(crate) fn bound(path: String) -> (handle: TempDir)
        ensures
            handle@ == path@,
    {
        TempDir { path }
    }

    /// Return directory path.
    pub fn path(&self) -> (path: &str)
        ensures
            path@ == self@,
    {
        self.path.as_str()
    }

    /// Starts to give the directory up: what is at the bound path is to be
    /// removed, with everything beneath it, if it is still there.
    pub fn close(&self) -> (closing: Closing)
        ensures
            closing@ == ClosingView::start(Kind::Directory, self@),
    {
        Closing::start(Kind::Directory, self.path.clone())
    }
}

impl TempFile {
    /// Starts to create a temporary file in `tmp`, the directory where the
    /// platform keeps temporary files. Its name will be a bare timestamp.
    pub fn open(tmp: &str) -> (opening: Opening)
        ensures
            opening@ == OpeningView::start(
                Kind::File,
                tmp@,
                Seq::<char>::empty(),
                Seq::<char>::empty(),
            ),
    {
        proof {
            reveal_strlit("");
        }
        assert(""@ =~= Seq::<char>::empty());
        Opening::start(Kind::File, tmp, "", "")
    }

    /// Starts to create a temporary file in the given directory.
    ///
    /// - `dir`    - directory path to create in.
    /// - `prefix` - prefix name.
    /// - `suffix` - suffix name.
    pub fn open_with(dir: &str, prefix: &str, suffix: &str) -> (opening: Opening)
        ensures
            opening@ == OpeningView::start(Kind::File, dir@, prefix@, suffix@),
    {
        Opening::start(Kind::File, dir, prefix, suffix)
    }

    /// The handle of the file that was created at `path`.
    pub(crate) fn bound(path: String) -> (handle: TempFile)
        ensures
            handle@ == path@,
    {
        TempFile { path }
    }

    /// Return file path.
    pub fn path(&self) -> (path: &str)
        ensures
            path@ == self@,
    {
        self.path.as_str()
    }

    /// Starts to give the file up: what is at the bound path is to be
    /// removed if it is still there.
    pub fn close(&self) -> (closing: Closing)
        ensures
            closing@ == ClosingView::start(Kind::File, self@),
    {
        Closing::start(Kind::File, self.path.clone())
    }
}

} // verus!
