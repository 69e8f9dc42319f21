//! Making the presumed path absolute: a relative path is taken from the
//! directory of the file that holds the invocation, never from the working
//! directory.

use vstd::prelude::*;
use crate::args::PresumedPathToTex;

verus! {

/// Whether the platform's path rules read `path` as a relative path.
pub uninterp spec fn path_is_relative(path: Seq<char>) -> bool;

/// The path that `relative` names when it is followed from `base` without
/// asking the file system: a `.` is skipped, a `..` gives up the last
/// component of what stands so far, and any other component is added at the
/// end, behind the platform's separator.
pub uninterp spec fn logical_path(base: Seq<char>, relative: Seq<char>) -> Seq<char>;

/// A relative path of one component that names a file or a directory: it
/// holds no `/` and is neither empty, `.` nor `..`.
pub open spec fn is_single_name(relative: Seq<char>) -> bool {
    &&& relative.len() > 0
    &&& !relative.contains('/')
    &&& relative != seq!['.']
    &&& relative != seq!['.', '.']
}

/// `name` written behind `dir` and one separator.
pub open spec fn joined(dir: Seq<char>, separator: char, name: Seq<char>) -> Seq<char> {
    dir + seq![separator] + name
}

/// Whether `path` is `name` directly in `dir`, whatever the separator is.
pub open spec fn stands_in(path: Seq<char>, dir: Seq<char>, name: Seq<char>) -> bool {
    exists|separator: char| path == #[trigger] joined(dir, separator, name)
}

/// `std::path::Path::is_relative` of `path`. The contract only names the
/// answer, which is the platform's: `path_is_relative` of the text.
#[verifier::external_body]
fn is_relative(path: &str) -> (relative: bool)
    ensures
        relative == path_is_relative(path@),
{
    std::path::Path::new(path).is_relative()
}

/// `relative_path::RelativePath::to_logical_path` of `relative` on `base`,
/// as text. The contract names the path that comes back, `logical_path` of
/// the two texts, and says what it is in the one case that the crate's
/// source settles in a line: a single name on a base that is not empty is
/// added behind the base and the platform's main separator.
#[verifier::external_body]
fn to_logical_path(relative: &str, base: &str) -> (path: String)
    ensures
        path@ == logical_path(base@, relative@),
        is_single_name(relative@) && base@.len() > 0 ==> stands_in(path@, base@, relative@),
{
    relative_path::RelativePath::new(relative).to_logical_path(base).to_string_lossy().into_owned()
}

/// The path that is handed to the file system: a relative path follows from
/// the directory of the call site, any other path stands as it was written.
pub open spec fn path_from_call_site(
    presumed: Seq<char>,
    call_site_dir: Seq<char>,
    relative: bool,
) -> Seq<char> {
    if relative {
        logical_path(call_site_dir, presumed)
    } else {
        presumed
    }
}

impl PresumedPathToTex {
    /// The path to open, given whether the presumed path is relative. A path
    /// that is not relative is returned unchanged, and the directory of the
    /// call site plays no part in it. A relative path follows from the
    /// directory of the call site; a single name stands directly in it.
    pub fn with_respect_to_call_site_dir_as(self, call_site_dir: &str, relative: bool) -> (path:
        String)
        ensures
            path@ == path_from_call_site(self@, call_site_dir@, relative),
            !relative ==> path@ == self@,
            relative && is_single_name(self@) && call_site_dir@.len() > 0 ==> stands_in(
                path@,
                call_site_dir@,
                self@,
            ),
    {
        if relative {
            to_logical_path(self.0.as_str(), call_site_dir)
        } else {
            self.0
        }
    }

    /// The path to open: the presumed path itself where it is absolute, and
    /// else the presumed path followed from the directory of the call site.
    pub fn with_respect_to_call_site_dir(self, call_site_dir: &str) -> (path: String)
        ensures
            path@ == path_from_call_site(self@, call_site_dir@, path_is_relative(self@)),
            !path_is_relative(self@) ==> path@ == self@,
            path_is_relative(self@) && is_single_name(self@) && call_site_dir@.len() > 0
                ==> stands_in(path@, call_site_dir@, self@),
    {
        let relative = is_relative(self.0.as_str());
        self.with_respect_to_call_site_dir_as(call_site_dir, relative)
    }
}

/// Two invocations in two directories that name the same file each get a
/// path in their own directory: the two paths differ, and the path of one
/// does not stand in the directory of the other.
pub proof fn same_name_resolves_in_own_directory(
    name: Seq<char>,
    first_dir: Seq<char>,
    second_dir: Seq<char>,
    first_path: Seq<char>,
    second_path: Seq<char>,
)
    requires
        first_dir != second_dir,
        stands_in(first_path, first_dir, name),
        stands_in(second_path, second_dir, name),
    ensures
        first_path != second_path,
        !stands_in(first_path, second_dir, name),
        !stands_in(second_path, first_dir, name),
{
    lemma_stands_in_one_directory(first_path, first_dir, second_dir, name);
    lemma_stands_in_one_directory(second_path, second_dir, first_dir, name);
}

/// A path stands in one directory only.
proof fn lemma_stands_in_one_directory(
    path: Seq<char>,
    dir: Seq<char>,
    other_dir: Seq<char>,
    name: Seq<char>,
)
    requires
        stands_in(path, dir, name),
        dir != other_dir,
    ensures
        !stands_in(path, other_dir, name),
{
    if stands_in(path, other_dir, name) {
        let separator = choose|separator: char| path == #[trigger] joined(dir, separator, name);
        let other = choose|separator: char| path == #[trigger] joined(other_dir, separator, name);
        assert(joined(dir, separator, name).len() == dir.len() + 1 + name.len());
        assert(joined(other_dir, other, name).len() == other_dir.len() + 1 + name.len());
        assert(dir.len() == other_dir.len());
        assert(dir =~= path.take(dir.len() as int));
        assert(other_dir =~= path.take(dir.len() as int));
    }
}

} // verus!
