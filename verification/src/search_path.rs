//! The directories in which a module image is looked for, in order.

use vstd::prelude::*;
use vstd::string::StringExecFns;

verus! {

/// Name of the environment variable that holds the build output directory.
pub const OUTPUT_DIR_VARIABLE: &'static str = "OUT_DIR";

/// What is appended to the build output directory to give the first
/// candidate.
pub const OUTPUT_SUBDIR: &'static str = "\\game\\";

/// The system directory.
pub const SYSTEM_DIR: &'static str = "C:\\Windows\\system32\\";

/// The root directory of the operating system.
pub const WINDOWS_DIR: &'static str = "C:\\Windows\\";

/// The local subdirectory, relative to the working directory.
pub const LOCAL_DIR: &'static str = "game\\";

/// How many directories are searched.
pub const SEARCH_DIR_COUNT: usize = 5;

/// The build output directory as text: empty where the variable is unset.
pub open spec fn output_dir(var: Option<Seq<char>>) -> Seq<char> {
    match var {
        Some(dir) => dir,
        None => Seq::empty(),
    }
}

/// The candidate directories in search order, given the value of the
/// build output directory variable:
///
/// 1. the build output directory, followed by [`OUTPUT_SUBDIR`];
/// 2. the empty path, which is the working directory;
/// 3. [`SYSTEM_DIR`];
/// 4. [`WINDOWS_DIR`];
/// 5. [`LOCAL_DIR`].
pub open spec fn search_dirs(var: Option<Seq<char>>) -> Seq<Seq<char>> {
    seq![
        output_dir(var) + OUTPUT_SUBDIR@,
        Seq::empty(),
        SYSTEM_DIR@,
        WINDOWS_DIR@,
        LOCAL_DIR@,
    ]
}

/// No two candidate directories are the same text, whatever the build
/// output directory is.
pub proof fn lemma_search_dirs_distinct(var: Option<Seq<char>>)
    ensures
        search_dirs(var).len() == SEARCH_DIR_COUNT,
        forall|i: int, j: int|
            0 <= i < j < search_dirs(var).len() ==> search_dirs(var)[i] != search_dirs(var)[j],
{
    reveal_strlit("\\game\\");
    reveal_strlit("C:\\Windows\\system32\\");
    reveal_strlit("C:\\Windows\\");
    reveal_strlit("game\\");
    let dirs = search_dirs(var);
    let out = output_dir(var);
    assert(dirs[0].len() == out.len() + 6);
    assert(dirs[1].len() == 0);
    assert(dirs[2].len() == 20);
    assert(dirs[3].len() == 11);
    assert(dirs[4].len() == 5);
    if dirs[0] == dirs[2] {
        assert(dirs[0][14] == OUTPUT_SUBDIR@[0]);
        assert(dirs[2][14] == 't');
    }
    if dirs[0] == dirs[3] {
        assert(dirs[0][5] == OUTPUT_SUBDIR@[0]);
        assert(dirs[3][5] == 'n');
    }
}

/// Builds the candidate directories, in search order.
///
/// `var` is the value of [`OUTPUT_DIR_VARIABLE`], or `None` where it is
/// unset.
pub fn candidate_dirs(var: Option<String>) -> (dirs: Vec<String>)
    ensures
        dirs.deep_view() == search_dirs(var.deep_view()),
{
    let mut first = match var {
        Some(dir) => dir,
        None => String::new(),
    };
    first.append(OUTPUT_SUBDIR);
    let mut dirs: Vec<String> = Vec::new();
    dirs.push(first);
    dirs.push(String::new());
    dirs.push(String::from_str(SYSTEM_DIR));
    dirs.push(String::from_str(WINDOWS_DIR));
    dirs.push(String::from_str(LOCAL_DIR));
    assert(dirs.deep_view() =~= search_dirs(var.deep_view()));
    dirs
}

} // verus!
