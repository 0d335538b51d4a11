//! Classification of a command name as builtin, external, or unknown.
//!
//! The filesystem and the search path are collaborators: their answers for
//! the name in question come in as plain values (`PathInfo`, a search hit),
//! and the classification is a verified function of those answers.

use vstd::prelude::*;
use vstd::string::StrSliceExecFns;
use super::builtins::{builtin_of, BuiltInCMD};

verus! {

/// What the filesystem metadata provider reports of one path.
#[derive(Clone, Copy, Debug, PartialEq, Eq, Structural)]
pub struct PathInfo {
    pub exists: bool,
    pub is_file: bool,
    pub is_dir: bool,
    pub mode: u32,
}

/// At least one executable permission bit is set.
pub open spec fn has_exec_bit(info: PathInfo) -> bool {
    info.mode & 0o111 != 0
}

/// The path exists, is a regular file, and is executable.
pub open spec fn executable_path(info: PathInfo) -> bool {
    info.exists && info.is_file && has_exec_bit(info)
}

/// Whether a command name contains a path separator.
pub open spec fn contains_separator(s: Seq<char>) -> bool {
    exists|i: int| 0 <= i < s.len() && s[i] == '/'
}

/// A name with a separator is external iff the named path is an executable
/// regular file; a bare name is external iff the search-path provider found
/// an executable match for it.
pub open spec fn external_spec(name: Seq<char>, info: PathInfo, search_found: bool) -> bool {
    if contains_separator(name) {
        executable_path(info)
    } else {
        search_found
    }
}

/// The metadata exists and carries an executable permission bit.
pub fn is_executable(info: &PathInfo) -> (r: bool)
    ensures
        r == (info.exists && has_exec_bit(*info)),
{
    info.exists && (info.mode & 0o111) != 0
}

fn has_separator(name: &str) -> (r: bool)
    ensures
        r == contains_separator(name@),
{
    let n = name.unicode_len();
    let mut i: usize = 0;
    while i < n
        invariant
            n == name@.len(),
            0 <= i <= n,
            forall|j: int| 0 <= j < i ==> name@[j] != '/',
        decreases n - i,
    {
        if name.get_char(i) == '/' {
            return true;
        }
        i += 1;
    }
    false
}

/// Whether a non-builtin command name resolves to an external program,
/// given the collaborators' answers about it.
pub fn is_external_cmd(name: &str, info: &PathInfo, search_found: bool) -> (r: bool)
    ensures
        r == external_spec(name@, *info, search_found),
{
    if has_separator(name) {
        info.is_file && is_executable(info)
    } else {
        search_found
    }
}

/// The resolver's three-way verdict on a command name.
#[derive(Clone, Copy, Debug, PartialEq, Eq, Structural)]
pub enum Classification {
    Builtin,
    External,
    Unknown,
}

/// Builtin classification takes precedence; otherwise the name is External
/// or Unknown as `external_spec` decides.
pub open spec fn classify_spec(name: Seq<char>, info: PathInfo, search_found: bool) -> Classification {
    if builtin_of(name) is Some {
        Classification::Builtin
    } else if external_spec(name, info, search_found) {
        Classification::External
    } else {
        Classification::Unknown
    }
}

/// Classifies a command name, given the collaborators' answers about it.
pub fn classify(name: &str, info: &PathInfo, search_found: bool) -> (c: Classification)
    ensures
        c == classify_spec(name@, *info, search_found),
{
    if BuiltInCMD::is_builtin(name).is_some() {
        Classification::Builtin
    } else if is_external_cmd(name, info, search_found) {
        Classification::External
    } else {
        Classification::Unknown
    }
}

/// A builtin name classifies as Builtin whatever the filesystem or the
/// search path would have answered: the verdict never depends on them.
pub proof fn lemma_builtin_ignores_filesystem(
    name: Seq<char>,
    info1: PathInfo,
    found1: bool,
    info2: PathInfo,
    found2: bool,
)
    requires
        builtin_of(name) is Some,
    ensures
        classify_spec(name, info1, found1) == Classification::Builtin,
        classify_spec(name, info1, found1) == classify_spec(name, info2, found2),
{
}

/// For a name containing a separator, classification is External exactly
/// when the path exists, is a regular file, and has an executable bit set,
/// and Unknown otherwise: no such name is a builtin.
pub proof fn lemma_separated_path_classification(name: Seq<char>, info: PathInfo, search_found: bool)
    requires
        contains_separator(name),
    ensures
        builtin_of(name) is None,
        classify_spec(name, info, search_found) == (if executable_path(info) {
            Classification::External
        } else {
            Classification::Unknown
        }),
{
    if builtin_of(name) is Some {
        reveal_strlit("cd");
        reveal_strlit("echo");
        reveal_strlit("type");
        reveal_strlit("help");
        reveal_strlit("export");
        let i = choose|i: int| 0 <= i < name.len() && name[i] == '/';
        assert(false);
    }
}

} // verus!
