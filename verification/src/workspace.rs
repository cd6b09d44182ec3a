//! The layout of a scratch directory: where the source goes in and where
//! the artifact is expected to come out.

use vstd::prelude::*;
use vstd::string::*;

verus! {

/// Permission bits that let any user read, write and enter. The isolation
/// runtime runs the toolchain as another user than the host process, so the
/// input file and the output directory are opened up this far.
pub const WIDE_OPEN_MODE: u32 = 0o777;

/// The name prefix of every scratch directory.
pub open spec fn scratch_prefix() -> Seq<char> {
    "playground"@
}

/// The path of the entry `name` inside the directory `dir`: the two joined
/// by one `/`, which is left out where `dir` is empty or already ends in
/// one.
pub open spec fn child(dir: Seq<char>, name: Seq<char>) -> Seq<char> {
    if dir.len() == 0 || dir.last() == '/' {
        dir + name
    } else {
        dir + seq!['/'] + name
    }
}

/// The input file of the workspace rooted at `scratch`.
pub open spec fn input_file(scratch: Seq<char>) -> Seq<char> {
    child(scratch, "input.rs"@)
}

/// The output directory of the workspace rooted at `scratch`.
pub open spec fn output_dir(scratch: Seq<char>) -> Seq<char> {
    child(scratch, "output"@)
}

/// The one place where the artifact of the workspace rooted at `scratch`
/// is looked for.
pub open spec fn artifact_file(scratch: Seq<char>) -> Seq<char> {
    child(output_dir(scratch), "result.wasm"@)
}

/// Joins a directory and the name of an entry in it.
pub fn child_path(dir: &str, name: &str) -> (path: String)
    ensures
        path@ == child(dir@, name@),
{
    let n = dir.unicode_len();
    let mut path = String::from_str(dir);
    if n > 0 && dir.get_char(n - 1) != '/' {
        proof {
            reveal_strlit("/");
        }
        path.append("/");
    }
    path.append(name);
    path
}

/// The path of the input file under `scratch`.
pub fn input_file_path(scratch: &str) -> (path: String)
    ensures
        path@ == input_file(scratch@),
{
    child_path(scratch, "input.rs")
}

/// The path of the output directory under `scratch`.
pub fn output_dir_path(scratch: &str) -> (path: String)
    ensures
        path@ == output_dir(scratch@),
{
    child_path(scratch, "output")
}

/// The path at which the artifact is expected under `scratch`.
pub fn artifact_file_path(scratch: &str) -> (path: String)
    ensures
        path@ == artifact_file(scratch@),
{
    let out = output_dir_path(scratch);
    child_path(out.as_str(), "result.wasm")
}

} // verus!
