//! The lines by which a build script tells cargo what to do. A script writes
//! each line to its standard output, in the order of the calls.

use vstd::prelude::*;

verus! {

/// The line that has cargo show `message` as a warning.
pub fn warning(message: &str) -> (line: String)
    ensures
        line@ == "cargo:warning="@ + message@,
{
    let mut line = String::from_str("cargo:warning=");
    line.append(message);
    line
}

/// The line that has cargo run the build script again when the file at
/// `path` changes.
pub fn rerun_if_changed(path: &str) -> (line: String)
    ensures
        line@ == "cargo:rerun-if-changed="@ + path@,
{
    let mut line = String::from_str("cargo:rerun-if-changed=");
    line.append(path);
    line
}

/// The line that has cargo run the build script again when the value of the
/// environment variable `name` changes.
pub fn rerun_if_env_changed(name: &str) -> (line: String)
    ensures
        line@ == "cargo:rerun-if-env-changed="@ + name@,
{
    let mut line = String::from_str("cargo:rerun-if-env-changed=");
    line.append(name);
    line
}

/// The line that asks for the library `name` to be linked.
pub fn add_link_lib(name: &str) -> (line: String)
    ensures
        line@ == "cargo:rustc-link-lib="@ + name@,
{
    let mut line = String::from_str("cargo:rustc-link-lib=");
    line.append(name);
    line
}

/// One line per library, in the order of `names`: for each the line that
/// [`add_link_lib`] gives.
pub fn add_link_libs(names: &[&str]) -> (lines: Vec<String>)
    ensures
        lines.len() == names.len(),
        forall|i: int|
            0 <= i < names.len() ==> (#[trigger] lines[i])@ == "cargo:rustc-link-lib="@ + names[i]@,
{
    let mut lines: Vec<String> = Vec::new();
    let mut i: usize = 0;
    while i < names.len()
        invariant
            i <= names.len(),
            lines.len() == i,
            forall|k: int|
                0 <= k < i ==> (#[trigger] lines[k])@ == "cargo:rustc-link-lib="@ + names[k]@,
        decreases names.len() - i,
    {
        lines.push(add_link_lib(names[i]));
        i = i + 1;
    }
    lines
}

} // verus!
