//! The external programs: where the bundled assimp goes and whether it must
//! be written there, and whether exiftool is usable.

use vstd::prelude::*;
use crate::paths::{join_path, joined};

verus! {

/// Where a bundled binary `name` lives in the cache directory, with the
/// platform's executable suffix.
pub fn vendored_binary_path(cache_dir: &str, name: &str, exe_suffix: &str) -> (r: String)
    ensures
        r@ == joined(cache_dir@, name@ + exe_suffix@),
{
    let mut file = String::from_str(name);
    file.append(exe_suffix);
    join_path(cache_dir, file.as_str())
}

/// Where the bundled assimp lives in the cache directory; the caller puts the
/// bundled binary there (see `needs_write`) before running it.
pub fn resolve_assimp(cache_dir: &str, exe_suffix: &str) -> (r: String)
    ensures
        r@ == joined(cache_dir@, "assimp"@ + exe_suffix@),
{
    vendored_binary_path(cache_dir, "assimp", exe_suffix)
}

fn same_bytes(a: &[u8], b: &[u8]) -> (r: bool)
    ensures
        r == (a@ == b@),
{
    if a.len() != b.len() {
        return false;
    }
    let mut i: usize = 0;
    while i < a.len()
        invariant
            a@.len() == b@.len(),
            i <= a@.len(),
            forall|k: int| 0 <= k < i ==> a@[k] == b@[k],
        decreases a@.len() - i,
    {
        if a[i] != b[i] {
            assert(a@[i as int] != b@[i as int]);
            return false;
        }
        i = i + 1;
    }
    assert(a@ =~= b@);
    true
}

/// Whether the bundled binary must be written: when no file is there, or the
/// file there holds other bytes than the bundled ones, so that afterwards the
/// cache always holds exactly the bundled binary.
pub fn needs_write(existing: Option<Vec<u8>>, bundled: &[u8]) -> (r: bool)
    ensures
        r == match existing {
            Some(e) => e@ != bundled@,
            None => true,
        },
{
    match existing {
        None => true,
        Some(e) => !same_bytes(e.as_slice(), bundled),
    }
}

/// Why a tool cannot be used.
#[derive(Debug, Clone, Copy, PartialEq, Eq)]
pub enum ToolError {
    /// exiftool did not run
    ExiftoolMissing,
}

impl ToolError {
    /// The message shown for this error, ending with the platform's install
    /// instructions.
    pub fn message(&self, install_hint: &str) -> (r: String)
        ensures
            r@ == "exiftool is required for `extract` but was not found in your PATH!\n... please install it :P\n  "@
                + install_hint@,
    {
        let mut r = String::from_str(
            "exiftool is required for `extract` but was not found in your PATH!\n... please install it :P\n  ",
        );
        r.append(install_hint);
        r
    }
}

/// The exiftool to run, given whether `exiftool -ver` ran successfully: the
/// one found on the `PATH`.
pub fn exiftool_from_probe(probe_succeeded: bool) -> (r: Result<String, ToolError>)
    ensures
        probe_succeeded ==> (r matches Ok(p) && p@ == "exiftool"@),
        !probe_succeeded ==> r == Err::<String, ToolError>(ToolError::ExiftoolMissing),
{
    if probe_succeeded {
        Ok(String::from_str("exiftool"))
    } else {
        Err(ToolError::ExiftoolMissing)
    }
}

} // verus!
