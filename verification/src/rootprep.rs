//! Preparing the ephemeral root: where the target executable must land
//! inside it, and the placeholder device node every root gets. The caller
//! creates the directory tree and copies the files; the paths are decided
//! here.

use vstd::prelude::*;
use vstd::string::{StrSliceExecFns, StringExecFns};

verus! {

/// The command's path inside the new root, relative to the root: the
/// absolute path with one leading separator removed, so that joining it
/// under the root puts the executable where the command expects itself.
pub open spec fn spec_seed_relative_path(command: Seq<char>) -> Seq<char> {
    if command.len() > 0 && command[0] == '/' {
        command.skip(1)
    } else {
        command
    }
}

/// Strips one leading `/` from the command so the caller can join the rest
/// under the ephemeral root.
pub fn seed_relative_path(command: &str) -> (r: String)
    ensures
        r@ == spec_seed_relative_path(command@),
{
    let n = command.unicode_len();
    if n > 0 && command.get_char(0) == '/' {
        let rest = command.substring_char(1, n);
        proof {
            assert(command@.subrange(1, n as int) =~= command@.skip(1));
        }
        rest.to_owned()
    } else {
        command.to_owned()
    }
}

/// Where the `/dev/null` placeholder lives, relative to the root. It is
/// created as an empty regular file: enough for programs that merely open
/// and write to it.
pub fn dev_null_relative_path() -> (r: String)
    ensures
        r@ == "dev/null"@,
{
    String::from_str("dev/null")
}

} // verus!
