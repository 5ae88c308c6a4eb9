//! The registry value that makes the system start the tool.

use crate::utf16::{encode_z, encoded};
use vstd::prelude::*;
use vstd::string::StringExecFns;

verus! {

/// The path in quotes.
pub open spec fn quoted(path: Seq<char>) -> Seq<char> {
    "\""@ + path + "\""@
}

/// The value to store for the program at `path`: its path in quotes, ended by a
/// zero. Without a path there is nothing to store.
pub fn run_value(path: &str) -> (r: Option<Vec<u16>>)
    ensures
        path@.len() == 0 ==> r is None,
        path@.len() > 0 ==> r is Some && (r->0)@ == encoded(quoted(path@)).push(0),
{
    if path.is_empty() {
        return None;
    }
    let mut quoted = "\"".to_owned();
    quoted.append(path);
    quoted.append("\"");
    Some(encode_z(quoted.as_str()))
}

/// The quotes stand around the whole path and nothing else does, so a path with
/// blanks is read as one.
pub proof fn law_path_stands_in_quotes(path: Seq<char>)
    ensures
        quoted(path).len() == path.len() + 2,
        quoted(path)[0] == '"',
        quoted(path).last() == '"',
        quoted(path).subrange(1, path.len() as int + 1) == path,
{
    reveal_strlit("\"");
    assert(quoted(path).subrange(1, path.len() as int + 1) =~= path);
}

} // verus!
