//! Locating helper executables on the PATH. The lookup itself comes from
//! the `which` crate behind a trusted declaration; the diagnostic built for
//! a missing executable is verified.

use vstd::prelude::*;

verus! {

/// The diagnostic for an executable that the PATH does not hold.
pub open spec fn missing_exec_message(name: Seq<char>, error_msg: Seq<char>) -> Seq<char> {
    "The `"@ + name + "` executable could not be found in your PATH. "@ + error_msg
}

/// Relies on which::which: searches the PATH for an executable with the
/// given name; the result depends on the environment.
#[verifier::external_body]
fn which_lookup(name: &str) -> (r: Option<String>) {
    match which::which(name) {
        Ok(path) => Some(path.to_string_lossy().into_owned()),
        Err(_) => None,
    }
}

/// Looks the named executable up on the PATH; a miss becomes a diagnostic
/// that names the executable and carries the caller's advice.
pub fn find_executable(name: &str, error_msg: &str) -> (r: Result<String, String>)
    ensures
        r is Err ==> r->Err_0@ == missing_exec_message(name@, error_msg@),
{
    match which_lookup(name) {
        Some(path) => Ok(path),
        None => {
            let mut m = "The `".to_owned();
            m.append(name);
            m.append("` executable could not be found in your PATH. ");
            m.append(error_msg);
            Err(m)
        },
    }
}

} // verus!
