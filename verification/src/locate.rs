//! The external-tool locator: resolves a named helper executable on the
//! search path, with actionable install guidance on a miss.

use vstd::prelude::*;
use vstd::string::*;
use crate::errors::ActionError;

verus! {

/// Relies on `which::which`: a search-path lookup of an executable by
/// name.  The outcome depends on the machine, so nothing is promised of
/// which way it goes.
#[verifier::external_body]
fn which_lookup(name: &str) -> (r: Option<String>) {
    match which::which(name) {
        Ok(path) => Some(path.to_string_lossy().into_owned()),
        Err(_) => None,
    }
}

/// Maps a lookup outcome to the structured result: a hit passes the
/// found path through unchanged, a miss is reported as `ToolNotFound`
/// carrying the name, whose rendered message holds the name-specific
/// install hint.
pub fn resolve_lookup(name: &str, hit: Option<String>) -> (r: Result<String, ActionError>)
    ensures
        hit matches Some(p) ==> r == Ok::<String, ActionError>(p),
        hit is None ==> (r matches Err(e) && e matches ActionError::ToolNotFound { name: n }
            && n@ == name@),
{
    match hit {
        Some(path) => Ok(path),
        None => Err(ActionError::ToolNotFound { name: name.to_owned() }),
    }
}

/// Resolves a helper executable on the search path.  Whether the lookup
/// hits depends on the machine; either way the outcome goes through
/// `resolve_lookup`, so a hit's path is handed back unchanged.
pub fn require_command(name: &str) -> (r: Result<String, ActionError>)
    ensures
        r matches Err(e) ==> (e matches ActionError::ToolNotFound { name: n } && n@ == name@),
{
    resolve_lookup(name, which_lookup(name))
}

} // verus!
