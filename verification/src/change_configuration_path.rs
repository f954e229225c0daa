//! Changing one of the configured paths.

use crate::configs::paths_config::{changed_paths, ConfigurationPaths, PathsConfig};
use vstd::prelude::*;

verus! {

/// The question that asks which path to change.
pub const PATH_TO_CHANGE_PROMPT: &'static str = "What folder's path do you want to change?";

/// The prompt that asks for the new path of a role.
pub open spec fn path_prompt_text(role: ConfigurationPaths) -> Seq<char> {
    "The path for "@ + role.name_text()
}

/// What is said of a new path that does not exist.
pub open spec fn unvalidated_path_text(path: Seq<char>) -> Seq<char> {
    "Couldn't validate this path: "@ + path + ". Please try again."@
}

/// The prompt that asks for the new path of `role`.
pub fn path_prompt(role: ConfigurationPaths) -> (r: String)
    ensures
        r@ == path_prompt_text(role),
{
    let mut prompt = String::from_str("The path for ");
    prompt.append(role.name());
    prompt
}

/// Takes the new path that the user gave for `role`, and whether something
/// exists at it. A path that exists replaces the path of that role, the
/// other two stay. A path that does not exist changes nothing, and comes
/// back with the line that asks for it again.
pub fn validate_path(
    paths_config: PathsConfig,
    role: ConfigurationPaths,
    path: String,
    exists: bool,
) -> (r: Result<PathsConfig, (PathsConfig, String)>)
    ensures
        match r {
            Ok(changed) => exists && changed@ == changed_paths(paths_config@, role, path@),
            Err(unchanged) => !exists && unchanged.0@ == paths_config@ && unchanged.1@
                == unvalidated_path_text(path@),
        },
{
    if exists {
        Ok(paths_config.with_path(role, path))
    } else {
        let mut diagnostic = String::from_str("Couldn't validate this path: ");
        diagnostic.append(path.as_str());
        diagnostic.append(". Please try again.");
        Err((paths_config, diagnostic))
    }
}

} // verus!
