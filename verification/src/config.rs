//! Where the tool keeps what it remembers between runs.

use crate::text::{extended, join_path};
use vstd::prelude::*;

verus! {

/// The name of the tool's directory under the user's configuration directory.
pub const CONFIG_DIR_NAME: &'static str = "tohum";

/// The tool's own directory under the user's configuration directory. It is
/// created on the first run.
pub fn config_path(os_config_dir: &str) -> (path: String)
    ensures
        path@ == extended(os_config_dir@, CONFIG_DIR_NAME@),
{
    join_path(os_config_dir, CONFIG_DIR_NAME)
}

} // verus!
