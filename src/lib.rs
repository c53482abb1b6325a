//! Resolution of the policy generator's configuration from its command line
//! options: defaults, derived file paths and the list of config map files.

use vstd::prelude::*;

pub mod config;
pub mod options;
pub mod paths;

verus! {

} // verus!
