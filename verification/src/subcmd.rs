pub mod add;

use vstd::prelude::*;
use crate::subcmd::add::AddOptions;

verus! {

/// The parsed form of a subcommand's arguments.
#[derive(Debug, PartialEq, Eq)]
pub enum SubcmdOptions {
    Add(AddOptions),
}

} // verus!
