//! The agent's static configuration, loaded once before the core is
//! constructed.

use vstd::prelude::*;

verus! {

/// The configuration the agent is constructed from: its own identity, its
/// owner's identity, and the path of the gateway settings file.
#[derive(Debug, PartialEq)]
pub struct BotConfig {
    pub qq: i64,
    pub master_qq: i64,
    pub setting_file: String,
}

} // verus!
