//! The commands: what they do, what they answer and what they record.

pub mod course;
pub mod laws;
pub mod queries;
pub mod responses;
pub mod start;
pub mod status;
pub mod tracking;

use vstd::prelude::*;

verus! {

/// How a start is wanted.
#[derive(Clone, Copy, Debug, PartialEq, Eq, Structural)]
pub struct StartOptions {
    /// Wait until Minecraft itself reports online.
    pub wait_online: bool,
    /// Skip the status check before the start.
    pub force: bool,
}

impl Default for StartOptions {
    fn default() -> (r: Self)
        ensures
            r == (StartOptions { wait_online: false, force: false }),
    {
        StartOptions { wait_online: false, force: false }
    }
}

impl StartOptions {
    /// The options as the caller chose them; what was left open is not wanted.
    pub fn chosen(wait_online: Option<bool>, force: Option<bool>) -> (r: StartOptions)
        ensures
            r.wait_online == (wait_online == Some(true)),
            r.force == (force == Some(true)),
    {
        StartOptions {
            wait_online: matches!(wait_online, Some(true)),
            force: matches!(force, Some(true)),
        }
    }
}

} // verus!
