//! Monitoring-agent core: control-command grammar, config hot-swap,
//! dedup/filter policy, ingress validation and outbound event framing.

use vstd::prelude::*;

pub mod strutil;
pub mod control;
pub mod jsonfmt;
pub mod json;
pub mod api;
pub mod watcher;

verus! {

/// Command-line arguments shared by both agent binaries: a single optional
/// JSON config string.
pub struct Args {
    pub config: Option<String>,
}

} // verus!
