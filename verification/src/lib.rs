//! Hot-reload orchestration for a dynamically loaded plugin module.
//!
//! The crate verifies the decision core of a hot-reload supervisor: the
//! lifecycle state machine of one loaded module instance, the coalescing of
//! filesystem-change signals into single reload decisions, the session
//! orchestration that guarantees at most one enabled instance at a time, the
//! staged-artifact naming scheme, and the decoding of the nul-terminated
//! identification buffers a freshly started module fills in.
//!
//! Everything that touches the operating system or the host process — the
//! dynamic-library loader, the filesystem watcher thread, the host's
//! scheduling hook and logging — lives outside this crate and merely drives
//! the verified machines with the outcomes of those calls.

pub mod decode;
pub mod errors;
pub mod lifecycle;
pub mod naming;
pub mod session;

use vstd::prelude::*;

verus! {

/// Size in bytes of each identification buffer handed to a module's start
/// entry point; the callee is expected to nul-terminate its text within it.
pub const IDENT_BUFFER_LEN: usize = 256;

/// The identification the supervisor reports for itself to the host.
pub struct SupervisorInfo {
    /// Human-readable plugin name.
    pub name: String,
    /// Reverse-domain signature.
    pub signature: String,
    /// One-line description.
    pub description: String,
}

/// The supervisor's own fixed identification strings.
pub fn supervisor_info() -> (r: SupervisorInfo)
    ensures
        r.name@ == "xplane-reload"@,
        r.signature@ == "dev.dvmujic.reload"@,
        r.description@ == "a plugin to automaticly reload its child"@,
{
    SupervisorInfo {
        name: String::from_str("xplane-reload"),
        signature: String::from_str("dev.dvmujic.reload"),
        description: String::from_str("a plugin to automaticly reload its child"),
    }
}

} // verus!
