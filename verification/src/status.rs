//! The read-only status query's report. Unlike the ensure-ready
//! protocol, the status query never starts the service: it reports what
//! it could observe, and a connection that cannot be established is a
//! reportable state, not an error.

use vstd::prelude::*;
use crate::containers::ContainerStatus;

verus! {

/// What a status query reports.
pub struct StatusInfo {
    pub connected: bool,
    pub containers: Vec<ContainerStatus>,
    pub portal_url: Option<String>,
    pub portal_ready: bool,
}

/// The report for a host that could not be reached: not connected, no
/// containers, no URL, not ready — and no error raised.
pub fn status_disconnected() -> (s: StatusInfo)
    ensures
        !s.connected,
        s.containers@.len() == 0,
        s.portal_url is None,
        !s.portal_ready,
{
    StatusInfo { connected: false, containers: Vec::new(), portal_url: None, portal_ready: false }
}

/// The report for a reachable host: the observed containers and health
/// verdict carried through unchanged, with the canonical portal URL.
pub fn status_connected(containers: Vec<ContainerStatus>, url: String, ready: bool) -> (s:
    StatusInfo)
    ensures
        s.connected,
        s.containers == containers,
        s.portal_url == Some(url),
        s.portal_ready == ready,
{
    StatusInfo { connected: true, containers, portal_url: Some(url), portal_ready: ready }
}

} // verus!
