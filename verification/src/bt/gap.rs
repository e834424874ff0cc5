//! Bonding and link events.
//!
//! A successful authentication is where the peer is remembered. A link that
//! is reported as existing already, after a reboot that the phone did not
//! notice, cannot be recovered in place: the device restarts.

use vstd::prelude::*;

use crate::bt::BdAddr;

verus! {

/// How long the controller is given to settle before the restart.
pub const RESTART_DELAY_MS: u32 = 1000;

#[derive(Debug, Clone, Copy, PartialEq, Eq, Structural)]
pub enum BtStatus {
    Success,
    HciConnectionExists,
    Other,
}

/// What the stack reports of a peer.
#[derive(Debug, Clone, Copy)]
pub enum GapEvent {
    AuthenticationCompleted { addr: BdAddr, status: BtStatus },
    AclConnected { addr: BdAddr, status: BtStatus },
    AclDisconnected { addr: BdAddr },
    Other,
}

/// What is to be done about it.
#[derive(Debug, Clone, Copy)]
pub enum GapAction {
    Nothing,
    /// Remember the peer for the next boot.
    StorePeer(BdAddr),
    /// Wait, then restart the device.
    Restart { delay_ms: u32 },
}

/// The stack-wide session.
pub struct GapSession {}

impl GapSession {
    /// What is to be done about an event on a device that does or does not
    /// restart on a link that exists already.
    pub fn action_for(event: GapEvent, restarts: bool) -> (r: GapAction)
        ensures
            r == (match event {
                GapEvent::AuthenticationCompleted { addr, status: BtStatus::Success } =>
                    GapAction::StorePeer(addr),
                GapEvent::AclConnected { addr, status: BtStatus::HciConnectionExists } if restarts =>
                    GapAction::Restart { delay_ms: RESTART_DELAY_MS },
                _ => GapAction::Nothing,
            }),
    {
        match GapSession::handle_event(event) {
            GapAction::Restart { delay_ms } => {
                if restarts {
                    GapAction::Restart { delay_ms }
                } else {
                    GapAction::Nothing
                }
            },
            action => action,
        }
    }

    /// What is to be done about an event.
    pub fn handle_event(event: GapEvent) -> (r: GapAction)
        ensures
            r == (match event {
                GapEvent::AuthenticationCompleted { addr, status: BtStatus::Success } =>
                    GapAction::StorePeer(addr),
                GapEvent::AclConnected { addr, status: BtStatus::HciConnectionExists } =>
                    GapAction::Restart { delay_ms: RESTART_DELAY_MS },
                _ => GapAction::Nothing,
            }),
    {
        match event {
            GapEvent::AuthenticationCompleted { addr, status } => {
                if status == BtStatus::Success {
                    GapAction::StorePeer(addr)
                } else {
                    GapAction::Nothing
                }
            },
            GapEvent::AclConnected { status, .. } => {
                if status == BtStatus::HciConnectionExists {
                    GapAction::Restart { delay_ms: RESTART_DELAY_MS }
                } else {
                    GapAction::Nothing
                }
            },
            _ => GapAction::Nothing,
        }
    }
}

/// The device restarts after a second.
pub proof fn law_restart_delay()
    ensures
        RESTART_DELAY_MS == 1000,
{
}

} // verus!
