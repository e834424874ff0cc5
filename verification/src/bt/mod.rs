//! The Bluetooth profiles.
//!
//! - [`gap`]: bonding and link events
//! - [`a2dp`]: music
//! - [`avrcp`]: transport control
//! - [`hfp`]: calls and voice assistant
//! - [`pair_cache`]: the last bonded peer

pub mod a2dp;
pub mod avrcp;
pub mod gap;
pub mod hfp;
pub mod pair_cache;

use vstd::prelude::*;

verus! {

/// A Bluetooth device address.
#[derive(Debug, Clone, Copy)]
pub struct BdAddr {
    pub bytes: [u8; 6],
}

/// What is done at boot once the profiles are up.
#[derive(Debug, Clone, Copy)]
pub enum BootStep {
    ConnectA2dp(BdAddr),
    ConnectHfp(BdAddr),
    GoDiscoverable,
}

/// The steps of a boot: back to the remembered peer, then discoverable.
pub open spec fn boot_order(peer: Option<BdAddr>) -> Seq<BootStep> {
    match peer {
        Some(addr) => seq![
            BootStep::ConnectA2dp(addr),
            BootStep::ConnectHfp(addr),
            BootStep::GoDiscoverable,
        ],
        None => seq![BootStep::GoDiscoverable],
    }
}

/// The steps of a boot, in order.
pub fn boot_steps(peer: Option<BdAddr>) -> (r: Vec<BootStep>)
    ensures
        r@ == boot_order(peer),
{
    let mut r: Vec<BootStep> = Vec::new();
    if let Some(addr) = peer {
        r.push(BootStep::ConnectA2dp(addr));
        r.push(BootStep::ConnectHfp(addr));
    }
    r.push(BootStep::GoDiscoverable);
    assert(r@ =~= boot_order(peer));
    r
}

/// The device goes discoverable once, at the end: both profiles have been
/// connected to the remembered peer before, if there is one.
pub proof fn law_reconnect_comes_before_discoverable(peer: Option<BdAddr>)
    ensures
        boot_order(peer).last() is GoDiscoverable,
        forall|i: int|
            0 <= i < boot_order(peer).len() - 1 ==> !(#[trigger] boot_order(peer)[i] is
                GoDiscoverable),
        peer matches Some(addr) ==> {
            &&& boot_order(peer).drop_last().contains(BootStep::ConnectA2dp(addr))
            &&& boot_order(peer).drop_last().contains(BootStep::ConnectHfp(addr))
        },
{
    if let Some(addr) = peer {
        let steps = boot_order(peer).drop_last();
        assert(steps[0] == BootStep::ConnectA2dp(addr));
        assert(steps[1] == BootStep::ConnectHfp(addr));
    }
}

/// With a remembered peer, boot connects music, then calls, to that peer, then
/// goes discoverable. Without one it only goes discoverable.
pub proof fn law_boot_goes_step_by_step(addr: BdAddr)
    ensures
        boot_order(Some(addr)).len() == 3,
        boot_order(Some(addr))[0] == BootStep::ConnectA2dp(addr),
        boot_order(Some(addr))[1] == BootStep::ConnectHfp(addr),
        boot_order(Some(addr))[2] is GoDiscoverable,
        boot_order(None).len() == 1,
        boot_order(None)[0] is GoDiscoverable,
{
}

} // verus!
