//! The last bonded peer, kept in flash for a reconnect at boot.
//!
//! It is one blob of six bytes. Pairing another phone overwrites it.

use vstd::prelude::*;

use crate::bt::BdAddr;

verus! {

/// Flash namespace of the entry.
pub const NAMESPACE: &'static str = "bt_speaker";

/// Key of the entry.
pub const KEY: &'static str = "last_peer";

/// Length of the entry.
pub const BLOB_LEN: usize = 6;

/// What flash gave for the entry.
pub enum BlobRead {
    Found(Vec<u8>),
    Missing,
    Failed,
}

/// The peer that an entry stands for. An entry of any other length is none.
pub open spec fn peer_in(blob: Seq<u8>) -> Option<Seq<u8>> {
    if blob.len() == BLOB_LEN {
        Some(blob)
    } else {
        None
    }
}

/// The entry for a peer.
pub open spec fn entry_for(addr: BdAddr) -> Seq<u8> {
    addr.bytes@
}

pub struct PairCache {}

impl PairCache {
    /// The remembered peer, if flash holds one.
    pub fn read(blob: &BlobRead) -> (r: Option<BdAddr>)
        ensures
            match *blob {
                BlobRead::Found(bytes) => match peer_in(bytes@) {
                    Some(peer) => r matches Some(addr) && addr.bytes@ == peer,
                    None => r is None,
                },
                BlobRead::Missing => r is None,
                BlobRead::Failed => r is None,
            },
    {
        match blob {
            BlobRead::Found(bytes) => {
                if bytes.len() == BLOB_LEN {
                    let addr = BdAddr {
                        bytes: [bytes[0], bytes[1], bytes[2], bytes[3], bytes[4], bytes[5]],
                    };
                    assert(addr.bytes@ == bytes@);
                    Some(addr)
                } else {
                    None
                }
            },
            BlobRead::Missing => None,
            BlobRead::Failed => None,
        }
    }

    /// The entry that remembers a peer.
    pub fn write(addr: &BdAddr) -> (r: Vec<u8>)
        ensures
            r@ == entry_for(*addr),
    {
        let b = addr.bytes;
        let r = vec![b[0], b[1], b[2], b[3], b[4], b[5]];
        assert(r@ == addr.bytes@);
        r
    }
}

/// The peer that was remembered is the one that is found.
pub proof fn law_stored_peer_is_found(addr: BdAddr)
    ensures
        peer_in(entry_for(addr)) == Some(addr.bytes@),
{
}

/// An entry is the six bytes of the address, in order, and an entry of six bytes
/// is an address of these bytes. No other entry is one.
pub proof fn law_entry_is_the_address(addr: BdAddr, blob: Seq<u8>)
    ensures
        entry_for(addr).len() == 6,
        forall|i: int| 0 <= i < 6 ==> #[trigger] entry_for(addr)[i] == addr.bytes[i],
        peer_in(blob) is Some <==> blob.len() == 6,
        peer_in(blob) matches Some(peer) ==> peer.len() == 6 && forall|i: int|
            0 <= i < 6 ==> #[trigger] peer[i] == blob[i],
{
}

} // verus!
