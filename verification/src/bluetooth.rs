//! The music stream on its way to the analyser.
//!
//! The sink delivers interleaved stereo or mono, as negotiated. The analyser
//! wants mono, so stereo is mixed down.

use vstd::prelude::*;

verus! {

/// Most samples that one mix-down gives. A stereo packet of SBC at 44.1 kHz
/// needs half of it.
pub const DOWNMIX_BUF_SIZE: usize = 2560;

/// How many samples a stereo packet is mixed down to.
pub open spec fn downmix_len(stereo: Seq<u8>) -> nat {
    if stereo.len() / 2 <= DOWNMIX_BUF_SIZE {
        stereo.len() / 2
    } else {
        DOWNMIX_BUF_SIZE as nat
    }
}

/// Each left and right sample, halved and added up.
pub open spec fn downmixed(stereo: Seq<u8>) -> Seq<u8> {
    Seq::new(downmix_len(stereo), |i: int| (stereo[2 * i] / 2 + stereo[2 * i + 1] / 2) as u8)
}

/// Mixes the stream down to mono.
#[derive(Debug, Clone, Copy, PartialEq, Eq, Structural)]
pub struct Downmixer {
    pub stereo: bool,
}

impl Downmixer {
    /// The stream is taken for stereo until a codec says otherwise.
    pub fn new() -> (r: Self)
        ensures
            r.stereo,
    {
        Downmixer { stereo: true }
    }

    /// A codec was negotiated. One that does not say is taken for mono.
    pub fn codec_configured(&mut self, stereo: Option<bool>)
        ensures
            final(self).stereo == (stereo == Some(true)),
    {
        self.stereo = match stereo {
            Some(stereo) => stereo,
            None => false,
        };
    }

    /// The mono samples of a packet.
    pub fn sink_data(&self, packet: &[u8]) -> (r: Vec<u8>)
        ensures
            r@ == (if self.stereo {
                downmixed(packet@)
            } else {
                packet@
            }),
    {
        let len: usize = packet.len();
        let mut r: Vec<u8> = Vec::new();
        let mut i: usize = 0;
        if self.stereo {
            let pairs: usize = len / 2;
            let n: usize = if pairs <= DOWNMIX_BUF_SIZE {
                pairs
            } else {
                DOWNMIX_BUF_SIZE
            };
            while i < n
                invariant
                    i <= n,
                    n == downmix_len(packet@),
                    2 * n <= len,
                    len == packet@.len(),
                    r@ == downmixed(packet@).take(i as int),
                decreases n - i,
            {
                r.push(packet[2 * i] / 2 + packet[2 * i + 1] / 2);
                i = i + 1;
                assert(r@ == downmixed(packet@).take(i as int));
            }
            assert(r@ == downmixed(packet@));
        } else {
            while i < len
                invariant
                    i <= len,
                    len == packet@.len(),
                    r@ == packet@.take(i as int),
                decreases len - i,
            {
                r.push(packet[i]);
                i = i + 1;
                assert(r@ == packet@.take(i as int));
            }
            assert(r@ == packet@);
        }
        r
    }
}

/// A mixed-down sample is the mean of its two sides, or falls short of it by at
/// most one.
pub proof fn law_downmix_averages(stereo: Seq<u8>, i: int)
    requires
        0 <= i < downmix_len(stereo),
    ensures
        stereo[2 * i] + stereo[2 * i + 1] - 2 <= 2 * downmixed(stereo)[i] <= stereo[2 * i]
            + stereo[2 * i + 1],
{
}

/// A stereo packet gives one sample for each whole pair, up to 2560: half of the
/// left and half of the right one, each rounded down.
pub proof fn law_each_pair_is_mixed(stereo: Seq<u8>)
    ensures
        stereo.len() / 2 <= 2560 ==> downmixed(stereo).len() == stereo.len() / 2,
        stereo.len() / 2 > 2560 ==> downmixed(stereo).len() == 2560,
        forall|i: int|
            0 <= i < downmixed(stereo).len() ==> #[trigger] downmixed(stereo)[i] == stereo[2 * i]
                / 2 + stereo[2 * i + 1] / 2,
{
}

} // verus!
