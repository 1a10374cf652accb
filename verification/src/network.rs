//! Network throughput: byte counters from physical interfaces summed
//! into one upload/download rate per cycle, carried in bits per second
//! (a display divides by 1000 for kilobits per second).

use vstd::prelude::*;
use vstd::string::StringSliceAdditionalSpecFns;
use vstd::utf8::encode_utf8;

verus! {

/// Latest network rates, in bits per second.
#[derive(Debug, Clone, Copy, PartialEq, Eq, Structural)]
pub struct Network {
    pub upload: u64,
    pub download: u64,
}

impl Network {
    pub fn new() -> (n: Network)
        ensures
            n.upload == 0,
            n.download == 0,
    {
        Network { upload: 0, download: 0 }
    }

    pub fn update(&mut self, upload: u64, download: u64)
        ensures
            final(self).upload == upload,
            final(self).download == download,
    {
        self.upload = upload;
        self.download = download;
    }
}

/// One interface's byte counters over the last sampling interval, as
/// the provider reports them.
#[derive(Debug, Clone, PartialEq)]
pub struct IfaceSample {
    pub name: String,
    /// Bytes sent over the interval.
    pub transmitted: u64,
    /// Bytes received over the interval.
    pub received: u64,
}

/// Three consecutive bytes of `b` starting at `i` are `x`, `y`, `z`.
pub open spec fn triple_at(b: Seq<u8>, i: int, x: u8, y: u8, z: u8) -> bool {
    b[i] == x && b[i + 1] == y && b[i + 2] == z
}

/// `b` holds the three bytes `x`, `y`, `z` consecutively somewhere.
pub open spec fn contains_triple(b: Seq<u8>, x: u8, y: u8, z: u8) -> bool {
    exists|i: int| 0 <= i && i + 3 <= b.len() && triple_at(b, i, x, y, z)
}

/// Whether an interface name names a physical adapter: wireless (it
/// holds "wlp") or wired (it holds "enp"), which excludes loopback and
/// virtual adapters. Stated over the name's UTF-8 bytes.
pub open spec fn spec_physical_interface(b: Seq<u8>) -> bool {
    contains_triple(b, 'w' as u8, 'l' as u8, 'p' as u8) || contains_triple(
        b,
        'e' as u8,
        'n' as u8,
        'p' as u8,
    )
}

/// Searches `b` for the three consecutive bytes `x`, `y`, `z`.
#[verifier::loop_isolation(false)]
fn bytes_contain_triple(b: &[u8], x: u8, y: u8, z: u8) -> (r: bool)
    ensures
        r == contains_triple(b@, x, y, z),
{
    if b.len() < 3 {
        return false;
    }
    let last_start: usize = b.len() - 3;
    let mut i: usize = 0;
    while i <= last_start
        invariant
            i <= last_start + 1,
            forall|k: int| 0 <= k < i ==> !triple_at(b@, k, x, y, z),
        decreases last_start + 1 - i,
    {
        if b[i] == x && b[i + 1] == y && b[i + 2] == z {
            assert(triple_at(b@, i as int, x, y, z));
            return true;
        }
        i = i + 1;
    }
    assert forall|k: int| 0 <= k && k + 3 <= b@.len() implies !triple_at(b@, k, x, y, z) by {
        assert(k < i);
    }
    false
}

/// Whether the interface name matches the physical-adapter pattern.
pub fn is_physical_interface(name: &str) -> (r: bool)
    ensures
        r == spec_physical_interface(encode_utf8(name@)),
{
    let bytes = name.as_bytes();
    bytes_contain_triple(bytes, 'w' as u8, 'l' as u8, 'p' as u8) || bytes_contain_triple(
        bytes,
        'e' as u8,
        'n' as u8,
        'p' as u8,
    )
}

/// Total bits sent over the interval by physical interfaces.
pub open spec fn upload_bits(s: Seq<IfaceSample>) -> nat
    decreases s.len(),
{
    if s.len() == 0 {
        0
    } else {
        upload_bits(s.drop_last()) + if spec_physical_interface(encode_utf8(s.last().name@)) {
            (8 * s.last().transmitted) as nat
        } else {
            0
        }
    }
}

/// Total bits received over the interval by physical interfaces.
pub open spec fn download_bits(s: Seq<IfaceSample>) -> nat
    decreases s.len(),
{
    if s.len() == 0 {
        0
    } else {
        download_bits(s.drop_last()) + if spec_physical_interface(encode_utf8(s.last().name@)) {
            (8 * s.last().received) as nat
        } else {
            0
        }
    }
}

/// Clips an unbounded total to what a 64-bit counter can carry.
pub open spec fn sat_u64(x: nat) -> u64 {
    if x > u64::MAX {
        u64::MAX
    } else {
        x as u64
    }
}

/// One network-sampler cycle: sums the byte counters of the physical
/// interfaces — loopback and virtual adapters are excluded — and
/// converts them to bits per second (the interval is one second).
#[verifier::loop_isolation(false)]
pub fn accumulate_rates(samples: &Vec<IfaceSample>) -> (n: Network)
    ensures
        n.upload == sat_u64(upload_bits(samples@)),
        n.download == sat_u64(download_bits(samples@)),
{
    let mut up: u64 = 0;
    let mut down: u64 = 0;
    let mut i: usize = 0;
    proof {
        assert(samples@.subrange(0, 0) =~= Seq::<IfaceSample>::empty());
    }
    while i < samples.len()
        invariant
            i <= samples@.len(),
            up == sat_u64(upload_bits(samples@.subrange(0, i as int))),
            down == sat_u64(download_bits(samples@.subrange(0, i as int))),
        decreases samples@.len() - i,
    {
        let ghost done = samples@.subrange(0, i as int);
        if is_physical_interface(samples[i].name.as_str()) {
            let t = samples[i].transmitted;
            let r = samples[i].received;
            let t_bits: u64 = if t > u64::MAX / 8 {
                u64::MAX
            } else {
                t * 8
            };
            let r_bits: u64 = if r > u64::MAX / 8 {
                u64::MAX
            } else {
                r * 8
            };
            up = up.saturating_add(t_bits);
            down = down.saturating_add(r_bits);
        }
        proof {
            assert(samples@.subrange(0, i + 1).drop_last() =~= done);
            assert(samples@.subrange(0, i + 1).last() == samples@[i as int]);
        }
        i = i + 1;
    }
    proof {
        assert(samples@.subrange(0, samples@.len() as int) =~= samples@);
    }
    Network { upload: up, download: down }
}

} // verus!
